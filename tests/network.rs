use p2p_scope::network::{network_event_to_update, on_outbound, publish_failure_update, NetworkEvent, OutboundAction};
use p2p_scope::startup::{
    dial_report, listen_note, listen_plan, listeners_report, parse_and_transform_multiaddr, uses_dark_palette,
    ListenMode, ListenPlan, Theme, ALL_INTERFACES_ADDR, LOCALHOST_ADDR,
};
use p2p_scope::updates::UiUpdate;

fn output_text(u: &UiUpdate) -> &str {
    match u {
        UiUpdate::TerminalOutput(t) => t,
        other => panic!("not output: {:?}", other),
    }
}

#[test]
fn messages_before_close_are_all_published() {
    let (tx, mut rx) = tokio::sync::mpsc::channel::<String>(32);
    for m in ["one", "two", "three"] {
        tx.blocking_send(m.to_string()).unwrap();
    }
    drop(tx);
    let mut published = Vec::new();
    loop {
        match on_outbound(rx.blocking_recv()) {
            OutboundAction::Publish(bytes) => published.push(bytes),
            OutboundAction::Shutdown => break,
        }
    }
    assert_eq!(published, vec![b"one".to_vec(), b"two".to_vec(), b"three".to_vec()]);
}

#[test]
fn outbound_message_is_published_as_utf8() {
    match on_outbound(Some("héllo".to_string())) {
        OutboundAction::Publish(bytes) => assert_eq!(bytes, "héllo".as_bytes().to_vec()),
        OutboundAction::Shutdown => panic!("unexpected shutdown"),
    }
    assert!(matches!(on_outbound(None), OutboundAction::Shutdown));
}

#[test]
fn gossip_message_becomes_text_message() {
    let r = network_event_to_update(NetworkEvent::Message {
        topic: "monolith".to_string(),
        source: Some("12D3Koo".to_string()),
        data: "hi ✓".as_bytes().to_vec(),
    });
    assert!(r.add_explicit_peer.is_none());
    match r.update {
        UiUpdate::TextMessage { topic, origin_peer, body } => {
            assert_eq!(topic, "monolith");
            assert_eq!(origin_peer, "12D3Koo");
            assert_eq!(body, "hi ✓");
        }
        other => panic!("unexpected {:?}", other),
    }
}

#[test]
fn unsigned_message_is_from_anonymous() {
    let r = network_event_to_update(NetworkEvent::Message { topic: "t".to_string(), source: None, data: vec![] });
    match r.update {
        UiUpdate::TextMessage { origin_peer, body, .. } => {
            assert_eq!(origin_peer, "anonymous");
            assert_eq!(body, "");
        }
        other => panic!("unexpected {:?}", other),
    }
}

#[test]
fn invalid_utf8_message_is_reported() {
    let r = network_event_to_update(NetworkEvent::Message {
        topic: "monolith".to_string(),
        source: Some("P".to_string()),
        data: vec![0x68, 0xff, 0x69],
    });
    assert_eq!(output_text(&r.update), "Message on monolith from P is not UTF-8 text");
}

#[test]
fn other_events_are_reported() {
    let r = network_event_to_update(NetworkEvent::NewListenAddr { address: "/ip4/1.2.3.4/tcp/5".to_string() });
    assert_eq!(output_text(&r.update), "Listening on /ip4/1.2.3.4/tcp/5");
    assert!(r.add_explicit_peer.is_none());
    let r = network_event_to_update(NetworkEvent::ConnectionEstablished {
        peer: "P".to_string(),
        detail: "conn".to_string(),
    });
    assert_eq!(output_text(&r.update), "Connected!: 'conn'");
    assert_eq!(r.add_explicit_peer.as_deref(), Some("P"));
    let r = network_event_to_update(NetworkEvent::Other { detail: "Dialing".to_string() });
    assert_eq!(output_text(&r.update), "EVENT: Dialing");
    assert!(r.add_explicit_peer.is_none());
}

#[test]
fn publish_failure_is_reported() {
    assert_eq!(output_text(&publish_failure_update("NoPeersSubscribedToTopic")), "Publish error: NoPeersSubscribedToTopic");
}

#[test]
fn listen_mode_takes_precedence() {
    assert_eq!(listen_plan(None, false), ListenPlan::AllInterfaces);
    assert_eq!(listen_plan(None, true), ListenPlan::GivenAddresses);
    assert_eq!(listen_plan(Some(ListenMode::All), true), ListenPlan::AllInterfaces);
    assert_eq!(listen_plan(Some(ListenMode::Localhost), true), ListenPlan::Localhost);
    assert_eq!(listen_plan(Some(ListenMode::DoNotListen), true), ListenPlan::NoListen);
    assert_eq!(output_text(&listen_note(ListenPlan::NoListen).unwrap()), "Not listening! La! La! La!");
    assert!(listen_note(ListenPlan::Localhost).is_none());
    assert_eq!(ALL_INTERFACES_ADDR, "/ip4/0.0.0.0/tcp/0");
    assert_eq!(LOCALHOST_ADDR, "/ip4/127.0.0.1/tcp/0");
}

#[test]
fn dark_palette_unless_light() {
    assert!(!uses_dark_palette(Some(Theme::Light)));
    assert!(uses_dark_palette(Some(Theme::Dark)));
    assert!(uses_dark_palette(None));
}

#[test]
fn dial_and_listener_reports() {
    let r = dial_report(&None);
    assert_eq!(r.len(), 1);
    assert_eq!(output_text(&r[0]), "No addresses Dialed");
    let r = dial_report(&Some(vec!["/ip4/1.1.1.1/tcp/1".to_string(), "/dns/x/tcp/2".to_string()]));
    assert_eq!(r.len(), 2);
    assert_eq!(output_text(&r[1]), "Dialed /dns/x/tcp/2");
    assert!(dial_report(&Some(vec![])).is_empty());
    let r = listeners_report(&vec!["/ip4/0.0.0.0/tcp/4001".to_string()]);
    assert_eq!(r.len(), 2);
    assert_eq!(output_text(&r[0]), "LISTENERS:");
    assert_eq!(output_text(&r[1]), "/ip4/0.0.0.0/tcp/4001");
}

#[test]
fn multiaddr_accepts_escaped_and_plain() {
    let a = parse_and_transform_multiaddr("\\/ip4/127.0.0.1/tcp/4001").unwrap();
    assert_eq!(a.to_string(), "/ip4/127.0.0.1/tcp/4001");
    let b = parse_and_transform_multiaddr("/ip4/10.0.0.2/tcp/80").unwrap();
    assert_eq!(b.to_string(), "/ip4/10.0.0.2/tcp/80");
}

#[test]
fn empty_text_is_the_empty_multiaddr() {
    assert_eq!(parse_and_transform_multiaddr("").unwrap().to_string(), "");
    assert_eq!(parse_and_transform_multiaddr("\\").unwrap().to_string(), "");
}

#[test]
fn multiaddr_rejects_bad_text() {
    assert!(parse_and_transform_multiaddr("ip4/127.0.0.1/tcp/4001").is_err());
    assert!(parse_and_transform_multiaddr("x").is_err());
    assert!(parse_and_transform_multiaddr("\\\\/ip4/1.2.3.4").is_err());
    assert!(parse_and_transform_multiaddr("/ip4/300.0.0.1/tcp/1").is_err());
    let e = parse_and_transform_multiaddr("/bogus/1").unwrap_err();
    assert!(!e.is_empty());
}
