//! Startup decisions: the colour palette, where to listen, what to report
//! about dialing, and how addresses given on the command line are read.
use vstd::prelude::*;
use libp2p::Multiaddr;
use crate::updates::UiUpdate;
use crate::network::is_output;

verus! {

#[verifier::external_type_specification]
#[verifier::external_body]
pub struct ExMultiaddr(Multiaddr);

/// The colour theme asked for.
#[derive(Clone, Copy, Debug, PartialEq, Eq, Structural)]
pub enum Theme {
    Light,
    Dark,
}

/// How the node listens for connections.
#[derive(Clone, Copy, Debug, PartialEq, Eq, Structural)]
pub enum ListenMode {
    DoNotListen,
    All,
    Localhost,
}

/// Where the node listens, as decided from the command line.
#[derive(Clone, Copy, Debug, PartialEq, Eq, Structural)]
pub enum ListenPlan {
    /// On each address given with `--listen`.
    GivenAddresses,
    /// On all interfaces, at a port the system picks.
    AllInterfaces,
    /// On the loopback interface, at a port the system picks.
    Localhost,
    /// Nowhere.
    NoListen,
}

/// The address for listening on all interfaces.
pub const ALL_INTERFACES_ADDR: &'static str = "/ip4/0.0.0.0/tcp/0";

/// The address for listening on the loopback interface.
pub const LOCALHOST_ADDR: &'static str = "/ip4/127.0.0.1/tcp/0";

/// Whether the dark palette is loaded: for the dark theme, and when no
/// theme is asked for. The light theme keeps the default palette.
pub fn uses_dark_palette(theme: Option<Theme>) -> (r: bool)
    ensures
        r == (theme != Some(Theme::Light)),
{
    match theme {
        Some(Theme::Light) => false,
        _ => true,
    }
}

/// The listen plan: a listen mode takes precedence over addresses given to
/// listen on; with neither, the node listens on all interfaces.
pub open spec fn listen_plan_for(mode: Option<ListenMode>, addresses_given: bool) -> ListenPlan {
    match mode {
        Some(ListenMode::All) => ListenPlan::AllInterfaces,
        Some(ListenMode::Localhost) => ListenPlan::Localhost,
        Some(ListenMode::DoNotListen) => ListenPlan::NoListen,
        None => if addresses_given {
            ListenPlan::GivenAddresses
        } else {
            ListenPlan::AllInterfaces
        },
    }
}

/// Decides where the node listens.
pub fn listen_plan(mode: Option<ListenMode>, addresses_given: bool) -> (r: ListenPlan)
    ensures
        r == listen_plan_for(mode, addresses_given),
{
    match mode {
        Some(ListenMode::All) => ListenPlan::AllInterfaces,
        Some(ListenMode::Localhost) => ListenPlan::Localhost,
        Some(ListenMode::DoNotListen) => ListenPlan::NoListen,
        None => if addresses_given {
            ListenPlan::GivenAddresses
        } else {
            ListenPlan::AllInterfaces
        },
    }
}

/// The note shown about a listen plan: only not listening is reported.
pub fn listen_note(plan: ListenPlan) -> (r: Option<UiUpdate>)
    ensures
        plan == ListenPlan::NoListen ==> (r matches Some(u) && is_output(
            u,
            "Not listening! La! La! La!"@,
        )),
        plan != ListenPlan::NoListen ==> r is None,
{
    match plan {
        ListenPlan::NoListen => Some(UiUpdate::TerminalOutput(String::from_str("Not listening! La! La! La!"))),
        _ => None,
    }
}

/// The report on dialing: a line for each address dialed, given as text,
/// or one line saying that none was given.
pub fn dial_report(dialed: &Option<Vec<String>>) -> (r: Vec<UiUpdate>)
    ensures
        dialed is None ==> r@.len() == 1 && is_output(r@[0], "No addresses Dialed"@),
        dialed matches Some(addrs) ==> {
            &&& r@.len() == addrs@.len()
            &&& forall|i: int| 0 <= i < addrs@.len() ==> is_output(#[trigger] r@[i], "Dialed "@ + addrs@[i]@)
        },
{
    match dialed {
        None => {
            let mut r: Vec<UiUpdate> = Vec::new();
            r.push(UiUpdate::TerminalOutput(String::from_str("No addresses Dialed")));
            r
        },
        Some(addrs) => {
            let mut r: Vec<UiUpdate> = Vec::new();
            let n = addrs.len();
            let mut i: usize = 0;
            while i < n
                invariant
                    n == addrs@.len(),
                    0 <= i <= n,
                    r@.len() == i,
                    forall|j: int| 0 <= j < i ==> is_output(#[trigger] r@[j], "Dialed "@ + addrs@[j]@),
                decreases n - i,
            {
                let text = String::from_str("Dialed ").concat(addrs[i].as_str());
                r.push(UiUpdate::TerminalOutput(text));
                i = i + 1;
            }
            r
        },
    }
}

/// The report on the addresses the node listens on: a heading, then one
/// line for each address, given as text.
pub fn listeners_report(addrs: &Vec<String>) -> (r: Vec<UiUpdate>)
    ensures
        r@.len() == addrs@.len() + 1,
        is_output(r@[0], "LISTENERS:"@),
        forall|i: int| 0 <= i < addrs@.len() ==> is_output(#[trigger] r@[i + 1], addrs@[i]@),
{
    let mut r: Vec<UiUpdate> = Vec::new();
    r.push(UiUpdate::TerminalOutput(String::from_str("LISTENERS:")));
    let n = addrs.len();
    let mut i: usize = 0;
    while i < n
        invariant
            n == addrs@.len(),
            0 <= i <= n,
            r@.len() == i + 1,
            is_output(r@[0], "LISTENERS:"@),
            forall|j: int| 0 <= j < i ==> is_output(#[trigger] r@[j + 1], addrs@[j]@),
        decreases n - i,
    {
        r.push(UiUpdate::TerminalOutput(addrs[i].clone()));
        i = i + 1;
    }
    r
}

/// An address as given on the command line, without one leading backslash
/// that a shell may have needed to pass it on.
pub open spec fn unescaped(s: Seq<char>) -> Seq<char> {
    if s.len() > 0 && s[0] == '\\' {
        s.drop_first()
    } else {
        s
    }
}

/// Whether the multiaddr grammar accepts a text.
pub uninterp spec fn multiaddr_accepts(s: Seq<char>) -> bool;

/// Relies on `Multiaddr::from_str`: whether it accepts a text depends on the
/// text alone, and a non-empty text that does not start with `/` is
/// rejected. The error is given as its message.
#[verifier::external_body]
fn parse_multiaddr(s: &str) -> (r: Result<Multiaddr, String>)
    ensures
        r is Ok <==> multiaddr_accepts(s@),
        (s@.len() > 0 && s@[0] != '/') ==> r is Err,
{
    match <Multiaddr as std::str::FromStr>::from_str(s) {
        Ok(a) => Ok(a),
        Err(e) => Err(e.to_string()),
    }
}

/// Reads an address given on the command line: one leading backslash is
/// dropped, and the rest must be a multiaddr.
pub fn parse_and_transform_multiaddr(s: &str) -> (r: Result<Multiaddr, String>)
    ensures
        r is Ok <==> multiaddr_accepts(unescaped(s@)),
        (unescaped(s@).len() > 0 && unescaped(s@)[0] != '/') ==> r is Err,
{
    let n = s.unicode_len();
    if n > 0 && s.get_char(0) == '\\' {
        let rest = s.substring_char(1, n);
        assert(rest@ =~= unescaped(s@));
        parse_multiaddr(rest)
    } else {
        parse_multiaddr(s)
    }
}

} // verus!
