//! The receiver of the reports that a gateway posts.

use crate::address::{IpAddr, IpSet, SocketAddr, LOOPBACK_V4};
use crate::config::Config;
use crate::registry::DeviceUpdate;
use vstd::prelude::*;

verus! {

/// The path that reports are posted to.
pub const REPORT_PATH: &'static str = "/data/report";

/// The same path as most gateways are configured with it.
pub const REPORT_PATH_SLASH: &'static str = "/data/report/";

/// The largest report that is read. Real ones have some 500 bytes.
pub const REPORT_BODY_LIMIT_BYTES: usize = 8 * 1024;

/// The status of a report that was taken, with or without sensor data.
pub const STATUS_OK: u16 = 200;

/// The status of a report from a source that may not report.
pub const STATUS_FORBIDDEN: u16 = 403;

/// What the receiver goes by.
#[derive(Debug)]
pub struct SharedState {
    pub device_prefix: String,
    /// The only sources that may report. Empty accepts any.
    pub allowed_source_ips: IpSet,
}

/// What becomes of a report before it is read.
#[derive(Debug, Clone, Copy, PartialEq, Eq, Structural)]
pub enum Admission {
    /// It is answered with a status and not read.
    Respond(u16),
    /// Its fields are decoded into updates.
    Decode,
}

/// What becomes of a report whose fields have been decoded.
#[derive(Debug, PartialEq, Eq)]
pub enum Decoded {
    /// It is answered with a status.
    Respond(u16),
    /// Its updates are processed, and then it is answered with a status.
    Process { updates: Vec<DeviceUpdate>, status: u16 },
}

/// Whether an allowlist admits a peer.
pub open spec fn admits(allowed: Set<IpAddr>, peer: IpAddr) -> bool {
    allowed == Set::<IpAddr>::empty() || allowed.contains(peer)
}

/// Whether a peer may report. An empty allowlist accepts everything.
pub fn ip_allowed(allowed: &IpSet, peer: IpAddr) -> (permitted: bool)
    ensures
        permitted == admits(allowed@, peer),
{
    allowed.is_empty() || allowed.contains(&peer)
}

/// Decides about a report by the address that it comes from.
pub fn handle_report(state: &SharedState, peer: IpAddr) -> (admission: Admission)
    ensures
        admission == (if admits(state.allowed_source_ips@, peer) {
            Admission::Decode
        } else {
            Admission::Respond(STATUS_FORBIDDEN)
        }),
        admission == Admission::Respond(403) <==> (exists|ip: IpAddr| #[trigger]
            state.allowed_source_ips@.contains(ip)) && !state.allowed_source_ips@.contains(peer),
        admission == Admission::Decode || admission == Admission::Respond(403),
{
    proof {
        an_allowlist_refuses_whom_it_does_not_list(state.allowed_source_ips@, peer);
    }
    if !ip_allowed(&state.allowed_source_ips, peer) {
        Admission::Respond(STATUS_FORBIDDEN)
    } else {
        Admission::Decode
    }
}

/// Decides about an admitted report by the updates that it holds. One without sensor data is
/// taken, and nothing is done with it.
pub fn report_decoded(updates: Vec<DeviceUpdate>) -> (decoded: Decoded)
    ensures
        if updates@.len() == 0 {
            decoded == Decoded::Respond(STATUS_OK)
        } else {
            decoded == (Decoded::Process { updates, status: STATUS_OK })
        },
        decoded matches Decoded::Respond(status) ==> status == 200,
        decoded matches Decoded::Process { status, .. } ==> status == 200,
{
    if updates.len() == 0 {
        Decoded::Respond(STATUS_OK)
    } else {
        Decoded::Process { updates, status: STATUS_OK }
    }
}

/// The address that the receiver listens on, given what the configured one was read as. One that
/// cannot be read falls back to loopback.
pub fn bind_address(configured: Option<IpAddr>, port: u16) -> (address: SocketAddr)
    ensures
        address.port == port,
        address.ip == (match configured {
            Some(ip) => ip,
            None => IpAddr::V4(LOOPBACK_V4),
        }),
        configured is None ==> address.ip == IpAddr::V4(0x7f00_0001),
{
    let ip = match configured {
        Some(ip) => ip,
        None => IpAddr::V4(LOOPBACK_V4),
    };
    SocketAddr { ip, port }
}

/// The addresses of a list that could all be read.
pub open spec fn addresses(entries: Seq<Option<IpAddr>>) -> Set<IpAddr> {
    Set::new(|ip: IpAddr| entries.contains(Some(ip)))
}

/// The allowlist of a configuration, given what each of its entries was read as. An entry that
/// cannot be read gives its place instead of a list: leaving it out could leave the receiver open
/// to every source.
pub fn allowlist(entries: &Vec<Option<IpAddr>>) -> (list: Result<IpSet, usize>)
    ensures
        match list {
            Ok(set) => {
                &&& forall|i: int| 0 <= i < entries@.len() ==> (#[trigger] entries@[i]) is Some
                &&& set@ == addresses(entries@)
            },
            Err(at) => {
                &&& at < entries@.len()
                &&& entries@[at as int] is None
                &&& forall|i: int| 0 <= i < at ==> (#[trigger] entries@[i]) is Some
            },
        },
{
    let mut set = IpSet::new();
    let mut i: usize = 0;
    assert(set@ =~= addresses(entries@.take(0)));
    while i < entries.len()
        invariant
            i <= entries@.len(),
            forall|j: int| 0 <= j < i ==> (#[trigger] entries@[j]) is Some,
            set@ == addresses(entries@.take(i as int)),
        decreases entries@.len() - i,
    {
        let ghost before = set@;
        match entries[i] {
            Some(ip) => {
                set.insert(ip);
                proof {
                    let head = entries@.take(i as int);
                    let longer = entries@.take(i + 1);
                    assert(longer =~= head.push(Some(ip)));
                    assert forall|other: IpAddr| longer.contains(Some(other)) <==> (
                    head.contains(Some(other)) || other == ip) by {
                        if head.contains(Some(other)) {
                            let j = choose|j: int| 0 <= j < head.len() && head[j] == Some(other);
                            assert(longer[j] == Some(other));
                        }
                        assert(longer[i as int] == Some(ip));
                        if longer.contains(Some(other)) && other != ip {
                            let j = choose|j: int|
                                0 <= j < longer.len() && longer[j] == Some(other);
                            assert(head[j] == Some(other));
                        }
                    }
                    assert(set@ =~= addresses(longer));
                }
            },
            None => {
                return Err(i);
            },
        }
        i = i + 1;
    }
    assert(entries@.take(i as int) =~= entries@);
    Ok(set)
}

/// What the receiver goes by under a configuration, given what each entry of its allowlist was
/// read as. An entry that cannot be read gives its place instead.
pub fn shared_state(config: &Config, entries: &Vec<Option<IpAddr>>) -> (state: Result<
    SharedState,
    usize,
>)
    requires
        entries@.len() == config.ecowitt.allowed_source_ips@.len(),
    ensures
        match state {
            Ok(state) => {
                &&& forall|i: int| 0 <= i < entries@.len() ==> (#[trigger] entries@[i]) is Some
                &&& state.device_prefix@ == config.ecowitt.device_prefix@
                &&& state.allowed_source_ips@ == addresses(entries@)
            },
            Err(at) => {
                &&& at < entries@.len()
                &&& entries@[at as int] is None
                &&& forall|i: int| 0 <= i < at ==> (#[trigger] entries@[i]) is Some
            },
        },
{
    match allowlist(entries) {
        Ok(allowed_source_ips) => Ok(
            SharedState { device_prefix: config.ecowitt.device_prefix.clone(), allowed_source_ips },
        ),
        Err(at) => Err(at),
    }
}

/// An empty allowlist admits every peer.
pub proof fn an_empty_allowlist_admits_every_peer(peer: IpAddr)
    ensures
        admits(Set::<IpAddr>::empty(), peer),
{
}

/// A populated allowlist admits its members and nobody else.
pub proof fn a_populated_allowlist_admits_its_members(
    allowed: Set<IpAddr>,
    member: IpAddr,
    peer: IpAddr,
)
    requires
        allowed.contains(member),
    ensures
        admits(allowed, member),
        admits(allowed, peer) <==> allowed.contains(peer),
{
    assert(!(allowed =~= Set::<IpAddr>::empty()));
}

/// An address of one family does not cover one of the other: a list of IPv4 addresses admits no
/// IPv6 peer, and the other way round.
pub proof fn a_list_of_one_family_refuses_the_other(
    allowed: Set<IpAddr>,
    member: IpAddr,
    peer: IpAddr,
)
    requires
        allowed.contains(member),
        forall|ip: IpAddr| #[trigger] allowed.contains(ip) ==> ip is V4 == member is V4,
        peer is V4 != member is V4,
    ensures
        !admits(allowed, peer),
{
}

/// A configured allowlist without entries admits every peer. One with entries never leaves the
/// receiver open: it admits whom it lists and nobody else.
pub proof fn a_configured_allowlist_decides(entries: Seq<Option<IpAddr>>, peer: IpAddr)
    requires
        forall|i: int| 0 <= i < entries.len() ==> (#[trigger] entries[i]) is Some,
    ensures
        admits(addresses(entries), peer) <==> entries.len() == 0 || entries.contains(Some(peer)),
{
    if entries.len() == 0 {
        assert(addresses(entries) =~= Set::<IpAddr>::empty());
    } else {
        assert(entries[0] is Some);
        assert(entries.contains(Some(entries[0]->0)));
        assert(addresses(entries).contains(entries[0]->0));
    }
}

/// A peer is refused exactly if the allowlist has a member and the peer is none.
pub proof fn an_allowlist_refuses_whom_it_does_not_list(allowed: Set<IpAddr>, peer: IpAddr)
    ensures
        !admits(allowed, peer) <==> (exists|ip: IpAddr| #[trigger] allowed.contains(ip))
            && !allowed.contains(peer),
{
    if forall|ip: IpAddr| !(#[trigger] allowed.contains(ip)) {
        assert(allowed =~= Set::<IpAddr>::empty());
    }
}

/// The addresses of a configured list are its entries, each of them and no others.
pub proof fn an_allowlist_holds_its_entries(entries: Seq<Option<IpAddr>>, ip: IpAddr)
    ensures
        addresses(entries).contains(ip) <==> exists|i: int|
            0 <= i < entries.len() && (#[trigger] entries[i]) == Some(ip),
{
}

} // verus!
