use vstd::prelude::*;

use rand::Rng;

verus! {

/// An IP address held as its bits: 32 of them for IPv4, 128 for IPv6.
#[derive(Clone, Copy, PartialEq, Eq, Structural, Debug)]
pub enum IpAddress {
    V4(u32),
    V6(u128),
}

/// An IP address and a port.
#[derive(Clone, Copy, PartialEq, Eq, Structural, Debug)]
pub struct SocketAddress {
    pub ip: IpAddress,
    pub port: u16,
}

/// Lowest port that is handed to a worker.
pub const PORT_RANGE_START: u16 = 1024;

/// Highest port that is handed to a worker.
pub const PORT_RANGE_END: u16 = 49151;

/// Ports that browsers refuse to talk to; a worker is never placed on one of them.
pub open spec fn spec_is_unsafe_port(port: u16) -> bool {
    port == 1 || port == 7 || port == 9 || port == 11 || port == 13 || port == 15 || port == 17
        || port == 19 || port == 20 || port == 21 || port == 22 || port == 23 || port == 25
        || port == 37 || port == 42 || port == 43 || port == 53 || port == 77 || port == 79
        || port == 87 || port == 95 || port == 101 || port == 102 || port == 103 || port == 104
        || port == 109 || port == 110 || port == 111 || port == 113 || port == 115 || port == 117
        || port == 119 || port == 123 || port == 135 || port == 139 || port == 143 || port == 179
        || port == 389 || port == 427 || port == 465 || port == 512 || port == 513 || port == 514
        || port == 515 || port == 526 || port == 530 || port == 531 || port == 532 || port == 540
        || port == 548 || port == 556 || port == 563 || port == 587 || port == 601 || port == 636
        || port == 993 || port == 995 || port == 2049 || port == 3659 || port == 4045
        || port == 6000 || port == 6665 || port == 6666 || port == 6667 || port == 6668
        || port == 6669 || port == 6697
}

/// Whether `port` is one of the ports that must not be used for a worker.
pub fn is_unsafe_port(port: u16) -> (r: bool)
    ensures
        r == spec_is_unsafe_port(port),
{
    match port {
        1 | 7 | 9 | 11 | 13 | 15 | 17 | 19 | 20 | 21 | 22 | 23 | 25 | 37 | 42 | 43 | 53 | 77 | 79
        | 87 | 95 | 101 | 102 | 103 | 104 | 109 | 110 | 111 | 113 | 115 | 117 | 119 | 123 | 135
        | 139 | 143 | 179 | 389 | 427 | 465 | 512 | 513 | 514 | 515 | 526 | 530 | 531 | 532 | 540
        | 548 | 556 | 563 | 587 | 601 | 636 | 993 | 995 | 2049 | 3659 | 4045 | 6000 | 6665 | 6666
        | 6667 | 6668 | 6669 | 6697 => true,
        _ => false,
    }
}

/// Calls `rand::rng().random_range(PORT_RANGE_START..=PORT_RANGE_END)`.
/// The contract claims what the crate documents for an inclusive range:
/// the port lies in it. Which port comes out is left open.
#[verifier::external_body]
fn random_port() -> (port: u16)
    ensures
        PORT_RANGE_START <= port <= PORT_RANGE_END,
{
    rand::rng().random_range(PORT_RANGE_START..=PORT_RANGE_END)
}

/// The port to try for a worker after `drawn` was drawn: `None` for a
/// port that must not be used, so that another is drawn.
pub fn port_candidate(drawn: u16) -> (r: Option<u16>)
    ensures
        r == (if spec_is_unsafe_port(drawn) {
            None
        } else {
            Some(drawn)
        }),
{
    if is_unsafe_port(drawn) {
        None
    } else {
        Some(drawn)
    }
}

/// Draws a port for a worker at random from the range handed to workers:
/// `None` where the draw hit a port that must not be used, so that the
/// caller draws again.
pub fn candidate_port() -> (r: Option<u16>)
    ensures
        r matches Some(p) ==> PORT_RANGE_START <= p <= PORT_RANGE_END && !spec_is_unsafe_port(p),
{
    port_candidate(random_port())
}

} // verus!
