use vstd::prelude::*;

verus! {

/// UDP port of the probe.
pub const PORT: u16 = 8513;

/// What the probe does once the scope is known.
#[derive(Clone, Copy, Debug, PartialEq, Eq, Structural)]
pub enum Mode {
    /// Join the group and print each datagram that arrives.
    Listen,
    /// Send one datagram to the group.
    Send,
}

/// The byte string of the `listen` mode.
pub open spec fn listen_word() -> Seq<u8> {
    seq![108u8, 105, 115, 116, 101, 110]
}

/// The byte string of the `send` mode.
pub open spec fn send_word() -> Seq<u8> {
    seq![115u8, 101, 110, 100]
}

/// Reads the mode argument. A word other than `listen` and `send` gives
/// `None`: the probe then does nothing and exits normally.
pub fn parse_mode(arg: &[u8]) -> (r: Option<Mode>)
    ensures
        r == Some(Mode::Listen) <==> arg@ == listen_word(),
        r == Some(Mode::Send) <==> arg@ == send_word(),
        r is None <==> arg@ != listen_word() && arg@ != send_word(),
{
    if arg.len() == 6 && arg[0] == 108 && arg[1] == 105 && arg[2] == 115 && arg[3] == 116
        && arg[4] == 101 && arg[5] == 110 {
        assert(arg@ =~= listen_word());
        Some(Mode::Listen)
    } else if arg.len() == 4 && arg[0] == 115 && arg[1] == 101 && arg[2] == 110 && arg[3] == 100 {
        assert(arg@ =~= send_word());
        Some(Mode::Send)
    } else {
        assert(arg@ != listen_word() && arg@ != send_word()) by {
            if arg@ == listen_word() {
                assert(arg@[0] == 108u8);
            }
            if arg@ == send_word() {
                assert(arg@[0] == 115u8);
            }
        }
        None
    }
}

/// The groups of the multicast group address `ff02::123`.
pub open spec fn group_segments() -> Seq<u16> {
    seq![0xff02u16, 0, 0, 0, 0, 0, 0, 0x0123]
}

/// The groups of the unspecified address `::`.
pub open spec fn unspecified_segments() -> Seq<u16> {
    seq![0u16, 0, 0, 0, 0, 0, 0, 0]
}

pub fn multicast_group() -> (r: [u16; 8])
    ensures
        r@ == group_segments(),
{
    let r: [u16; 8] = [0xff02, 0, 0, 0, 0, 0, 0, 0x0123];
    assert(r@ =~= group_segments());
    r
}

pub fn unspecified() -> (r: [u16; 8])
    ensures
        r@ == unspecified_segments(),
{
    let r: [u16; 8] = [0u16; 8];
    assert(r@ =~= unspecified_segments());
    r
}

/// The payload that the sender sends: the bytes `test`.
pub open spec fn payload_bytes() -> Seq<u8> {
    seq![116u8, 101, 115, 116]
}

pub fn payload() -> (r: Vec<u8>)
    ensures
        r@ == payload_bytes(),
{
    let r: Vec<u8> = vec![116u8, 101, 115, 116];
    assert(r@ =~= payload_bytes());
    r
}

/// An IPv6 socket address: the eight groups of the address, the port, the
/// flow information and the scope index.
#[derive(Clone, Copy, Debug)]
pub struct Endpoint {
    pub segments: [u16; 8],
    pub port: u16,
    pub flowinfo: u32,
    pub scope_id: u32,
}

/// Which address a listener binds: hosts differ on whether a socket that
/// joined a group receives its datagrams when bound to the group address
/// itself or only when bound to the unspecified address.
#[derive(Clone, Copy, Debug, PartialEq, Eq, Structural)]
pub enum ListenBind {
    /// Bind to the group address (Unix-like hosts).
    GroupAddress,
    /// Bind to `::` (Windows).
    AnyAddress,
}

/// The address that the listener binds, on the resolved scope.
pub fn listener_endpoint(scope: u32, bind: ListenBind) -> (r: Endpoint)
    ensures
        bind == ListenBind::GroupAddress ==> r.segments@ == group_segments(),
        bind == ListenBind::AnyAddress ==> r.segments@ == unspecified_segments(),
        r.port == PORT,
        r.flowinfo == 0,
        r.scope_id == scope,
{
    let segments = match bind {
        ListenBind::GroupAddress => multicast_group(),
        ListenBind::AnyAddress => unspecified(),
    };
    Endpoint { segments, port: PORT, flowinfo: 0, scope_id: scope }
}

/// The address that the sender binds: `::` on an ephemeral port, on the
/// resolved scope.
pub fn sender_endpoint(scope: u32) -> (r: Endpoint)
    ensures
        r.segments@ == unspecified_segments(),
        r.port == 0,
        r.flowinfo == 0,
        r.scope_id == scope,
{
    Endpoint { segments: unspecified(), port: 0, flowinfo: 0, scope_id: scope }
}

/// The address that the sender sends to: the group on the probe's port, on
/// the resolved scope.
pub fn group_endpoint(scope: u32) -> (r: Endpoint)
    ensures
        r.segments@ == group_segments(),
        r.port == PORT,
        r.flowinfo == 0,
        r.scope_id == scope,
{
    Endpoint { segments: multicast_group(), port: PORT, flowinfo: 0, scope_id: scope }
}

} // verus!
