use vstd::prelude::*;

verus! {

/// An IPv4 address, octets in network order, and a port.
#[derive(Clone, Copy, Debug, PartialEq, Eq)]
pub struct SocketAddress {
    pub ip: [u8; 4],
    pub port: u16,
}

/// The loopback address 127.0.0.1.
pub open spec fn loopback() -> Seq<u8> {
    seq![127u8, 0u8, 0u8, 1u8]
}

/// A logical edge to a target module, possibly under another manager.
#[derive(Clone, Copy, Debug)]
pub struct Connection {
    to_sm: u16,
    address: SocketAddress,
    local: bool,
}

impl Connection {
    /// The module this connection targets.
    pub closed spec fn sm(&self) -> u16 {
        self.to_sm
    }

    /// Where the manager that owns the target module listens.
    pub closed spec fn address(&self) -> SocketAddress {
        self.address
    }

    /// Whether the target module lives under this same manager.
    pub closed spec fn local(&self) -> bool {
        self.local
    }

    pub fn new(to_sm: u16, ip: [u8; 4], port: u16, local: bool) -> (r: Connection)
        ensures
            r.sm() == to_sm,
            r.address() == (SocketAddress { ip, port }),
            r.local() == local,
    {
        Connection { to_sm, address: SocketAddress { ip, port }, local }
    }

    pub fn get_sm(&self) -> (r: u16)
        ensures
            r == self.sm(),
    {
        self.to_sm
    }

    pub fn get_address(&self) -> (r: SocketAddress)
        ensures
            r == self.address(),
    {
        self.address
    }

    pub fn is_local_connection(&self) -> (r: bool)
        ensures
            r == self.local(),
    {
        self.local
    }
}

/// The address at which this host's manager serves module `sm_id`: the
/// loopback address and the base port offset by the module id, unless that
/// port would not fit in 16 bits.
pub fn sm_address(base_port: u16, sm_id: u16) -> (r: Option<SocketAddress>)
    ensures
        base_port + sm_id > u16::MAX <==> r is None,
        r matches Some(a) ==> a.ip@ == loopback() && a.port == base_port + sm_id,
{
    if sm_id > u16::MAX - base_port {
        None
    } else {
        let ip: [u8; 4] = [127, 0, 0, 1];
        assert(ip@ =~= loopback());
        Some(SocketAddress { ip, port: base_port + sm_id })
    }
}

} // verus!
