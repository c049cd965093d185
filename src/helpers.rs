use vstd::prelude::*;

verus! {

/// The big-endian value of two bytes.
pub open spec fn be_u16(hi: u8, lo: u8) -> u16 {
    (hi as int * 256 + lo as int) as u16
}

/// The big-endian value of four bytes.
pub open spec fn be_u32(b0: u8, b1: u8, b2: u8, b3: u8) -> u32 {
    (b0 as int * 0x1000000 + b1 as int * 0x10000 + b2 as int * 0x100 + b3 as int) as u32
}

/// The two big-endian bytes of `v`.
pub open spec fn u16_bytes(v: u16) -> Seq<u8> {
    seq![(v / 256) as u8, (v % 256) as u8]
}

/// The four big-endian bytes of `v`.
pub open spec fn u32_bytes(v: u32) -> Seq<u8> {
    seq![
        (v / 0x1000000) as u8,
        ((v / 0x10000) % 256) as u8,
        ((v / 0x100) % 256) as u8,
        (v % 256) as u8,
    ]
}

/// The value of the first two bytes of `s`, read big-endian.
pub open spec fn head_u16(s: Seq<u8>) -> u16
    recommends
        s.len() >= 2,
{
    be_u16(s[0], s[1])
}

/// Hands out the next index for a loaded module and advances the counter.
pub fn get_sm_index(counter: &mut u16) -> (r: u16)
    requires
        *old(counter) < u16::MAX,
    ensures
        r == *old(counter),
        *final(counter) == *old(counter) + 1,
{
    let new = *counter;
    *counter = new + 1;
    new
}

/// Reads a big-endian `u16` from the first two bytes of `buf`.
pub fn bytes_to_u16(buf: &[u8]) -> (r: u16)
    requires
        buf@.len() >= 2,
    ensures
        r == head_u16(buf@),
{
    (buf[0] as u16) * 256 + (buf[1] as u16)
}

/// Reads a big-endian `u32` from the first four bytes of `buf`.
pub fn bytes_to_u32(buf: &[u8]) -> (r: u32)
    requires
        buf@.len() >= 4,
    ensures
        r == be_u32(buf@[0], buf@[1], buf@[2], buf@[3]),
{
    (buf[0] as u32) * 0x1000000 + (buf[1] as u32) * 0x10000 + (buf[2] as u32) * 0x100 + (buf[3] as u32)
}

/// The two big-endian bytes of `v`.
pub fn u16_to_bytes(v: u16) -> (r: [u8; 2])
    ensures
        r@ == u16_bytes(v),
{
    let r: [u8; 2] = [(v / 256) as u8, (v % 256) as u8];
    assert(r@ =~= u16_bytes(v));
    r
}

/// The four big-endian bytes of `v`.
pub fn u32_to_bytes(v: u32) -> (r: [u8; 4])
    ensures
        r@ == u32_bytes(v),
{
    let r: [u8; 4] = [(v / 0x1000000) as u8, ((v / 0x10000) % 256) as u8, ((v / 0x100) % 256) as u8, (v % 256) as u8];
    assert(r@ =~= u32_bytes(v));
    r
}

/// Why four bytes could not be read as an IPv4 address.
#[derive(Clone, Copy, Debug, PartialEq, Eq, Structural)]
pub enum AddressError {
    InvalidLength,
}

impl AddressError {
    pub fn message(&self) -> (r: &'static str) {
        "Data len not valid"
    }
}

/// Reads an IPv4 address, octets in network order, from exactly four bytes.
pub fn data_to_ipv4(data: &[u8]) -> (r: Result<[u8; 4], AddressError>)
    ensures
        data@.len() != 4 <==> r is Err,
        r matches Ok(ip) ==> ip@ == data@,
{
    if data.len() != 4 {
        Err(AddressError::InvalidLength)
    } else {
        let ip: [u8; 4] = [data[0], data[1], data[2], data[3]];
        assert(ip@ =~= data@);
        Ok(ip)
    }
}

} // verus!
