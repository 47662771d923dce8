//! Internet socket addresses, and the form that they have in a program's memory.
//!
//! Only IPv4 has such a form here. It is eight bytes:
//! the address family (two bytes, in the machine's byte order),
//! the port (two bytes, the most significant first) and
//! the host address (four bytes, the most significant first).
use vstd::prelude::*;

use crate::bytes::{decode, encode, ByteOrder};
use crate::errno::NetError;
use crate::kinds::{Domain, UnknownNumber};

verus! {

/// An IPv4 host address: its four octets, the most significant first.
#[derive(Clone, Copy, PartialEq, Eq, Structural, Debug)]
pub struct IpAddr(pub u8, pub u8, pub u8, pub u8);

impl IpAddr {
    /// The octets in the order in which they are sent.
    pub open spec fn octets(self) -> Seq<u8> {
        seq![self.0, self.1, self.2, self.3]
    }
}

/// The address of one end of a connection.
#[derive(Clone, Copy, PartialEq, Eq, Structural, Debug)]
pub struct SocketAddr {
    pub addr: IpAddr,
    pub port: u16,
}

/// The address that stands for every host address of the machine and a port
/// that the network stack chooses.
pub open spec fn any_address() -> SocketAddr {
    SocketAddr { addr: IpAddr(0, 0, 0, 0), port: 0 }
}

/// The length of an address in a program's memory.
pub const ADDRESS_LEN: u32 = 8;

/// The eight bytes that stand for `addr` in a program's memory.
pub open spec fn address_bytes(order: ByteOrder, addr: SocketAddr) -> Seq<u8> {
    crate::bytes::bytes_of(order, Domain::AF_INET.number() as nat, 2) + crate::bytes::bytes_of(
        ByteOrder::Big,
        addr.port as nat,
        2,
    ) + addr.addr.octets()
}

/// The number of the address family that the first two of `bytes` hold.
pub open spec fn family_number(order: ByteOrder, bytes: Seq<u8>) -> usize {
    crate::bytes::value_of(order, bytes.take(2)) as usize
}

/// The address that `bytes` hold behind their address family.
pub open spec fn address_in(bytes: Seq<u8>) -> SocketAddr {
    SocketAddr {
        addr: IpAddr(bytes[4], bytes[5], bytes[6], bytes[7]),
        port: crate::bytes::value_of(ByteOrder::Big, bytes.subrange(2, 4)) as u16,
    }
}

/// How many bytes of an address are written where `room` bytes may be.
pub open spec fn written_len(room: u32) -> nat {
    if room < ADDRESS_LEN {
        room as nat
    } else {
        ADDRESS_LEN as nat
    }
}

/// `before` with its first bytes replaced by `new`.
pub open spec fn overwritten(before: Seq<u8>, new: Seq<u8>) -> Seq<u8> {
    new + before.skip(new.len() as int)
}

/// The address that stands for every host address of the machine and a port
/// that the network stack chooses.
pub fn unspecified_address() -> (addr: SocketAddr)
    ensures
        addr == any_address(),
{
    SocketAddr { addr: IpAddr(0, 0, 0, 0), port: 0 }
}

/// The address family that the first two of `bytes` name.
pub fn address_family(order: ByteOrder, bytes: &[u8]) -> (family: Result<Domain, UnknownNumber>)
    requires
        bytes@.len() >= 2,
    ensures
        match Domain::of_number(family_number(order, bytes@)) {
            Some(domain) => family == Ok::<Domain, UnknownNumber>(domain),
            None => family == Err::<Domain, UnknownNumber>(
                UnknownNumber { number: family_number(order, bytes@) },
            ),
        },
{
    let number: u64 = decode(order, vstd::slice::slice_subrange(bytes, 0, 2));
    proof {
        reveal_with_fuel(crate::bytes::radix, 3);
        assert(bytes@.subrange(0, 2) =~= bytes@.take(2));
    }
    Domain::try_from(number as usize)
}

/// Reads a socket address. Only addresses of the family `AF_INET` can be read:
/// [`address_family`] tells whether one can.
pub fn socket_address_from(order: ByteOrder, bytes: &[u8]) -> (addr: SocketAddr)
    requires
        bytes@.len() >= ADDRESS_LEN,
        Domain::of_number(family_number(order, bytes@)) == Some(Domain::AF_INET),
    ensures
        addr == address_in(bytes@),
        addr.addr == IpAddr(bytes@[4], bytes@[5], bytes@[6], bytes@[7]),
        addr.port == 256 * bytes@[2] + bytes@[3],
{
    let port: u64 = decode(ByteOrder::Big, vstd::slice::slice_subrange(bytes, 2, 4));
    proof {
        reveal_with_fuel(crate::bytes::radix, 3);
        address_is_read_in_place(bytes@);
    }
    SocketAddr { addr: IpAddr(bytes[4], bytes[5], bytes[6], bytes[7]), port: port as u16 }
}

/// Writes `addr` to the start of `buf`, as far as the `buf_len` bytes that the
/// caller has for it go, and sets `buf_len` to the length of a whole address.
pub fn socket_address_to(
    order: ByteOrder,
    addr: SocketAddr,
    buf: &mut [u8],
    buf_len: &mut u32,
) -> (result: Result<(), NetError>)
    requires
        old(buf)@.len() >= written_len(*old(buf_len)),
    ensures
        result == Ok::<(), NetError>(()),
        *final(buf_len) == ADDRESS_LEN,
        final(buf)@ == overwritten(
            old(buf)@,
            address_bytes(order, addr).take(written_len(*old(buf_len)) as int),
        ),
        final(buf)@.len() == old(buf)@.len(),
        forall|i: int|
            0 <= i < old(buf)@.len() && (i >= *old(buf_len) || i >= 8) ==> #[trigger] final(buf)@[i]
                == old(buf)@[i],
        *old(buf_len) > 0 ==> final(buf)@[0] == if order == ByteOrder::Little {
            2int
        } else {
            0int
        },
        *old(buf_len) > 1 ==> final(buf)@[1] == if order == ByteOrder::Little {
            0int
        } else {
            2int
        },
        *old(buf_len) > 2 ==> final(buf)@[2] == addr.port as int / 256,
        *old(buf_len) > 3 ==> final(buf)@[3] == addr.port as int % 256,
        *old(buf_len) > 4 ==> final(buf)@[4] == addr.addr.0,
        *old(buf_len) > 5 ==> final(buf)@[5] == addr.addr.1,
        *old(buf_len) > 6 ==> final(buf)@[6] == addr.addr.2,
        *old(buf_len) > 7 ==> final(buf)@[7] == addr.addr.3,
{
    let room: u32 = *buf_len;
    *buf_len = ADDRESS_LEN;
    let family: Vec<u8> = encode(order, 2, 2);
    let port: Vec<u8> = encode(ByteOrder::Big, addr.port as u64, 2);
    let bytes: [u8; 8] = [
        family[0],
        family[1],
        port[0],
        port[1],
        addr.addr.0,
        addr.addr.1,
        addr.addr.2,
        addr.addr.3,
    ];
    assert(bytes@ =~= address_bytes(order, addr));
    let len: usize = if room < ADDRESS_LEN {
        room as usize
    } else {
        ADDRESS_LEN as usize
    };
    let mut i: usize = 0;
    while i < len
        invariant
            i <= len,
            len == written_len(room),
            len <= bytes@.len(),
            len <= old(buf)@.len(),
            buf@ =~= overwritten(old(buf)@, bytes@.take(i as int)),
        decreases len - i,
    {
        buf[i] = bytes[i];
        i = i + 1;
    }
    proof {
        address_is_written_in_place(order, addr);
    }
    Ok(())
}

/// Law: bytes hold the octets of an address from the fifth byte on, in their order,
/// and its port in the third byte and the fourth, the higher half first. The family
/// is in the first two, in the byte order of the machine.
pub proof fn address_is_read_in_place(bytes: Seq<u8>)
    requires
        bytes.len() >= 8,
    ensures
        address_in(bytes).addr.0 == bytes[4],
        address_in(bytes).addr.1 == bytes[5],
        address_in(bytes).addr.2 == bytes[6],
        address_in(bytes).addr.3 == bytes[7],
        address_in(bytes).port == 256 * bytes[2] + bytes[3],
        family_number(ByteOrder::Little, bytes) == bytes[0] + 256 * bytes[1],
        family_number(ByteOrder::Big, bytes) == 256 * bytes[0] + bytes[1],
{
    crate::bytes::value_is_weighed(ByteOrder::Big, bytes[2], bytes[3], 0, 0);
    crate::bytes::value_is_weighed(ByteOrder::Little, bytes[0], bytes[1], 0, 0);
    crate::bytes::value_is_weighed(ByteOrder::Big, bytes[0], bytes[1], 0, 0);
    assert(bytes.subrange(2, 4) =~= seq![bytes[2], bytes[3]]);
    assert(bytes.take(2) =~= seq![bytes[0], bytes[1]]);
}

/// Law: an address is written as its family, two, in the byte order of the machine;
/// its port, the higher half first; and its octets, in their order.
pub proof fn address_is_written_in_place(order: ByteOrder, addr: SocketAddr)
    ensures
        ({
            let bytes = address_bytes(order, addr);
            &&& bytes.len() == 8
            &&& order == ByteOrder::Little ==> bytes[0] == 2 && bytes[1] == 0
            &&& order == ByteOrder::Big ==> bytes[0] == 0 && bytes[1] == 2
            &&& 256 * bytes[2] + bytes[3] == addr.port
            &&& bytes[4] == addr.addr.0
            &&& bytes[5] == addr.addr.1
            &&& bytes[6] == addr.addr.2
            &&& bytes[7] == addr.addr.3
        }),
{
    address_round_trip(order, addr);
    let bytes = address_bytes(order, addr);
    address_is_read_in_place(bytes);
}

/// Law: of an address that is written to `before`, as far as `room` bytes go, each
/// byte is the one that belongs at its place, and every other byte stays.
pub proof fn address_is_written_as_far_as_it_goes(
    order: ByteOrder,
    addr: SocketAddr,
    before: Seq<u8>,
    room: u32,
    i: int,
)
    requires
        0 <= i < before.len(),
        written_len(room) <= before.len(),
    ensures
        ({
            let after = overwritten(
                before,
                address_bytes(order, addr).take(written_len(room) as int),
            );
            &&& after.len() == before.len()
            &&& i >= room || i >= 8 ==> after[i] == before[i]
            &&& i < room && i == 0 ==> after[i] == if order == ByteOrder::Little {
                2int
            } else {
                0int
            }
            &&& i < room && i == 1 ==> after[i] == if order == ByteOrder::Little {
                0int
            } else {
                2int
            }
            &&& i < room && i == 2 ==> after[i] == addr.port as int / 256
            &&& i < room && i == 3 ==> after[i] == addr.port as int % 256
            &&& i < room && i == 4 ==> after[i] == addr.addr.0
            &&& i < room && i == 5 ==> after[i] == addr.addr.1
            &&& i < room && i == 6 ==> after[i] == addr.addr.2
            &&& i < room && i == 7 ==> after[i] == addr.addr.3
        }),
{
    address_is_written_in_place(order, addr);
}

/// Law: an address that was written where there was room for all of it is read
/// back as it was written.
pub proof fn address_round_trip(order: ByteOrder, addr: SocketAddr)
    ensures
        address_bytes(order, addr).len() == ADDRESS_LEN,
        Domain::of_number(family_number(order, address_bytes(order, addr))) == Some(
            Domain::AF_INET,
        ),
        address_in(address_bytes(order, addr)) == addr,
{
    reveal_with_fuel(crate::bytes::radix, 3);
    crate::bytes::number_round_trip(order, 2, 2);
    crate::bytes::number_round_trip(ByteOrder::Big, addr.port as nat, 2);
    let bytes = address_bytes(order, addr);
    assert(bytes.take(2) =~= crate::bytes::bytes_of(order, 2, 2));
    assert(bytes.subrange(2, 4) =~= crate::bytes::bytes_of(ByteOrder::Big, addr.port as nat, 2));
}

/// Law: the bytes of an IPv4 address are what writing the address that they hold
/// gives.
pub proof fn address_bytes_round_trip(order: ByteOrder, bytes: Seq<u8>)
    requires
        bytes.len() == ADDRESS_LEN,
        Domain::of_number(family_number(order, bytes)) == Some(Domain::AF_INET),
    ensures
        address_bytes(order, address_in(bytes)) == bytes,
{
    reveal_with_fuel(crate::bytes::radix, 3);
    crate::bytes::bytes_round_trip(order, bytes.take(2));
    crate::bytes::bytes_round_trip(ByteOrder::Big, bytes.subrange(2, 4));
    assert(address_bytes(order, address_in(bytes)) =~= bytes);
}

/// Law: writing an address changes nothing behind the bytes that the caller has
/// for it, and nothing behind a whole address.
pub proof fn address_stays_in_its_room(
    order: ByteOrder,
    addr: SocketAddr,
    before: Seq<u8>,
    room: u32,
    i: int,
)
    requires
        written_len(room) <= i < before.len(),
    ensures
        ({
            let new = overwritten(
                before,
                address_bytes(order, addr).take(written_len(room) as int),
            );
            new.len() == before.len() && new[i] == before[i]
        }),
{
    address_round_trip(order, addr);
}

} // verus!
