//! What `socket` and `accept4` do and result in.
use vstd::prelude::*;

use crate::addr::SocketAddr;
use crate::dialogue::{outcome, requests, FileRef, Request, Step};
use crate::errno::NetError;
use crate::kinds::{Domain, SocketType};
use crate::syscall::open::{can_be_made, socket_begins, Accept4, Accept4World, OpenWorld};

verus! {

/// Law: `socket` makes a socket of the family that its first argument numbers and of
/// the type that the low eight bits of its second number, whatever the other bits are.
/// The socket is told not to block if and only if bit eleven is set, is put behind the
/// free descriptor, which is the result, and is marked to be closed when another
/// program is executed if and only if bit nineteen is set. Where no descriptor is
/// free, the result is -24.
pub proof fn socket_makes_its_type(
    domain: Domain,
    socket_type: SocketType,
    s_type: usize,
    world: OpenWorld,
)
    requires
        s_type & 0xff == socket_type.number(),
    ensures
        ({
            let step = socket_begins(domain.number(), s_type);
            let asked = world.requests(step);
            let blocks = s_type & 0x800 == 0;
            let open = seq![Request::Open(domain, socket_type)];
            let allocating = if blocks {
                open + seq![Request::AllocateDescriptor]
            } else {
                open + seq![Request::MakeNonblocking, Request::AllocateDescriptor]
            };
            &&& asked.first() == Request::Open(domain, socket_type)
            &&& match world.free {
                Some(fd) => {
                    &&& asked == allocating + seq![Request::Install(fd, s_type & 0x80000 != 0)]
                    &&& world.result(step) == fd as isize
                    &&& fd <= isize::MAX ==> world.result(step) == fd
                },
                None => asked == allocating && world.result(step) == -24,
            }
        }),
{
    reveal_with_fuel(outcome, 6);
    reveal_with_fuel(requests, 6);
}

/// Law: two calls of `socket` whose second arguments agree in the low eight bits, and
/// whose first agree, make the same socket.
pub proof fn socket_flags_keep_the_type(domain: usize, a: usize, b: usize, world: OpenWorld)
    requires
        a & 0xff == b & 0xff,
    ensures
        world.requests(socket_begins(domain, a)).len() > 0 <==> world.requests(
            socket_begins(domain, b),
        ).len() > 0,
        world.requests(socket_begins(domain, a)).len() > 0 ==> world.requests(
            socket_begins(domain, a),
        ).first() == world.requests(socket_begins(domain, b)).first(),
{
    reveal_with_fuel(requests, 6);
}

/// Law: `socket` makes nothing and results in -97 where its first argument is neither
/// one nor two, and in -22 where the low eight bits of its second are none of one to
/// six and ten. It cannot be called with a known family and the types three, four, six
/// and ten, and can be called with everything else.
pub proof fn socket_refuses_numbers(domain: usize, s_type: usize, world: OpenWorld)
    ensures
        ({
            let step = socket_begins(domain, s_type);
            let bits = s_type & 0xff;
            let family = domain == 1 || domain == 2;
            let known = 1 <= bits <= 6 || bits == 10;
            &&& !family ==> world.requests(step).len() == 0 && world.result(step) == -97
            &&& family && !known ==> world.requests(step).len() == 0 && world.result(step) == -22
            &&& can_be_made(domain, s_type) <==> !(family && (bits == 3 || bits == 4 || bits == 6
                || bits == 10))
        }),
{
    reveal_with_fuel(outcome, 6);
    reveal_with_fuel(requests, 6);
}

/// Law: `accept4` results in -9 on no file, in -88 on one that is no socket, and in
/// -95, -4 or -11 where accepting is not supported, was interrupted or would block; in
/// -1 where it fails otherwise; in -24 where no descriptor is free; and in the free
/// descriptor where there is one.
pub proof fn accept4_results(
    fd: usize,
    addr_buf: usize,
    addr_len: usize,
    flags: usize,
    world: Accept4World,
)
    ensures
        ({
            let result = world.result(
                Step::<Accept4, isize>::Ask(Accept4::LookingUp { fd, addr_buf, addr_len, flags }),
            );
            match (world.file, world.accepted, world.free) {
                (FileRef::Missing, _, _) => result == -9,
                (FileRef::NotSocket, _, _) => result == -88,
                (FileRef::Socket(_), Err(NetError::Unsupported), _) => result == -95,
                (FileRef::Socket(_), Err(NetError::Interrupted), _) => result == -4,
                (FileRef::Socket(_), Err(NetError::WouldBlock), _) => result == -11,
                (FileRef::Socket(_), Err(_), _) => result == -1,
                (FileRef::Socket(_), Ok(_), None) => result == -24,
                (FileRef::Socket(_), Ok(_), Some(new_fd)) => result == new_fd as isize && (new_fd
                    <= isize::MAX ==> result == new_fd),
            }
        }),
{
    reveal_with_fuel(outcome, 8);
}

/// Law: `accept4` accepts once, on a socket; writes the address of the peer that was
/// accepted, to the place that it was told; then takes a descriptor; and puts the new
/// socket behind it, told not to block if and only if bit eleven of the flags is set,
/// and marked to be closed when another program is executed if and only if bit nineteen
/// is.
pub proof fn accept4_asks(
    fd: usize,
    addr_buf: usize,
    addr_len: usize,
    flags: usize,
    world: Accept4World,
    peer: SocketAddr,
    new_fd: usize,
)
    ensures
        ({
            let asked = world.requests(
                Step::<Accept4, isize>::Ask(Accept4::LookingUp { fd, addr_buf, addr_len, flags }),
            );
            let accepted = seq![
                Request::LookUp(fd),
                Request::Accept,
                Request::WriteAddress(peer, addr_buf, addr_len),
                Request::AllocateDescriptor,
            ];
            let closes = flags & 0x80000 != 0;
            &&& !(world.file is Socket) ==> asked == seq![Request::LookUp(fd)]
            &&& world.file is Socket && world.accepted is Err ==> asked == seq![
                Request::LookUp(fd),
                Request::Accept,
            ]
            &&& world.file is Socket && world.accepted == Ok::<SocketAddr, NetError>(peer) ==> {
                &&& world.free is None ==> asked == accepted
                &&& world.free == Some(new_fd) && flags & 0x800 == 0 ==> asked == accepted + seq![
                    Request::Install(new_fd, closes),
                ]
                &&& world.free == Some(new_fd) && flags & 0x800 != 0 ==> asked == accepted + seq![
                    Request::MakeNonblocking,
                    Request::Install(new_fd, closes),
                ]
            }
        }),
{
    reveal_with_fuel(requests, 8);
}

} // verus!
