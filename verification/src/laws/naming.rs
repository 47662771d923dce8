//! What `bind`, `listen`, `connect`, `getsockname` and `getpeername` do and result in.
use vstd::prelude::*;

use crate::addr::SocketAddr;
use crate::dialogue::{outcome, requests, FileRef, Request, Step};
use crate::errno::NetError;
use crate::syscall::name::{
    Bind, BindWorld, Connect, ConnectWorld, GetPeerName, GetPeerNameWorld, GetSockName,
    GetSockNameWorld, Listen, ListenWorld,
};

verus! {

/// Law: `bind`, `listen` and `getsockname` result in -9 on no file and in -88 on one
/// that is no socket. On a socket they result in zero where it was bound, listens or
/// has a name, and in -1 otherwise; but `listen` results in -95 where listening is not
/// supported.
pub proof fn naming_results(
    fd: usize,
    addr: usize,
    addr_len: usize,
    bind: BindWorld,
    listen: ListenWorld,
    name: GetSockNameWorld,
)
    ensures
        ({
            let bound = bind.result(Step::<Bind, isize>::Ask(Bind::LookingUp { fd, addr }));
            let listens = listen.result(Step::<Listen, isize>::Ask(Listen::LookingUp { fd }));
            let named = name.result(
                Step::<GetSockName, isize>::Ask(GetSockName::LookingUp { fd, addr, addr_len }),
            );
            &&& bind.file is Missing ==> bound == -9
            &&& bind.file is NotSocket ==> bound == -88
            &&& bind.file is Socket && bind.bound is Ok ==> bound == 0
            &&& bind.file is Socket && bind.bound is Err ==> bound == -1
            &&& listen.file is Missing ==> listens == -9
            &&& listen.file is NotSocket ==> listens == -88
            &&& listen.file is Socket && listen.listening is Ok ==> listens == 0
            &&& listen.file is Socket ==> (listen.listening matches Err(error) ==> listens == if
                error == NetError::Unsupported {
                -95int
            } else {
                -1int
            })
            &&& name.file is Missing ==> named == -9
            &&& name.file is NotSocket ==> named == -88
            &&& name.file is Socket && name.name is Ok ==> named == 0
            &&& name.file is Socket && name.name is Err ==> named == -1
        }),
{
    reveal_with_fuel(outcome, 5);
}

/// Law: `bind`, `listen`, `connect` and `getsockname` look up the descriptor that they
/// were told, first. On a socket they then read the address that lies where they were
/// told, and hand that address and no other on; or write the name that the socket has,
/// to the place that they were told.
pub proof fn naming_asks(
    fd: usize,
    addr: usize,
    addr_len: usize,
    bind: BindWorld,
    listen: ListenWorld,
    connect: ConnectWorld,
    name: GetSockNameWorld,
    own: SocketAddr,
)
    ensures
        ({
            let binding = bind.requests(Step::<Bind, isize>::Ask(Bind::LookingUp { fd, addr }));
            let listening = listen.requests(Step::<Listen, isize>::Ask(Listen::LookingUp { fd }));
            let connecting = connect.requests(
                Step::<Connect, isize>::Ask(Connect::LookingUp { fd, addr_buf: addr }),
            );
            let naming = name.requests(
                Step::<GetSockName, isize>::Ask(GetSockName::LookingUp { fd, addr, addr_len }),
            );
            let alone = seq![Request::LookUp(fd)];
            &&& bind.file is Missing ==> binding == alone
            &&& bind.file is NotSocket ==> binding == alone.push(Request::ReadAddress(addr))
            &&& bind.file is Socket ==> binding == alone.push(Request::ReadAddress(addr)).push(
                Request::Bind(bind.addr),
            )
            &&& !(listen.file is Socket) ==> listening == alone
            &&& listen.file is Socket ==> listening == alone.push(Request::Listen)
            &&& !(connect.file is Socket) ==> connecting == alone
            &&& connect.file is Socket ==> connecting == alone.push(
                Request::ReadAddress(addr),
            ).push(Request::Connect(connect.addr))
            &&& !(name.file is Socket) ==> naming == alone
            &&& name.file is Socket && name.name is Err ==> naming == alone.push(Request::Name)
            &&& name.file is Socket && name.name == Ok::<SocketAddr, NetError>(own) ==> naming
                == alone.push(Request::Name).push(Request::WriteAddress(own, addr, addr_len))
        }),
{
    reveal_with_fuel(requests, 5);
}

/// Law: `connect` results in -9 on no file and in -88 on one that is no socket. On a
/// socket it results in zero where it is connected, in -115 where that would block, in
/// -4 where it was interrupted, in -106 where it already is, and in -1 otherwise.
pub proof fn connect_results(fd: usize, addr_buf: usize, world: ConnectWorld)
    ensures
        ({
            let result = world.result(
                Step::<Connect, isize>::Ask(Connect::LookingUp { fd, addr_buf }),
            );
            match (world.file, world.connected) {
                (FileRef::Missing, _) => result == -9,
                (FileRef::NotSocket, _) => result == -88,
                (FileRef::Socket(_), Ok(_)) => result == 0,
                (FileRef::Socket(_), Err(NetError::WouldBlock)) => result == -115,
                (FileRef::Socket(_), Err(NetError::Interrupted)) => result == -4,
                (FileRef::Socket(_), Err(NetError::AlreadyExists)) => result == -106,
                (FileRef::Socket(_), Err(_)) => result == -1,
            }
        }),
{
    reveal_with_fuel(outcome, 5);
}

/// Law: `getpeername` results in -9 on no file, and otherwise in -14 where the room or
/// the memory for the address cannot be used, in -22 where the room is two to the 31st
/// or more, in -88 on a file that is no socket, in -107 on a socket without a peer, and
/// in zero on one with a peer, whichever of these is found first. It asks for no more
/// than it takes to find it, in this order.
pub proof fn getpeername_results(
    fd: usize,
    addr_buf: usize,
    addr_len: usize,
    world: GetPeerNameWorld,
)
    ensures
        ({
            let step = Step::<GetPeerName, isize>::Ask(
                GetPeerName::LookingUp { fd, addr_buf, addr_len },
            );
            let result = world.result(step);
            let asked = world.requests(step);
            let all = seq![
                Request::LookUp(fd),
                Request::CheckWord(addr_len),
                Request::ReadWord(addr_len),
                Request::CheckRange(addr_buf, addr_buf.wrapping_add(world.room as usize)),
                Request::PeerName,
            ];
            if world.file is Missing {
                result == -9 && asked == all.take(1)
            } else if !world.len_usable {
                result == -14 && asked == all.take(2)
            } else if world.room >= 0x8000_0000 {
                result == -22 && asked == all.take(3)
            } else if !world.addr_usable {
                result == -14 && asked == all.take(4)
            } else if world.file is NotSocket {
                result == -88 && asked == all.take(4)
            } else {
                match world.peer {
                    None => result == -107 && asked == all,
                    Some(peer) => result == 0 && asked == all.push(
                        Request::WriteAddress(peer, addr_buf, addr_len),
                    ),
                }
            }
        }),
{
    reveal_with_fuel(outcome, 8);
    reveal_with_fuel(requests, 8);
}

} // verus!
