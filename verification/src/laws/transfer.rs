//! What `sendto` and `recvfrom` do and result in.
use vstd::prelude::*;

use crate::addr::{IpAddr, SocketAddr};
use crate::dialogue::{outcome, requests, FileRef, Request, Step};
use crate::errno::NetError;
use crate::net::{NetCall, SocketInner, TcpOp, UdpOp};
use crate::syscall::transfer::{RecvFrom, RecvFromWorld, SendTo, SendToWorld};

verus! {

/// Law: `sendto` results in -9 on no file, in -88 on one that is no socket, and in -14
/// where the bytes to send are nowhere, or they or the address to send to cannot be
/// used. A TCP socket results in -106 where an address is given, and in -107 where it
/// is not connected; a UDP socket in -107 where it has neither an address nor a peer.
/// Otherwise the result is the number of bytes that the network stack sent, or -4
/// where it was interrupted and -1 where it failed.
pub proof fn sendto_results(
    fd: usize,
    buf: usize,
    len: usize,
    addr: usize,
    addr_len: usize,
    world: SendToWorld,
)
    ensures
        ({
            let result = world.result(
                Step::<SendTo, isize>::Ask(SendTo::LookingUp { fd, buf, len, addr, addr_len }),
            );
            let addressed = addr != 0 && addr_len != 0;
            let tcp = world.file == FileRef::Socket(SocketInner::Tcp);
            if world.file is Missing {
                result == -9
            } else if world.file is NotSocket {
                result == -88
            } else if buf == 0 || !world.buf_usable || (addressed && !world.addr_usable) {
                result == -14
            } else if tcp && addressed {
                result == -106
            } else if tcp && !world.connected {
                result == -107
            } else if !tcp && !addressed && world.peer is Err {
                result == -107
            } else {
                match world.sent {
                    Ok(n) => result == n as isize && (n <= isize::MAX ==> result == n),
                    Err(error) => result == if error == NetError::Interrupted {
                        -4int
                    } else {
                        -1int
                    },
                }
            }
        }),
{
    reveal_with_fuel(outcome, 9);
}

/// Law: a call of `sendto` that asks for bytes to be sent results in as many as were
/// sent, whatever they were and wherever they went.
pub proof fn sendto_tells_how_many(
    fd: usize,
    buf: usize,
    len: usize,
    addr: usize,
    addr_len: usize,
    world: SendToWorld,
    n: usize,
)
    requires
        n <= isize::MAX,
        world.sent == Ok::<usize, NetError>(n),
        world.requests(
            Step::<SendTo, isize>::Ask(SendTo::LookingUp { fd, buf, len, addr, addr_len }),
        ).last() is Send,
    ensures
        world.result(
            Step::<SendTo, isize>::Ask(SendTo::LookingUp { fd, buf, len, addr, addr_len }),
        ) == n,
{
    reveal_with_fuel(outcome, 9);
    reveal_with_fuel(requests, 9);
}

/// Law: `sendto` checks the memory of all the bytes to send, then that of the address
/// to send to, if one is given, and reads it. A UDP socket that is not bound is then
/// bound to all zeros. It sends those bytes last, and only once: to the address, if one
/// is given, and to the peer otherwise. Where something keeps it from sending, it asks
/// for no more than it takes to find out.
pub proof fn sendto_asks(
    fd: usize,
    buf: usize,
    len: usize,
    addr: usize,
    addr_len: usize,
    world: SendToWorld,
)
    ensures
        ({
            let asked = world.requests(
                Step::<SendTo, isize>::Ask(SendTo::LookingUp { fd, buf, len, addr, addr_len }),
            );
            let addressed = addr != 0 && addr_len != 0;
            let found = seq![Request::LookUp(fd)];
            let checked = found.push(Request::CheckRange(buf, buf.wrapping_add(len)));
            let checked_addr = checked.push(Request::CheckRange(addr, addr.wrapping_add(addr_len)));
            let ready = if addressed {
                checked_addr.push(Request::ReadAddress(addr))
            } else {
                checked
            };
            let connecting = ready.push(Request::Net(NetCall::Tcp(TcpOp::IsConnected)));
            let asking_name = ready.push(Request::Net(NetCall::Udp(UdpOp::LocalAddr)));
            let bound = if world.local is Ok {
                asking_name
            } else {
                asking_name.push(
                    Request::Net(
                        NetCall::Udp(
                            UdpOp::Bind(SocketAddr { addr: IpAddr(0, 0, 0, 0), port: 0 }),
                        ),
                    ),
                )
            };
            let asking_peer = bound.push(Request::Net(NetCall::Udp(UdpOp::PeerAddr)));
            if !(world.file is Socket) || buf == 0 {
                asked == found
            } else if !world.buf_usable {
                asked == checked
            } else if addressed && !world.addr_usable {
                asked == checked_addr
            } else if world.file == FileRef::Socket(SocketInner::Tcp) {
                if addressed {
                    asked == ready
                } else if !world.connected {
                    asked == connecting
                } else {
                    asked == connecting.push(Request::Send(NetCall::Tcp(TcpOp::Send), buf, len))
                }
            } else if addressed {
                asked == bound.push(
                    Request::Send(NetCall::Udp(UdpOp::SendTo(world.target)), buf, len),
                )
            } else if world.peer is Err {
                asked == asking_peer
            } else {
                asked == asking_peer.push(Request::Send(NetCall::Udp(UdpOp::Send), buf, len))
            }
        }),
{
    reveal_with_fuel(requests, 9);
}

/// Law: `recvfrom` results in -9 on no file, in -88 on one that is no socket, and in
/// -14 where a place for the length of the sender's address, or one for the address, is
/// given and cannot be used. Otherwise the result is the number of bytes that were
/// received; or zero where the connection was refused, -4 where it was interrupted, -11
/// where nothing came in time or without blocking, and -1 where it failed otherwise.
pub proof fn recvfrom_results(
    fd: usize,
    buf: usize,
    len: usize,
    addr_buf: usize,
    addr_len: usize,
    world: RecvFromWorld,
)
    ensures
        ({
            let result = world.result(
                Step::<RecvFrom, isize>::Ask(
                    RecvFrom::LookingUp { fd, buf, len, addr_buf, addr_len },
                ),
            );
            if world.file is Missing {
                result == -9
            } else if world.file is NotSocket {
                result == -88
            } else if addr_len != 0 && !world.len_usable {
                result == -14
            } else if addr_len != 0 && addr_buf != 0 && !world.addr_usable {
                result == -14
            } else {
                match world.received {
                    Ok((n, _)) => result == n as isize && (n <= isize::MAX ==> result == n),
                    Err(NetError::ConnectionRefused) => result == 0,
                    Err(NetError::Interrupted) => result == -4,
                    Err(NetError::Timeout) => result == -11,
                    Err(NetError::WouldBlock) => result == -11,
                    Err(_) => result == -1,
                }
            }
        }),
{
    reveal_with_fuel(outcome, 7);
}

/// Law: `recvfrom` checks the place for the length of the sender's address, if one is
/// given, reads the length, if a place for the address is given, too, and checks as
/// much memory there. It then receives once, into the bytes that it was told. Last, and
/// only where both places are given and something was received, it writes the address
/// of the sender there.
pub proof fn recvfrom_asks(
    fd: usize,
    buf: usize,
    len: usize,
    addr_buf: usize,
    addr_len: usize,
    world: RecvFromWorld,
    n: usize,
    sender: SocketAddr,
)
    ensures
        ({
            let asked = world.requests(
                Step::<RecvFrom, isize>::Ask(
                    RecvFrom::LookingUp { fd, buf, len, addr_buf, addr_len },
                ),
            );
            let found = seq![Request::LookUp(fd)];
            let checked = found.push(Request::CheckAddress(addr_len));
            let measured = checked.push(Request::ReadWord(addr_len)).push(
                Request::CheckRange(addr_buf, addr_buf.wrapping_add(world.room as usize)),
            );
            let ready = if addr_len == 0 {
                found
            } else if addr_buf == 0 {
                checked
            } else {
                measured
            };
            let receiving = ready.push(Request::Receive(buf, len));
            if !(world.file is Socket) {
                asked == found
            } else if addr_len != 0 && !world.len_usable {
                asked == checked
            } else if addr_len != 0 && addr_buf != 0 && !world.addr_usable {
                asked == measured
            } else {
                &&& world.received is Err || addr_buf == 0 || addr_len == 0 ==> asked == receiving
                &&& world.received == Ok::<(usize, SocketAddr), NetError>((n, sender)) && addr_buf
                    != 0 && addr_len != 0 ==> asked == receiving.push(
                    Request::WriteAddress(sender, addr_buf, addr_len),
                )
            }
        }),
{
    reveal_with_fuel(requests, 7);
}

} // verus!
