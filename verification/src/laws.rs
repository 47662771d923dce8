//! Laws that tie the system calls to the sockets that they work on.
//!
//! The modules below state what each part of the interface does in numbers and bytes:
//! [`numbers`], [`sockets`], [`options`], and of the system calls [`making`],
//! [`naming`], [`transfer`], [`setting`] and [`replies`].
use vstd::prelude::*;

pub mod making;
pub mod naming;
pub mod numbers;
pub mod options;
pub mod replies;
pub mod setting;
pub mod sockets;
pub mod transfer;

use crate::addr::SocketAddr;
use crate::bytes::ByteOrder;
use crate::dialogue::{outcome, FileRef, Request, Step};
use crate::errno::{ErrorNo, NetError, FAILURE};
use crate::exchange::{AcceptWorld, Accepting, ReceiveWorld, Receiving};
use crate::kinds::{SocketOption, SocketOptionLevel, TcpSocketOption};
use crate::net::SocketInner;
use crate::options::{int_bytes, int_in};
use crate::socket::{makes_connections, SocketState};
use crate::syscall::name::{Listen, ListenWorld};
use crate::syscall::open::{Accept4, Accept4World};
use crate::syscall::option::{getsockopt_begins, GetSockOptWorld, SetSockOpt, SetSockOptWorld};
use crate::syscall::transfer::{RecvFrom, RecvFromWorld};

verus! {

/// Law: `accept4` on a socket whose type makes no connections results in
/// `EOPNOTSUPP`, whatever the network stack would have said.
pub proof fn accept4_needs_connections(
    fd: usize,
    addr_buf: usize,
    addr_len: usize,
    flags: usize,
    socket: SocketState,
    protocol: AcceptWorld,
    world: Accept4World,
)
    requires
        !makes_connections(socket.socket_type),
        world.file == FileRef::Socket(socket.inner),
        world.accepted == outcome(socket.accept(), |d: Accepting| protocol.reply(d)),
    ensures
        world.result(
            Step::<Accept4, isize>::Ask(
                Accept4::LookingUp { fd, addr_buf, addr_len, flags },
            ),
        ) == ErrorNo::EOPNOTSUPP.code(),
{
    crate::exchange::accept_result(socket, protocol);
    reveal_with_fuel(outcome, 8);
}

/// Law: on a socket that does not block and has nothing to receive, and on one
/// whose timeout passes, `recvfrom` results in `EAGAIN`; on a connection without a
/// peer it fails. That is so with and without a place for the sender's address.
pub proof fn recvfrom_tells_why(
    fd: usize,
    buf: usize,
    len: usize,
    addr_buf: usize,
    addr_len: usize,
    socket: SocketState,
    protocol: ReceiveWorld,
    world: RecvFromWorld,
)
    requires
        world.file == FileRef::Socket(socket.inner),
        world.received == outcome(socket.recv_from(), |d: Receiving| protocol.reply(d)),
        world.refusal(addr_buf, addr_len) is None,
    ensures
        ({
            let result = world.result(
                Step::<RecvFrom, isize>::Ask(
                    RecvFrom::LookingUp { fd, buf, len, addr_buf, addr_len },
                ),
            );
            match socket.inner {
                SocketInner::Udp => (protocol.datagram == Err::<
                    (usize, SocketAddr),
                    NetError,
                >(NetError::Timeout) || protocol.datagram == Err::<
                    (usize, SocketAddr),
                    NetError,
                >(NetError::WouldBlock)) ==> result == ErrorNo::EAGAIN.code(),
                SocketInner::Tcp => {
                    &&& protocol.peer is Ok && (protocol.stream == Err::<usize, NetError>(
                        NetError::Timeout,
                    ) || protocol.stream == Err::<usize, NetError>(NetError::WouldBlock)) ==> result
                        == ErrorNo::EAGAIN.code()
                    &&& protocol.peer == Err::<SocketAddr, NetError>(
                        NetError::NotConnected,
                    ) ==> result == FAILURE
                },
            }
        }),
{
    crate::exchange::recv_from_result(socket, protocol);
    reveal_with_fuel(outcome, 7);
}

/// Law: `listen` on a socket whose type makes no connections results in
/// `EOPNOTSUPP`, whatever the network stack would have said.
pub proof fn listen_needs_connections(fd: usize, socket: SocketState, world: ListenWorld)
    requires
        !makes_connections(socket.socket_type),
        world.file == FileRef::Socket(socket.inner),
        socket.listen() matches Err(error) ==> world.listening == Err::<(), NetError>(error),
    ensures
        world.result(Step::<Listen, isize>::Ask(Listen::LookingUp { fd }))
            == ErrorNo::EOPNOTSUPP.code(),
{
    reveal_with_fuel(outcome, 4);
}

/// Law: what `setsockopt` sets the size of a buffer, the timeout or the use of
/// addresses again of a socket to, `getsockopt` gets: the first asks last for that
/// option to be set from the bytes that it was told, the second asks last for it to
/// be written where it was told, and the bytes are the same; but the use of
/// addresses again is got as one where it was set to anything but zero.
pub proof fn setsockopt_is_got_back(
    fd: usize,
    option: SocketOption,
    order: ByteOrder,
    socket: SocketState,
    keep_alive: Option<bool>,
    set_value: usize,
    set_len: u32,
    get_value: usize,
    get_len: usize,
    set_world: SetSockOptWorld,
    get_world: GetSockOptWorld,
)
    requires
        option == SocketOption::SO_SNDBUF || option == SocketOption::SO_RCVBUF || option
            == SocketOption::SO_RCVTIMEO || option == SocketOption::SO_REUSEADDR,
        set_world.file is Socket,
        set_world.settles(SocketOptionLevel::SOCKET, option.number(), set_len),
        get_world.refusal(SocketOptionLevel::SOCKET, option.number(), get_value, get_len) is None,
    ensures
        ({
            let level = SocketOptionLevel::SOCKET;
            let opt_name = option.number();
            let setting = set_world.requests(
                Step::<SetSockOpt, isize>::Ask(
                    SetSockOpt::LookingUp {
                        fd,
                        level,
                        opt_name,
                        opt_value: set_value,
                        opt_len: set_len,
                    },
                ),
            );
            let getting = get_world.requests(
                getsockopt_begins(fd, level, opt_name, get_value, get_len),
            );
            let opt = set_world.value;
            let after = option.state_after(order, socket, opt);
            &&& setting.last() == Request::SetOption(option, set_value, set_len)
            &&& getting.last() == Request::GetOption(option, get_value, get_len)
            &&& option.value(order, after, keep_alive) == Some(
                if option != SocketOption::SO_REUSEADDR {
                    opt.take(option.value_len() as int)
                } else if int_in(order, opt) != 0 {
                    int_bytes(order, 1)
                } else {
                    int_bytes(order, 0)
                },
            )
        }),
{
    let level = SocketOptionLevel::SOCKET;
    let opt_name = option.number();
    SocketOption::numbers_find_variants(option, opt_name);
    crate::syscall::option::setsockopt_sets_once(
        fd,
        level,
        opt_name,
        set_value,
        set_len,
        set_world,
    );
    crate::syscall::option::getsockopt_gets_once(
        fd,
        level,
        opt_name,
        get_value,
        get_len,
        get_world,
    );
    if option == SocketOption::SO_REUSEADDR {
        crate::options::set_flag_is_got(order, socket, set_world.value, keep_alive);
    } else {
        crate::options::set_value_is_got(option, order, socket, set_world.value, keep_alive);
    }
}

/// Law: what `setsockopt` sets the congestion control of a connection to,
/// `getsockopt` gets: the first asks last for it to be set from the bytes that it was
/// told, the second asks last for it to be written where it was told, and the bytes
/// are the same.
pub proof fn congestion_is_got_back(
    fd: usize,
    order: ByteOrder,
    socket: SocketState,
    nagle: bool,
    set_value: usize,
    set_len: u32,
    get_value: usize,
    get_len: usize,
    set_world: SetSockOptWorld,
    get_world: GetSockOptWorld,
)
    requires
        set_world.file is Socket,
        set_world.settles(
            SocketOptionLevel::TCP,
            TcpSocketOption::TCP_CONGESTION.number(),
            set_len,
        ),
        get_world.refusal(
            SocketOptionLevel::TCP,
            TcpSocketOption::TCP_CONGESTION.number(),
            get_value,
            get_len,
        ) is None,
    ensures
        ({
            let level = SocketOptionLevel::TCP;
            let option = TcpSocketOption::TCP_CONGESTION;
            let opt_name = option.number();
            let setting = set_world.requests(
                Step::<SetSockOpt, isize>::Ask(
                    SetSockOpt::LookingUp {
                        fd,
                        level,
                        opt_name,
                        opt_value: set_value,
                        opt_len: set_len,
                    },
                ),
            );
            let getting = get_world.requests(
                getsockopt_begins(fd, level, opt_name, get_value, get_len),
            );
            let after = option.state_after(socket, set_world.value);
            &&& setting.last() == Request::SetTcpOption(option, set_value, set_len)
            &&& getting.last() == Request::GetTcpOption(option, get_value, get_len)
            &&& option.value(order, after, nagle) == Some(set_world.value)
        }),
{
    let level = SocketOptionLevel::TCP;
    let opt_name = TcpSocketOption::TCP_CONGESTION.number();
    TcpSocketOption::numbers_find_variants(TcpSocketOption::TCP_CONGESTION, opt_name);
    crate::syscall::option::setsockopt_sets_once(
        fd,
        level,
        opt_name,
        set_value,
        set_len,
        set_world,
    );
    crate::syscall::option::getsockopt_gets_once(
        fd,
        level,
        opt_name,
        get_value,
        get_len,
        get_world,
    );
    crate::options::set_congestion_is_got(order, socket, set_world.value, nagle);
}

} // verus!
