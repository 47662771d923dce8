//! What setting an option makes of a socket, and what getting it gives, byte by byte.
use vstd::prelude::*;
use vstd::utf8::{decode_utf8, encode_utf8, valid_utf8};

use crate::bytes::{value_is_weighed, value_of, ByteOrder};
use crate::dialogue::{requests, Request};
use crate::exchange::{ReceiveWorld, Receiving};
use crate::kinds::{SocketOption, TcpSocketOption};
use crate::net::{NetCall, SocketInner, TcpOp, TimeVal, UdpOp};
use crate::options::int_in;
use crate::socket::SocketState;

verus! {

/// The number in the four bytes at the start of `opt`.
proof fn number_in_place(order: ByteOrder, opt: Seq<u8>)
    requires
        opt.len() >= 4,
    ensures
        ({
            let bits = match order {
                ByteOrder::Little => opt[0] + 256 * opt[1] + 0x1_0000 * opt[2] + 0x100_0000
                    * opt[3],
                ByteOrder::Big => 0x100_0000 * opt[0] + 0x1_0000 * opt[1] + 256 * opt[2] + opt[3],
            };
            &&& value_of(order, opt.take(4)) == bits
            &&& int_in(order, opt) == if bits < 0x8000_0000 {
                bits
            } else {
                bits - 0x1_0000_0000
            }
        }),
{
    value_is_weighed(order, opt[0], opt[1], opt[2], opt[3]);
    assert(opt.take(4) =~= seq![opt[0], opt[1], opt[2], opt[3]]);
}

/// Law: setting `SO_REUSEADDR` or `SO_DONTROUTE` allows addresses to be used again if
/// and only if one of the first four bytes is not zero, and changes nothing else.
pub proof fn flags_are_set(order: ByteOrder, socket: SocketState, opt: Seq<u8>)
    requires
        opt.len() >= 4,
    ensures
        ({
            let set = opt[0] != 0 || opt[1] != 0 || opt[2] != 0 || opt[3] != 0;
            let after = SocketState { reuse_addr: set, ..socket };
            &&& SocketOption::SO_REUSEADDR.state_after(order, socket, opt) == after
            &&& SocketOption::SO_DONTROUTE.state_after(order, socket, opt) == after
            &&& SocketOption::SO_REUSEADDR.operations(order, socket, opt).len() == 0
            &&& SocketOption::SO_DONTROUTE.operations(order, socket, opt).len() == 0
        }),
{
    number_in_place(order, opt);
}

/// Law: setting the size of a buffer stores the number in the first four bytes, whose
/// sign fills the high half, and changes nothing else; setting `SO_KEEPALIVE` stores
/// it as the size of the receive buffer, too.
pub proof fn sizes_are_set(order: ByteOrder, socket: SocketState, opt: Seq<u8>)
    requires
        opt.len() >= 4,
    ensures
        ({
            let bits = match order {
                ByteOrder::Little => opt[0] + 256 * opt[1] + 0x1_0000 * opt[2] + 0x100_0000
                    * opt[3],
                ByteOrder::Big => 0x100_0000 * opt[0] + 0x1_0000 * opt[1] + 256 * opt[2] + opt[3],
            };
            let size = if bits < 0x8000_0000 {
                bits
            } else {
                bits + 0xffff_ffff_0000_0000
            };
            let sending = SocketOption::SO_SNDBUF.state_after(order, socket, opt);
            let receiving = SocketOption::SO_RCVBUF.state_after(order, socket, opt);
            let keeping = SocketOption::SO_KEEPALIVE.state_after(order, socket, opt);
            &&& sending.send_buf_size == size
            &&& sending == SocketState { send_buf_size: sending.send_buf_size, ..socket }
            &&& receiving.recv_buf_size == size
            &&& receiving == SocketState { recv_buf_size: receiving.recv_buf_size, ..socket }
            &&& keeping == receiving
            &&& SocketOption::SO_SNDBUF.operations(order, socket, opt).len() == 0
            &&& SocketOption::SO_RCVBUF.operations(order, socket, opt).len() == 0
        }),
{
    number_in_place(order, opt);
}

/// Law: setting `SO_KEEPALIVE` on a TCP socket lets the connection be kept alive by a
/// probe every 45 seconds if one of the first four bytes is not zero, and no more be
/// kept alive otherwise. On a UDP socket nothing is called.
pub proof fn keep_alive_is_set(order: ByteOrder, socket: SocketState, opt: Seq<u8>)
    requires
        opt.len() >= 4,
    ensures
        ({
            let ops = SocketOption::SO_KEEPALIVE.operations(order, socket, opt);
            let set = opt[0] != 0 || opt[1] != 0 || opt[2] != 0 || opt[3] != 0;
            &&& socket.inner == SocketInner::Udp ==> ops.len() == 0
            &&& socket.inner == SocketInner::Tcp && set ==> ops == seq![
                TcpOp::SetKeepAlive(Some(45)),
            ]
            &&& socket.inner == SocketInner::Tcp && !set ==> ops == seq![TcpOp::SetKeepAlive(None)]
        }),
{
    number_in_place(order, opt);
}

/// Law: a timeout that is set from two words, the first of which holds the seconds
/// `sec` and the second the microseconds `usec`, is that timeout, or none where both
/// are zero. Nothing else changes, and receiving then waits for that timeout.
pub proof fn timeout_is_set(
    order: ByteOrder,
    socket: SocketState,
    opt: Seq<u8>,
    sec: usize,
    usec: usize,
    world: ReceiveWorld,
)
    requires
        opt.len() >= 2 * vstd::layout::size_of::<usize>(),
        value_of(order, opt.take(vstd::layout::size_of::<usize>() as int)) == sec,
        value_of(
            order,
            opt.subrange(
                vstd::layout::size_of::<usize>() as int,
                2 * vstd::layout::size_of::<usize>() as int,
            ),
        ) == usec,
    ensures
        ({
            let after = SocketOption::SO_RCVTIMEO.state_after(order, socket, opt);
            let timeout = if sec == 0 && usec == 0 {
                None
            } else {
                Some(TimeVal { sec, usec })
            };
            let asked = requests(after.recv_from(), |d: Receiving| world.reply(d));
            &&& after == SocketState { recv_timeout: timeout, ..socket }
            &&& SocketOption::SO_RCVTIMEO.operations(order, socket, opt).len() == 0
            &&& socket.inner == SocketInner::Udp ==> asked.last() == Request::Net(
                NetCall::Udp(UdpOp::RecvFrom(timeout)),
            )
            &&& socket.inner == SocketInner::Tcp && world.peer is Ok ==> asked.last()
                == Request::Net(NetCall::Tcp(TcpOp::Recv(timeout)))
        }),
{
    crate::exchange::recv_from_result(
        SocketOption::SO_RCVTIMEO.state_after(order, socket, opt),
        world,
    );
}

/// Law: a flag is got as four bytes that hold one or zero: whether addresses are used
/// again, whether the socket routes, and whether a TCP connection is kept alive.
pub proof fn flags_are_got(order: ByteOrder, socket: SocketState, keep_alive: Option<bool>)
    ensures
        ({
            let reuse = SocketOption::SO_REUSEADDR.value(order, socket, keep_alive);
            let route = SocketOption::SO_DONTROUTE.value(order, socket, keep_alive);
            let alive = SocketOption::SO_KEEPALIVE.value(order, socket, keep_alive);
            let kept = socket.inner == SocketInner::Tcp && keep_alive == Some(true);
            &&& reuse matches Some(bytes) && bytes.len() == 4 && value_of(order, bytes) == if
                socket.reuse_addr {
                1int
            } else {
                0int
            }
            &&& route matches Some(bytes) && bytes.len() == 4 && value_of(order, bytes) == if
                socket.dont_route {
                1int
            } else {
                0int
            }
            &&& alive matches Some(bytes) && bytes.len() == 4 && value_of(order, bytes) == if kept {
                1int
            } else {
                0int
            }
        }),
{
    four_bytes(order, 0);
    four_bytes(order, 1);
}

/// Four bytes hold any number below two to the 32nd.
proof fn four_bytes(order: ByteOrder, bits: nat)
    requires
        bits < 0x1_0000_0000,
    ensures
        crate::bytes::bytes_of(order, bits, 4).len() == 4,
        value_of(order, crate::bytes::bytes_of(order, bits, 4)) == bits,
{
    reveal_with_fuel(crate::bytes::radix, 5);
    crate::bytes::number_round_trip(order, bits, 4);
}

/// A word holds any number of its size.
proof fn word_bytes(order: ByteOrder, value: usize)
    ensures
        crate::bytes::bytes_of(order, value as nat, vstd::layout::size_of::<usize>()).len()
            == vstd::layout::size_of::<usize>(),
        value_of(
            order,
            crate::bytes::bytes_of(order, value as nat, vstd::layout::size_of::<usize>()),
        ) == value,
{
    broadcast use vstd::layout::layout_of_primitives;

    reveal_with_fuel(crate::bytes::radix, 9);
    crate::bytes::number_round_trip(order, value as nat, vstd::layout::size_of::<usize>());
}

/// Law: the size of a buffer is got as four bytes that hold its low 32 bits.
pub proof fn sizes_are_got(order: ByteOrder, socket: SocketState, keep_alive: Option<bool>)
    ensures
        ({
            let sending = SocketOption::SO_SNDBUF.value(order, socket, keep_alive);
            let receiving = SocketOption::SO_RCVBUF.value(order, socket, keep_alive);
            &&& sending matches Some(bytes) && bytes.len() == 4 && value_of(order, bytes)
                == socket.send_buf_size as int % 0x1_0000_0000
            &&& receiving matches Some(bytes) && bytes.len() == 4 && value_of(order, bytes)
                == socket.recv_buf_size as int % 0x1_0000_0000
        }),
{
    four_bytes(order, (socket.send_buf_size as int % 0x1_0000_0000) as nat);
    four_bytes(order, (socket.recv_buf_size as int % 0x1_0000_0000) as nat);
}

/// Law: the timeout is got as two words: its seconds, then its microseconds; both are
/// zero where there is none. Errors are not got at all.
pub proof fn timeout_is_got(order: ByteOrder, socket: SocketState, keep_alive: Option<bool>)
    ensures
        SocketOption::SO_ERROR.value(order, socket, keep_alive) is None,
        SocketOption::SO_RCVTIMEO.value(order, socket, keep_alive) is Some,
        ({
            let bytes = SocketOption::SO_RCVTIMEO.value(order, socket, keep_alive).unwrap();
            let word = vstd::layout::size_of::<usize>() as int;
            let sec = value_of(order, bytes.take(word));
            let usec = value_of(order, bytes.subrange(word, 2 * word));
            &&& bytes.len() == 2 * word
            &&& socket.recv_timeout matches Some(time) ==> sec == time.sec && usec == time.usec
            &&& socket.recv_timeout is None ==> sec == 0 && usec == 0
        }),
{
    let time = match socket.recv_timeout {
        Some(time) => time,
        None => TimeVal { sec: 0, usec: 0 },
    };
    let word = vstd::layout::size_of::<usize>() as int;
    let bytes = SocketOption::SO_RCVTIMEO.value(order, socket, keep_alive).unwrap();
    word_bytes(order, time.sec);
    word_bytes(order, time.usec);
    assert(bytes.take(word) =~= crate::bytes::bytes_of(order, time.sec as nat, word as nat));
    assert(bytes.subrange(word, 2 * word) =~= crate::bytes::bytes_of(
        order,
        time.usec as nat,
        word as nat,
    ));
}

/// Law: an option can be set from enough bytes for its value and got into enough room
/// for it: two words for the timeout, and four bytes for the others. Errors cannot be
/// set, and take no room.
pub proof fn options_need_room(option: SocketOption, opt: Seq<u8>)
    ensures
        option.settable(opt) <==> match option {
            SocketOption::SO_ERROR => false,
            SocketOption::SO_RCVTIMEO => opt.len() >= 2 * vstd::layout::size_of::<usize>(),
            _ => opt.len() >= 4,
        },
        option.value_len() == match option {
            SocketOption::SO_ERROR => 0,
            SocketOption::SO_RCVTIMEO => 2 * vstd::layout::size_of::<usize>(),
            _ => 4,
        },
{
}

/// Law: only whether a TCP connection is kept alive has to be asked of the protocol,
/// and, of the options of the TCP layer, only whether it sends without delay.
pub proof fn protocol_is_asked(
    option: SocketOption,
    tcp_option: TcpSocketOption,
    socket: SocketState,
)
    ensures
        option == SocketOption::SO_KEEPALIVE && socket.inner == SocketInner::Tcp
            ==> option.question(socket) == Some(TcpOp::KeepAlive),
        option != SocketOption::SO_KEEPALIVE || socket.inner != SocketInner::Tcp
            ==> option.question(socket) is None,
        tcp_option == TcpSocketOption::TCP_NODELAY ==> tcp_option.question() == Some(
            TcpOp::NagleEnabled,
        ),
        tcp_option != TcpSocketOption::TCP_NODELAY ==> tcp_option.question() is None,
{
}

/// Law: setting `TCP_NODELAY` lets the protocol hold small pieces back if and only if
/// the first four bytes are zero, and flushes it. Setting `TCP_CONGESTION` changes the
/// congestion control to the text that the bytes encode, and nothing else.
pub proof fn tcp_options_are_set(order: ByteOrder, socket: SocketState, opt: Seq<u8>)
    ensures
        opt.len() >= 4 ==> TcpSocketOption::TCP_NODELAY.operations(order, opt) == seq![
            TcpOp::SetNagleEnabled(opt[0] == 0 && opt[1] == 0 && opt[2] == 0 && opt[3] == 0),
            TcpOp::Flush,
        ],
        TcpSocketOption::TCP_NODELAY.state_after(socket, opt) == socket,
        TcpSocketOption::TCP_CONGESTION.operations(order, opt).len() == 0,
        TcpSocketOption::TCP_CONGESTION.state_after(socket, opt) == (SocketState {
            congestion: decode_utf8(opt),
            ..socket
        }),
{
    if opt.len() >= 4 {
        number_in_place(order, opt);
    }
}

/// Law: `TCP_NODELAY` is got as four bytes that hold zero or one, `TCP_MAXSEG` as a
/// word that holds 1500, and `TCP_CONGESTION` as the text itself. `TCP_INFO` is not
/// got at all.
pub proof fn tcp_options_are_got(order: ByteOrder, socket: SocketState, nagle: bool)
    ensures
        TcpSocketOption::TCP_NODELAY.value(order, socket, nagle) matches Some(bytes) && bytes.len()
            == 4 && value_of(order, bytes) == if nagle {
            0int
        } else {
            1int
        },
        TcpSocketOption::TCP_MAXSEG.value(order, socket, nagle) matches Some(bytes) && bytes.len()
            == vstd::layout::size_of::<usize>() && value_of(order, bytes) == 1500,
        TcpSocketOption::TCP_INFO.value(order, socket, nagle) is None,
        TcpSocketOption::TCP_CONGESTION.value(order, socket, nagle) == Some(
            encode_utf8(socket.congestion),
        ),
{
    four_bytes(order, 0);
    four_bytes(order, 1);
    word_bytes(order, 1500);
}

/// Law: of the options of the TCP layer, `TCP_NODELAY` can be set from four bytes or
/// more and got into as much room, `TCP_CONGESTION` can be set from any text in UTF-8,
/// and no other can be set. The others are got whatever the room.
pub proof fn tcp_options_need_room(option: TcpSocketOption, opt: Seq<u8>, opt_len: u32)
    ensures
        option.settable(opt) <==> match option {
            TcpSocketOption::TCP_NODELAY => opt.len() >= 4,
            TcpSocketOption::TCP_CONGESTION => valid_utf8(opt),
            TcpSocketOption::TCP_MAXSEG => false,
            TcpSocketOption::TCP_INFO => false,
        },
        option.gettable(opt_len) <==> opt_len >= 4 || option != TcpSocketOption::TCP_NODELAY,
{
}

} // verus!
