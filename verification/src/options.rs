//! The options of a socket: setting them from bytes, and getting them as bytes.
use vstd::prelude::*;
use vstd::utf8::{decode_utf8, encode_utf8, valid_utf8};

use crate::bytes::{
    bytes_of, decode, decode_int, encode, encode_int, radix, signed_32, unsigned_32, value_of,
    ByteOrder,
};
use crate::kinds::{SocketOption, TcpSocketOption};
use crate::net::{SocketInner, TcpOp, TimeVal};
use crate::socket::{Socket, SocketState};

verus! {

/// The idle time after which a connection that is kept alive sends a probe, in
/// seconds.
pub const KEEP_ALIVE_SECS: u64 = 45;

/// The largest segment that a connection is said to send.
pub const MAX_SEGMENT: usize = 1500;

/// The length of a machine word, in bytes.
pub open spec fn word_len() -> nat {
    vstd::layout::size_of::<usize>()
}

/// The number that the four bytes at the start of an option's value hold.
pub open spec fn int_in(order: ByteOrder, opt: Seq<u8>) -> int {
    signed_32(value_of(order, opt.take(4)))
}

/// The four bytes of a number as an option's value.
pub open spec fn int_bytes(order: ByteOrder, value: int) -> Seq<u8> {
    bytes_of(order, unsigned_32(value), 4)
}

/// The span of time that two words at the start of an option's value hold: the
/// seconds, then the microseconds.
pub open spec fn time_in(order: ByteOrder, opt: Seq<u8>) -> TimeVal {
    TimeVal {
        sec: value_of(order, opt.take(word_len() as int)) as usize,
        usec: value_of(order, opt.subrange(word_len() as int, 2 * word_len() as int)) as usize,
    }
}

/// The bytes of a span of time as an option's value.
pub open spec fn time_bytes(order: ByteOrder, time: TimeVal) -> Seq<u8> {
    bytes_of(order, time.sec as nat, word_len()) + bytes_of(order, time.usec as nat, word_len())
}

/// The 64-bit size that a number stands for: a negative number stands for the
/// size with the same low bits and all the high bits set.
pub open spec fn size_of_int(value: int) -> int {
    if value >= 0 {
        value
    } else {
        value + 0x1_0000_0000_0000_0000
    }
}

/// The number that the low 32 bits of a size stand for.
pub open spec fn int_of_size(size: u64) -> int {
    signed_32(size as nat % 0x1_0000_0000)
}

fn word_size() -> (len: usize)
    ensures
        len == word_len(),
        4 <= len <= 8,
        radix(len as nat) == usize::MAX + 1,
{
    broadcast use vstd::layout::layout_of_primitives;

    proof {
        reveal_with_fuel(radix, 9);
    }
    core::mem::size_of::<usize>()
}

/// `String::from_utf8`: the text that `bytes` encode in UTF-8, or nothing where
/// they are no UTF-8. What is claimed of it is that it accepts exactly the valid
/// encodings, and that the text is the one that they encode.
#[verifier::external_body]
fn string_from_utf8(bytes: Vec<u8>) -> (text: Option<String>)
    ensures
        text is Some <==> valid_utf8(bytes@),
        text matches Some(text) ==> text@ == decode_utf8(bytes@),
{
    String::from_utf8(bytes).ok()
}

/// The number as a 64-bit size.
fn int_as_size(value: i32) -> (size: u64)
    ensures
        size == size_of_int(value as int),
{
    if value >= 0 {
        value as u64
    } else {
        (value as i64 + 0x8000_0000) as u64 + 0xffff_ffff_8000_0000
    }
}

/// The low 32 bits of a size as a number.
fn size_as_int(size: u64) -> (value: i32)
    ensures
        value == int_of_size(size),
{
    let bits: u64 = size % 0x1_0000_0000;
    if bits < 0x8000_0000 {
        bits as i32
    } else {
        (bits as i64 - 0x1_0000_0000) as i32
    }
}

fn decode_time(order: ByteOrder, opt: &[u8]) -> (time: TimeVal)
    requires
        opt@.len() >= 2 * word_len(),
    ensures
        time == time_in(order, opt@),
{
    let word: usize = word_size();
    let sec: u64 = decode(order, vstd::slice::slice_subrange(opt, 0, word));
    let usec: u64 = decode(order, vstd::slice::slice_subrange(opt, word, 2 * word));
    assert(opt@.subrange(0, word as int) =~= opt@.take(word as int));
    TimeVal { sec: sec as usize, usec: usec as usize }
}

fn encode_time(order: ByteOrder, time: TimeVal) -> (bytes: Vec<u8>)
    ensures
        bytes@ == time_bytes(order, time),
        bytes@.len() == 2 * word_len(),
{
    let word: usize = word_size();
    let mut bytes: Vec<u8> = encode(order, time.sec as u64, word);
    let mut usec: Vec<u8> = encode(order, time.usec as u64, word);
    bytes.append(&mut usec);
    bytes
}

impl SocketOption {
    /// The length of the option's value. `SO_ERROR` has none.
    pub open spec fn value_len(self) -> nat {
        match self {
            SocketOption::SO_ERROR => 0,
            SocketOption::SO_RCVTIMEO => 2 * word_len(),
            _ => 4,
        }
    }

    /// What the socket holds once the option was set to `opt`.
    pub open spec fn state_after(
        self,
        order: ByteOrder,
        socket: SocketState,
        opt: Seq<u8>,
    ) -> SocketState {
        let value = int_in(order, opt);
        let time = time_in(order, opt);
        match self {
            SocketOption::SO_REUSEADDR => SocketState { reuse_addr: value != 0, ..socket },
            SocketOption::SO_DONTROUTE => SocketState { reuse_addr: value != 0, ..socket },
            SocketOption::SO_SNDBUF => SocketState {
                send_buf_size: size_of_int(value) as u64,
                ..socket
            },
            SocketOption::SO_RCVBUF => SocketState {
                recv_buf_size: size_of_int(value) as u64,
                ..socket
            },
            SocketOption::SO_KEEPALIVE => SocketState {
                recv_buf_size: size_of_int(value) as u64,
                ..socket
            },
            SocketOption::SO_RCVTIMEO => SocketState {
                recv_timeout: if time.sec == 0 && time.usec == 0 {
                    None
                } else {
                    Some(time)
                },
                ..socket
            },
            SocketOption::SO_ERROR => socket,
        }
    }

    /// The operations that setting the option to `opt` takes.
    pub open spec fn operations(
        self,
        order: ByteOrder,
        socket: SocketState,
        opt: Seq<u8>,
    ) -> Seq<TcpOp> {
        if self == SocketOption::SO_KEEPALIVE && socket.inner == SocketInner::Tcp {
            seq![
                TcpOp::SetKeepAlive(
                    if int_in(order, opt) != 0 {
                        Some(KEEP_ALIVE_SECS)
                    } else {
                        None
                    },
                ),
            ]
        } else {
            Seq::empty()
        }
    }

    /// Whether the option can be set to `opt`: `SO_ERROR` never can, and the others
    /// can where `opt` holds a whole value.
    pub open spec fn settable(self, opt: Seq<u8>) -> bool {
        self != SocketOption::SO_ERROR && opt.len() >= self.value_len()
    }

    /// Whether the option can be set to `opt`.
    pub fn can_set(&self, opt: &[u8]) -> (can: bool)
        ensures
            can == self.settable(opt@),
    {
        match *self {
            SocketOption::SO_ERROR => false,
            SocketOption::SO_RCVTIMEO => opt.len() >= 2 * word_size(),
            _ => opt.len() >= 4,
        }
    }

    /// Whether the value of the option can be got into `opt_len` bytes.
    pub fn can_get(&self, opt_len: u32) -> (can: bool)
        ensures
            can == (opt_len >= self.value_len()),
    {
        match *self {
            SocketOption::SO_ERROR => true,
            SocketOption::SO_RCVTIMEO => opt_len as usize >= 2 * word_size(),
            _ => opt_len >= 4,
        }
    }

    /// Sets the option to the value at the start of `opt`. The result is what
    /// is to be called on the protocol, in this order.
    pub fn set(&self, order: ByteOrder, socket: &mut Socket, opt: &[u8]) -> (ops: Vec<TcpOp>)
        requires
            self.settable(opt@),
        ensures
            final(socket)@ == self.state_after(order, old(socket)@, opt@),
            ops@ == self.operations(order, old(socket)@, opt@),
    {
        let mut ops: Vec<TcpOp> = Vec::new();
        match *self {
            SocketOption::SO_REUSEADDR => {
                let value: i32 = decode_int(order, opt);
                socket.set_reuse_addr(value != 0);
            },
            SocketOption::SO_DONTROUTE => {
                let value: i32 = decode_int(order, opt);
                socket.set_reuse_addr(value != 0);
            },
            SocketOption::SO_SNDBUF => {
                let value: i32 = decode_int(order, opt);
                socket.set_send_buf_size(int_as_size(value));
            },
            SocketOption::SO_RCVBUF => {
                let value: i32 = decode_int(order, opt);
                socket.set_recv_buf_size(int_as_size(value));
            },
            SocketOption::SO_KEEPALIVE => {
                let value: i32 = decode_int(order, opt);
                let interval: Option<u64> = if value != 0 {
                    Some(KEEP_ALIVE_SECS)
                } else {
                    None
                };
                match socket.protocol() {
                    SocketInner::Udp => {},
                    SocketInner::Tcp => {
                        ops.push(TcpOp::SetKeepAlive(interval));
                    },
                }
                socket.set_recv_buf_size(int_as_size(value));
            },
            SocketOption::SO_RCVTIMEO => {
                let time: TimeVal = decode_time(order, opt);
                socket.set_recv_timeout(
                    if time.sec == 0 && time.usec == 0 {
                        None
                    } else {
                        Some(time)
                    },
                );
            },
            SocketOption::SO_ERROR => {},
        }
        ops
    }

    /// What is to be asked of the protocol before the option can be got.
    pub open spec fn question(self, socket: SocketState) -> Option<TcpOp> {
        if self == SocketOption::SO_KEEPALIVE && socket.inner == SocketInner::Tcp {
            Some(TcpOp::KeepAlive)
        } else {
            None
        }
    }

    /// What is to be asked of the protocol before the option can be got.
    pub fn asks(&self, socket: &Socket) -> (op: Option<TcpOp>)
        ensures
            op == self.question(socket@),
    {
        match (*self, socket.protocol()) {
            (SocketOption::SO_KEEPALIVE, SocketInner::Tcp) => Some(TcpOp::KeepAlive),
            _ => None,
        }
    }

    /// The value of the option, where `keep_alive` tells whether a connection is
    /// kept alive, if there is one. `SO_ERROR` has no value: errors are not kept.
    pub open spec fn value(
        self,
        order: ByteOrder,
        socket: SocketState,
        keep_alive: Option<bool>,
    ) -> Option<Seq<u8>> {
        match self {
            SocketOption::SO_REUSEADDR => Some(
                int_bytes(
                    order,
                    if socket.reuse_addr {
                        1
                    } else {
                        0
                    },
                ),
            ),
            SocketOption::SO_DONTROUTE => Some(
                int_bytes(
                    order,
                    if socket.dont_route {
                        1
                    } else {
                        0
                    },
                ),
            ),
            SocketOption::SO_SNDBUF => Some(int_bytes(order, int_of_size(socket.send_buf_size))),
            SocketOption::SO_RCVBUF => Some(int_bytes(order, int_of_size(socket.recv_buf_size))),
            SocketOption::SO_KEEPALIVE => Some(
                int_bytes(
                    order,
                    if socket.inner == SocketInner::Tcp && keep_alive == Some(true) {
                        1
                    } else {
                        0
                    },
                ),
            ),
            SocketOption::SO_RCVTIMEO => Some(
                time_bytes(
                    order,
                    match socket.recv_timeout {
                        Some(time) => time,
                        None => TimeVal { sec: 0, usec: 0 },
                    },
                ),
            ),
            SocketOption::SO_ERROR => None,
        }
    }

    /// Gets the option: the bytes to be written to the caller, and whose number the
    /// caller is told, or nothing where both are left as they are. `opt_len` is
    /// the room that the caller has for the value, and has to be enough for it.
    /// `keep_alive` is what the question of [`SocketOption::asks`] gave: whether the
    /// connection is kept alive, if there is one.
    pub fn get(
        &self,
        order: ByteOrder,
        socket: &Socket,
        keep_alive: Option<bool>,
        opt_len: u32,
    ) -> (value: Option<Vec<u8>>)
        requires
            opt_len >= self.value_len(),
        ensures
            match value {
                Some(bytes) => self.value(order, socket@, keep_alive) == Some(bytes@)
                    && bytes@.len() == self.value_len(),
                None => self.value(order, socket@, keep_alive) is None,
            },
    {
        match *self {
            SocketOption::SO_REUSEADDR => {
                let value: i32 = if socket.get_reuse_addr() {
                    1
                } else {
                    0
                };
                Some(encode_int(order, value))
            },
            SocketOption::SO_DONTROUTE => {
                let value: i32 = if socket.get_dont_route() {
                    1
                } else {
                    0
                };
                Some(encode_int(order, value))
            },
            SocketOption::SO_SNDBUF => {
                let value: i32 = size_as_int(socket.get_send_buf_size());
                Some(encode_int(order, value))
            },
            SocketOption::SO_RCVBUF => {
                let value: i32 = size_as_int(socket.get_recv_buf_size());
                Some(encode_int(order, value))
            },
            SocketOption::SO_KEEPALIVE => {
                let value: i32 = match (socket.protocol(), keep_alive) {
                    (SocketInner::Tcp, Some(true)) => 1,
                    _ => 0,
                };
                Some(encode_int(order, value))
            },
            SocketOption::SO_RCVTIMEO => {
                let time: TimeVal = match socket.get_recv_timeout() {
                    Some(time) => time,
                    None => TimeVal { sec: 0, usec: 0 },
                };
                Some(encode_time(order, time))
            },
            SocketOption::SO_ERROR => None,
        }
    }
}

impl TcpSocketOption {
    /// Whether the option can be set to `opt`.
    pub open spec fn settable(self, opt: Seq<u8>) -> bool {
        match self {
            TcpSocketOption::TCP_NODELAY => opt.len() >= 4,
            TcpSocketOption::TCP_CONGESTION => valid_utf8(opt),
            _ => false,
        }
    }

    /// What the socket holds once the option was set to `opt`.
    pub open spec fn state_after(self, socket: SocketState, opt: Seq<u8>) -> SocketState {
        if self == TcpSocketOption::TCP_CONGESTION {
            SocketState { congestion: decode_utf8(opt), ..socket }
        } else {
            socket
        }
    }

    /// The operations that setting the option to `opt` takes.
    pub open spec fn operations(self, order: ByteOrder, opt: Seq<u8>) -> Seq<TcpOp> {
        if self == TcpSocketOption::TCP_NODELAY {
            seq![TcpOp::SetNagleEnabled(int_in(order, opt) == 0), TcpOp::Flush]
        } else {
            Seq::empty()
        }
    }

    /// Whether the option can be set to `opt` on `socket`.
    pub fn can_set(&self, socket: &Socket, opt: &[u8]) -> (can: bool)
        ensures
            can == (socket@.inner == SocketInner::Tcp && self.settable(opt@)),
    {
        match (socket.protocol(), *self) {
            (SocketInner::Tcp, TcpSocketOption::TCP_NODELAY) => opt.len() >= 4,
            (SocketInner::Tcp, TcpSocketOption::TCP_CONGESTION) => {
                let bytes: Vec<u8> = vstd::slice::slice_to_vec(opt);
                string_from_utf8(bytes).is_some()
            },
            _ => false,
        }
    }

    /// Whether `opt_len` bytes are room enough for the option to be got: only
    /// `TCP_NODELAY` asks for any.
    pub open spec fn gettable(self, opt_len: u32) -> bool {
        self == TcpSocketOption::TCP_NODELAY ==> opt_len >= 4
    }

    /// Whether the option can be got of `socket`, into `opt_len` bytes.
    pub fn can_get(&self, socket: &Socket, opt_len: u32) -> (can: bool)
        ensures
            can == (socket@.inner == SocketInner::Tcp && self.gettable(opt_len)),
    {
        match (socket.protocol(), *self) {
            (SocketInner::Tcp, TcpSocketOption::TCP_NODELAY) => opt_len >= 4,
            (SocketInner::Tcp, _) => true,
            _ => false,
        }
    }

    /// Sets the option of a TCP socket to `opt`. The result is what is to be
    /// called on the protocol, in this order. Only `TCP_NODELAY` and
    /// `TCP_CONGESTION` can be set.
    pub fn set(&self, order: ByteOrder, socket: &mut Socket, opt: &[u8]) -> (ops: Vec<TcpOp>)
        requires
            old(socket)@.inner == SocketInner::Tcp,
            self.settable(opt@),
        ensures
            final(socket)@ == self.state_after(old(socket)@, opt@),
            ops@ == self.operations(order, opt@),
    {
        let mut ops: Vec<TcpOp> = Vec::new();
        match *self {
            TcpSocketOption::TCP_NODELAY => {
                let value: i32 = decode_int(order, opt);
                ops.push(TcpOp::SetNagleEnabled(value == 0));
                ops.push(TcpOp::Flush);
            },
            TcpSocketOption::TCP_CONGESTION => {
                let bytes: Vec<u8> = vstd::slice::slice_to_vec(opt);
                if let Some(congestion) = string_from_utf8(bytes) {
                    socket.set_congestion(congestion);
                }
            },
            _ => {},
        }
        ops
    }

    /// What is to be asked of the protocol before the option can be got.
    pub open spec fn question(self) -> Option<TcpOp> {
        if self == TcpSocketOption::TCP_NODELAY {
            Some(TcpOp::NagleEnabled)
        } else {
            None
        }
    }

    /// What is to be asked of the protocol before the option can be got.
    pub fn asks(&self) -> (op: Option<TcpOp>)
        ensures
            op == self.question(),
    {
        match *self {
            TcpSocketOption::TCP_NODELAY => Some(TcpOp::NagleEnabled),
            _ => None,
        }
    }

    /// The value of the option, where `nagle` tells whether the protocol holds
    /// small pieces back. `TCP_INFO` has no value.
    pub open spec fn value(
        self,
        order: ByteOrder,
        socket: SocketState,
        nagle: bool,
    ) -> Option<Seq<u8>> {
        match self {
            TcpSocketOption::TCP_NODELAY => Some(
                int_bytes(
                    order,
                    if nagle {
                        0
                    } else {
                        1
                    },
                ),
            ),
            TcpSocketOption::TCP_MAXSEG => Some(bytes_of(order, MAX_SEGMENT as nat, word_len())),
            TcpSocketOption::TCP_INFO => None,
            TcpSocketOption::TCP_CONGESTION => Some(encode_utf8(socket.congestion)),
        }
    }

    /// Gets the option of a TCP socket: the bytes to be written to the caller, and
    /// whose number the caller is told, or nothing where both are left as they are.
    /// `opt_len` is the room that the caller has for the value, which has to be
    /// enough for `TCP_NODELAY`; the other values are given whatever it is.
    /// `nagle` is what the question of [`TcpSocketOption::asks`] gave.
    pub fn get(
        &self,
        order: ByteOrder,
        socket: &Socket,
        nagle: bool,
        opt_len: u32,
    ) -> (value: Option<Vec<u8>>)
        requires
            socket@.inner == SocketInner::Tcp,
            self.gettable(opt_len),
        ensures
            match value {
                Some(bytes) => self.value(order, socket@, nagle) == Some(bytes@),
                None => self.value(order, socket@, nagle) is None,
            },
    {
        match *self {
            TcpSocketOption::TCP_NODELAY => {
                let value: i32 = if nagle {
                    0
                } else {
                    1
                };
                Some(encode_int(order, value))
            },
            TcpSocketOption::TCP_MAXSEG => Some(encode(order, MAX_SEGMENT as u64, word_size())),
            TcpSocketOption::TCP_INFO => None,
            TcpSocketOption::TCP_CONGESTION => {
                let congestion: String = socket.get_congestion();
                Some(vstd::slice::slice_to_vec(congestion.as_str().as_bytes()))
            },
        }
    }
}

/// A number becomes a size and a number again, and the bytes are those that it was
/// read from.
proof fn int_through_size(order: ByteOrder, opt: Seq<u8>)
    requires
        opt.len() >= 4,
    ensures
        0 <= size_of_int(int_in(order, opt)) <= u64::MAX,
        int_bytes(order, int_of_size(size_of_int(int_in(order, opt)) as u64)) == opt.take(4),
{
    let head = opt.take(4);
    crate::bytes::bytes_round_trip(order, head);
    assert(radix(4) == 0x1_0000_0000) by {
        reveal_with_fuel(radix, 5);
    }
    let bits = value_of(order, head);
    let value = int_in(order, opt);
    crate::bytes::signed_round_trip(bits, value);
    assert(int_of_size(size_of_int(value) as u64) == value);
}

/// A span of time is written as the bytes that it was read from.
proof fn time_round_trip(order: ByteOrder, opt: Seq<u8>)
    requires
        opt.len() >= 2 * word_len(),
    ensures
        time_bytes(order, time_in(order, opt)) == opt.take(2 * word_len() as int),
{
    let word = word_len() as int;
    crate::bytes::bytes_round_trip(order, opt.take(word));
    crate::bytes::bytes_round_trip(order, opt.subrange(word, 2 * word));
    assert(radix(word_len()) == usize::MAX + 1) by {
        broadcast use vstd::layout::layout_of_primitives;

        reveal_with_fuel(radix, 9);
    }
    assert(opt.take(word) + opt.subrange(word, 2 * word) =~= opt.take(2 * word));
}

/// Law: the size of a buffer and the timeout are got as the bytes that they were
/// set to.
pub proof fn set_value_is_got(
    option: SocketOption,
    order: ByteOrder,
    socket: SocketState,
    opt: Seq<u8>,
    keep_alive: Option<bool>,
)
    requires
        option == SocketOption::SO_SNDBUF || option == SocketOption::SO_RCVBUF || option
            == SocketOption::SO_RCVTIMEO,
        opt.len() >= option.value_len(),
    ensures
        option.value(order, option.state_after(order, socket, opt), keep_alive) == Some(
            opt.take(option.value_len() as int),
        ),
{
    if option == SocketOption::SO_RCVTIMEO {
        time_round_trip(order, opt);
    } else {
        int_through_size(order, opt);
    }
}

/// Law: whether addresses can be used again is got as one if it was set to
/// anything but zero, and as zero otherwise.
pub proof fn set_flag_is_got(
    order: ByteOrder,
    socket: SocketState,
    opt: Seq<u8>,
    keep_alive: Option<bool>,
)
    ensures
        SocketOption::SO_REUSEADDR.value(
            order,
            SocketOption::SO_REUSEADDR.state_after(order, socket, opt),
            keep_alive,
        ) == Some(
            int_bytes(
                order,
                if int_in(order, opt) != 0 {
                    1
                } else {
                    0
                },
            ),
        ),
{
}

/// Law: the congestion control is got as the bytes that it was set to.
pub proof fn set_congestion_is_got(
    order: ByteOrder,
    socket: SocketState,
    opt: Seq<u8>,
    nagle: bool,
)
    requires
        TcpSocketOption::TCP_CONGESTION.settable(opt),
    ensures
        TcpSocketOption::TCP_CONGESTION.value(
            order,
            TcpSocketOption::TCP_CONGESTION.state_after(socket, opt),
            nagle,
        ) == Some(opt),
{
    vstd::utf8::decode_utf8_encode_utf8(opt);
}

/// Law: where the protocol tells of itself what it was last told, keeping a
/// connection alive and sending without delay are got as one if they were set to
/// anything but zero, and as zero otherwise.
pub proof fn set_protocol_flag_is_got(
    order: ByteOrder,
    socket: SocketState,
    opt: Seq<u8>,
    interval: Option<u64>,
    nagle: bool,
)
    requires
        socket.inner == SocketInner::Tcp,
        SocketOption::SO_KEEPALIVE.operations(order, socket, opt) == seq![
            TcpOp::SetKeepAlive(interval),
        ],
        TcpSocketOption::TCP_NODELAY.operations(order, opt)[0] == TcpOp::SetNagleEnabled(nagle),
    ensures
        ({
            let flag = int_bytes(
                order,
                if int_in(order, opt) != 0 {
                    1
                } else {
                    0
                },
            );
            let kept = SocketOption::SO_KEEPALIVE.state_after(order, socket, opt);
            &&& SocketOption::SO_KEEPALIVE.value(order, kept, Some(interval is Some)) == Some(flag)
            &&& TcpSocketOption::TCP_NODELAY.value(order, socket, nagle) == Some(flag)
        }),
{
    assert(SocketOption::SO_KEEPALIVE.operations(order, socket, opt)[0] == TcpOp::SetKeepAlive(
        interval,
    ));
}

/// Law: setting an option never changes what kind of socket a socket is, nor
/// whether it is closed when another program is executed, nor whether it routes.
pub proof fn set_keeps_the_rest(
    option: SocketOption,
    tcp_option: TcpSocketOption,
    order: ByteOrder,
    socket: SocketState,
    opt: Seq<u8>,
)
    ensures
        ({
            let after = option.state_after(order, socket, opt);
            &&& after.domain == socket.domain
            &&& after.socket_type == socket.socket_type
            &&& after.inner == socket.inner
            &&& after.close_exec == socket.close_exec
            &&& after.dont_route == socket.dont_route
            &&& after.congestion == socket.congestion
            &&& after.wf() == socket.wf()
        }),
        ({
            let after = tcp_option.state_after(socket, opt);
            &&& after == SocketState { congestion: after.congestion, ..socket }
            &&& after.wf() == socket.wf()
        }),
{
}

/// Law: `SO_DONTROUTE` is got as zero on every socket, whatever options were set on
/// it since it was new.
pub proof fn dont_route_is_never_set(
    domain: crate::kinds::Domain,
    socket_type: crate::kinds::SocketType,
    inner: SocketInner,
    settings: Seq<(SocketOption, Seq<u8>)>,
    order: ByteOrder,
    keep_alive: Option<bool>,
)
    ensures
        SocketOption::SO_DONTROUTE.value(
            order,
            settings.fold_left(
                SocketState::fresh(domain, socket_type, inner),
                |socket: SocketState, setting: (SocketOption, Seq<u8>)|
                    setting.0.state_after(order, socket, setting.1),
            ),
            keep_alive,
        ) == Some(int_bytes(order, 0)),
{
    set_dont_route_after(settings, order, SocketState::fresh(domain, socket_type, inner));
}

/// No sequence of options changes whether a socket routes.
proof fn set_dont_route_after(
    settings: Seq<(SocketOption, Seq<u8>)>,
    order: ByteOrder,
    socket: SocketState,
)
    ensures
        settings.fold_left(
            socket,
            |socket: SocketState, setting: (SocketOption, Seq<u8>)|
                setting.0.state_after(order, socket, setting.1),
        ).dont_route == socket.dont_route,
    decreases settings.len(),
{
    reveal_with_fuel(Seq::fold_left, 2);
    if settings.len() > 0 {
        set_dont_route_after(settings.drop_last(), order, socket);
    }
}

} // verus!
