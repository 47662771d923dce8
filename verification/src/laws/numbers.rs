//! The numbers that programs and the kernel exchange.
use vstd::prelude::*;

use crate::errno::{ErrorNo, FAILURE};
use crate::kinds::{
    Domain, SocketOption, SocketOptionLevel, SocketShutdown, SocketType, TcpSocketOption,
    SOCKET_TYPE_MASK, SOCK_CLOEXEC, SOCK_NONBLOCK,
};

verus! {

/// Law: the address families have these numbers, and every other number stands for none.
pub proof fn domain_numbers(number: usize)
    ensures
        Domain::AF_UNIX.number() == 1,
        Domain::AF_INET.number() == 2,
        Domain::of_number(number) == Some(Domain::AF_UNIX) <==> number == 1,
        Domain::of_number(number) == Some(Domain::AF_INET) <==> number == 2,
        Domain::of_number(number) is None <==> number != 1 && number != 2,
{
}

/// Law: the socket types have these numbers, and every other number stands for none.
pub proof fn socket_type_numbers(number: usize)
    ensures
        SocketType::SOCK_STREAM.number() == 1,
        SocketType::SOCK_DGRAM.number() == 2,
        SocketType::SOCK_RAW.number() == 3,
        SocketType::SOCK_RDM.number() == 4,
        SocketType::SOCK_SEQPACKET.number() == 5,
        SocketType::SOCK_DCCP.number() == 6,
        SocketType::SOCK_PACKET.number() == 10,
        SocketType::of_number(number) == Some(SocketType::SOCK_STREAM) <==> number == 1,
        SocketType::of_number(number) == Some(SocketType::SOCK_DGRAM) <==> number == 2,
        SocketType::of_number(number) == Some(SocketType::SOCK_RAW) <==> number == 3,
        SocketType::of_number(number) == Some(SocketType::SOCK_RDM) <==> number == 4,
        SocketType::of_number(number) == Some(SocketType::SOCK_SEQPACKET) <==> number == 5,
        SocketType::of_number(number) == Some(SocketType::SOCK_DCCP) <==> number == 6,
        SocketType::of_number(number) == Some(SocketType::SOCK_PACKET) <==> number == 10,
        SocketType::of_number(number) is None <==> number != 1 && number != 2 && number != 3
            && number != 4 && number != 5 && number != 6 && number != 10,
{
}

/// Law: the option levels have these numbers, and every other number stands for none.
pub proof fn level_numbers(number: usize)
    ensures
        SocketOptionLevel::IP.number() == 0,
        SocketOptionLevel::SOCKET.number() == 1,
        SocketOptionLevel::TCP.number() == 6,
        SocketOptionLevel::of_number(number) == Some(SocketOptionLevel::IP) <==> number == 0,
        SocketOptionLevel::of_number(number) == Some(SocketOptionLevel::SOCKET) <==> number == 1,
        SocketOptionLevel::of_number(number) == Some(SocketOptionLevel::TCP) <==> number == 6,
        SocketOptionLevel::of_number(number) is None <==> number != 0 && number != 1 && number != 6,
{
}

/// Law: the options of the socket layer have these numbers, and every other number stands for none.
pub proof fn option_numbers(number: usize)
    ensures
        SocketOption::SO_REUSEADDR.number() == 2,
        SocketOption::SO_ERROR.number() == 4,
        SocketOption::SO_DONTROUTE.number() == 5,
        SocketOption::SO_SNDBUF.number() == 7,
        SocketOption::SO_RCVBUF.number() == 8,
        SocketOption::SO_KEEPALIVE.number() == 9,
        SocketOption::SO_RCVTIMEO.number() == 20,
        SocketOption::of_number(number) == Some(SocketOption::SO_REUSEADDR) <==> number == 2,
        SocketOption::of_number(number) == Some(SocketOption::SO_ERROR) <==> number == 4,
        SocketOption::of_number(number) == Some(SocketOption::SO_DONTROUTE) <==> number == 5,
        SocketOption::of_number(number) == Some(SocketOption::SO_SNDBUF) <==> number == 7,
        SocketOption::of_number(number) == Some(SocketOption::SO_RCVBUF) <==> number == 8,
        SocketOption::of_number(number) == Some(SocketOption::SO_KEEPALIVE) <==> number == 9,
        SocketOption::of_number(number) == Some(SocketOption::SO_RCVTIMEO) <==> number == 20,
        SocketOption::of_number(number) is None <==> number != 2 && number != 4 && number != 5
            && number != 7 && number != 8 && number != 9 && number != 20,
{
}

/// Law: the options of the TCP layer have these numbers, and every other number stands for none.
pub proof fn tcp_option_numbers(number: usize)
    ensures
        TcpSocketOption::TCP_NODELAY.number() == 1,
        TcpSocketOption::TCP_MAXSEG.number() == 2,
        TcpSocketOption::TCP_INFO.number() == 11,
        TcpSocketOption::TCP_CONGESTION.number() == 13,
        TcpSocketOption::of_number(number) == Some(TcpSocketOption::TCP_NODELAY) <==> number == 1,
        TcpSocketOption::of_number(number) == Some(TcpSocketOption::TCP_MAXSEG) <==> number == 2,
        TcpSocketOption::of_number(number) == Some(TcpSocketOption::TCP_INFO) <==> number == 11,
        TcpSocketOption::of_number(number) == Some(TcpSocketOption::TCP_CONGESTION) <==> number
            == 13,
        TcpSocketOption::of_number(number) is None <==> number != 1 && number != 2 && number != 11
            && number != 13,
{
}

/// Law: the ways to shut a socket down have these numbers, and every other number stands for none.
pub proof fn shutdown_numbers(number: usize)
    ensures
        SocketShutdown::Read.number() == 0,
        SocketShutdown::Write.number() == 1,
        SocketShutdown::ReadWrite.number() == 2,
        SocketShutdown::of_number(number) == Some(SocketShutdown::Read) <==> number == 0,
        SocketShutdown::of_number(number) == Some(SocketShutdown::Write) <==> number == 1,
        SocketShutdown::of_number(number) == Some(SocketShutdown::ReadWrite) <==> number == 2,
        SocketShutdown::of_number(number) is None <==> number != 0 && number != 1 && number != 2,
{
}

/// Law: the errors have these numbers, and a failure without one is minus one.
pub proof fn error_codes()
    ensures
        ErrorNo::EINTR.code() == -4,
        ErrorNo::EBADF.code() == -9,
        ErrorNo::EAGAIN.code() == -11,
        ErrorNo::EFAULT.code() == -14,
        ErrorNo::EINVAL.code() == -22,
        ErrorNo::EMFILE.code() == -24,
        ErrorNo::ENOTSOCK.code() == -88,
        ErrorNo::ENOPROTOOPT.code() == -92,
        ErrorNo::EOPNOTSUPP.code() == -95,
        ErrorNo::EAFNOSUPPORT.code() == -97,
        ErrorNo::EISCONN.code() == -106,
        ErrorNo::ENOTCONN.code() == -107,
        ErrorNo::EINPROGRESS.code() == -115,
        FAILURE == -1,
{
}

/// Law: a socket type is in the low eight bits of a number, and the two flags beside
/// it are the bits eleven and nineteen.
pub proof fn flag_bits()
    ensures
        SOCKET_TYPE_MASK == 255,
        SOCK_NONBLOCK == 2048,
        SOCK_CLOEXEC == 524288,
{
}

} // verus!
