//! The numbered choices of the socket interface: each is a number in a system
//! call and a variant here.
use vstd::prelude::*;

verus! {

/// The bits of a socket type's number that name the type.
pub const SOCKET_TYPE_MASK: usize = 0xFF;

/// Set O_NONBLOCK flag on the open fd
pub const SOCK_NONBLOCK: usize = 0x800;

/// Set FD_CLOEXEC flag on the new fd
pub const SOCK_CLOEXEC: usize = 0x80000;

/// A number that stands for no variant.
#[derive(Clone, Copy, PartialEq, Eq, Structural, Debug)]
pub struct UnknownNumber {
    pub number: usize,
}

/// An address family.
#[allow(non_camel_case_types)]
#[derive(Clone, Copy, PartialEq, Eq, Structural, Debug)]
pub enum Domain {
    /// Sockets local to the machine.
    AF_UNIX,
    /// Internet protocol, version 4.
    AF_INET,
}

impl Domain {
    /// The number that stands for this variant.
    pub open spec fn number(self) -> usize {
        match self {
            Domain::AF_UNIX => 1,
            Domain::AF_INET => 2,
        }
    }

    /// The variant that `number` stands for, if it stands for one.
    pub open spec fn of_number(number: usize) -> Option<Domain> {
        if number == 1 {
            Some(Domain::AF_UNIX)
        } else if number == 2 {
            Some(Domain::AF_INET)
        } else {
            None
        }
    }

    /// The variant that `number` stands for.
    pub fn try_from(number: usize) -> (result: Result<Domain, UnknownNumber>)
        ensures
            match Domain::of_number(number) {
                Some(variant) => result == Ok::<Domain, UnknownNumber>(variant),
                None => result == Err::<Domain, UnknownNumber>(UnknownNumber { number }),
            },
    {
        match number {
            1 => Ok(Domain::AF_UNIX),
            2 => Ok(Domain::AF_INET),
            _ => Err(UnknownNumber { number }),
        }
    }

    /// Law: each variant is found by its number, and a number finds no variant but
    /// the one that it stands for.
    pub proof fn numbers_find_variants(variant: Domain, number: usize)
        ensures
            Domain::of_number(variant.number()) == Some(variant),
            Domain::of_number(number) == Some(variant) ==> variant.number() == number,
    {
    }
}

/// A kind of communication.
#[allow(non_camel_case_types)]
#[derive(Clone, Copy, PartialEq, Eq, Structural, Debug)]
pub enum SocketType {
    /// Provides sequenced, reliable, two-way, connection-based byte streams.
    /// An out-of-band data transmission mechanism may be supported.
    SOCK_STREAM,
    /// Supports datagrams (connectionless, unreliable messages of a fixed maximum length).
    SOCK_DGRAM,
    /// Provides raw network protocol access.
    SOCK_RAW,
    /// Provides a reliable datagram layer that does not guarantee ordering.
    SOCK_RDM,
    /// Provides a sequenced, reliable, two-way connection-based data
    /// transmission path for datagrams of fixed maximum length;
    /// a consumer is required to read an entire packet with each input system call.
    SOCK_SEQPACKET,
    /// Datagram Congestion Control Protocol socket
    SOCK_DCCP,
    /// Obsolete and should not be used in new programs.
    SOCK_PACKET,
}

impl SocketType {
    /// The number that stands for this variant.
    pub open spec fn number(self) -> usize {
        match self {
            SocketType::SOCK_STREAM => 1,
            SocketType::SOCK_DGRAM => 2,
            SocketType::SOCK_RAW => 3,
            SocketType::SOCK_RDM => 4,
            SocketType::SOCK_SEQPACKET => 5,
            SocketType::SOCK_DCCP => 6,
            SocketType::SOCK_PACKET => 10,
        }
    }

    /// The variant that `number` stands for, if it stands for one.
    pub open spec fn of_number(number: usize) -> Option<SocketType> {
        if number == 1 {
            Some(SocketType::SOCK_STREAM)
        } else if number == 2 {
            Some(SocketType::SOCK_DGRAM)
        } else if number == 3 {
            Some(SocketType::SOCK_RAW)
        } else if number == 4 {
            Some(SocketType::SOCK_RDM)
        } else if number == 5 {
            Some(SocketType::SOCK_SEQPACKET)
        } else if number == 6 {
            Some(SocketType::SOCK_DCCP)
        } else if number == 10 {
            Some(SocketType::SOCK_PACKET)
        } else {
            None
        }
    }

    /// The variant that `number` stands for.
    pub fn try_from(number: usize) -> (result: Result<SocketType, UnknownNumber>)
        ensures
            match SocketType::of_number(number) {
                Some(variant) => result == Ok::<SocketType, UnknownNumber>(variant),
                None => result == Err::<SocketType, UnknownNumber>(UnknownNumber { number }),
            },
    {
        match number {
            1 => Ok(SocketType::SOCK_STREAM),
            2 => Ok(SocketType::SOCK_DGRAM),
            3 => Ok(SocketType::SOCK_RAW),
            4 => Ok(SocketType::SOCK_RDM),
            5 => Ok(SocketType::SOCK_SEQPACKET),
            6 => Ok(SocketType::SOCK_DCCP),
            10 => Ok(SocketType::SOCK_PACKET),
            _ => Err(UnknownNumber { number }),
        }
    }

    /// Law: each variant is found by its number, and a number finds no variant but
    /// the one that it stands for.
    pub proof fn numbers_find_variants(variant: SocketType, number: usize)
        ensures
            SocketType::of_number(variant.number()) == Some(variant),
            SocketType::of_number(number) == Some(variant) ==> variant.number() == number,
    {
    }
}

/// The protocol layer that an option belongs to.
#[allow(non_camel_case_types)]
#[derive(Clone, Copy, PartialEq, Eq, Structural, Debug)]
pub enum SocketOptionLevel {
    IP,
    SOCKET,
    TCP,
}

impl SocketOptionLevel {
    /// The number that stands for this variant.
    pub open spec fn number(self) -> usize {
        match self {
            SocketOptionLevel::IP => 0,
            SocketOptionLevel::SOCKET => 1,
            SocketOptionLevel::TCP => 6,
        }
    }

    /// The variant that `number` stands for, if it stands for one.
    pub open spec fn of_number(number: usize) -> Option<SocketOptionLevel> {
        if number == 0 {
            Some(SocketOptionLevel::IP)
        } else if number == 1 {
            Some(SocketOptionLevel::SOCKET)
        } else if number == 6 {
            Some(SocketOptionLevel::TCP)
        } else {
            None
        }
    }

    /// The variant that `number` stands for.
    pub fn try_from(number: usize) -> (result: Result<SocketOptionLevel, UnknownNumber>)
        ensures
            match SocketOptionLevel::of_number(number) {
                Some(variant) => result == Ok::<SocketOptionLevel, UnknownNumber>(variant),
                None => result == Err::<SocketOptionLevel, UnknownNumber>(UnknownNumber { number }),
            },
    {
        match number {
            0 => Ok(SocketOptionLevel::IP),
            1 => Ok(SocketOptionLevel::SOCKET),
            6 => Ok(SocketOptionLevel::TCP),
            _ => Err(UnknownNumber { number }),
        }
    }

    /// Law: each variant is found by its number, and a number finds no variant but
    /// the one that it stands for.
    pub proof fn numbers_find_variants(variant: SocketOptionLevel, number: usize)
        ensures
            SocketOptionLevel::of_number(variant.number()) == Some(variant),
            SocketOptionLevel::of_number(number) == Some(variant) ==> variant.number() == number,
    {
    }
}

/// An option of the socket layer.
#[allow(non_camel_case_types)]
#[derive(Clone, Copy, PartialEq, Eq, Structural, Debug)]
pub enum SocketOption {
    SO_REUSEADDR,
    SO_ERROR,
    SO_DONTROUTE,
    SO_SNDBUF,
    SO_RCVBUF,
    SO_KEEPALIVE,
    SO_RCVTIMEO,
}

impl SocketOption {
    /// The number that stands for this variant.
    pub open spec fn number(self) -> usize {
        match self {
            SocketOption::SO_REUSEADDR => 2,
            SocketOption::SO_ERROR => 4,
            SocketOption::SO_DONTROUTE => 5,
            SocketOption::SO_SNDBUF => 7,
            SocketOption::SO_RCVBUF => 8,
            SocketOption::SO_KEEPALIVE => 9,
            SocketOption::SO_RCVTIMEO => 20,
        }
    }

    /// The variant that `number` stands for, if it stands for one.
    pub open spec fn of_number(number: usize) -> Option<SocketOption> {
        if number == 2 {
            Some(SocketOption::SO_REUSEADDR)
        } else if number == 4 {
            Some(SocketOption::SO_ERROR)
        } else if number == 5 {
            Some(SocketOption::SO_DONTROUTE)
        } else if number == 7 {
            Some(SocketOption::SO_SNDBUF)
        } else if number == 8 {
            Some(SocketOption::SO_RCVBUF)
        } else if number == 9 {
            Some(SocketOption::SO_KEEPALIVE)
        } else if number == 20 {
            Some(SocketOption::SO_RCVTIMEO)
        } else {
            None
        }
    }

    /// The variant that `number` stands for.
    pub fn try_from(number: usize) -> (result: Result<SocketOption, UnknownNumber>)
        ensures
            match SocketOption::of_number(number) {
                Some(variant) => result == Ok::<SocketOption, UnknownNumber>(variant),
                None => result == Err::<SocketOption, UnknownNumber>(UnknownNumber { number }),
            },
    {
        match number {
            2 => Ok(SocketOption::SO_REUSEADDR),
            4 => Ok(SocketOption::SO_ERROR),
            5 => Ok(SocketOption::SO_DONTROUTE),
            7 => Ok(SocketOption::SO_SNDBUF),
            8 => Ok(SocketOption::SO_RCVBUF),
            9 => Ok(SocketOption::SO_KEEPALIVE),
            20 => Ok(SocketOption::SO_RCVTIMEO),
            _ => Err(UnknownNumber { number }),
        }
    }

    /// Law: each variant is found by its number, and a number finds no variant but
    /// the one that it stands for.
    pub proof fn numbers_find_variants(variant: SocketOption, number: usize)
        ensures
            SocketOption::of_number(variant.number()) == Some(variant),
            SocketOption::of_number(number) == Some(variant) ==> variant.number() == number,
    {
    }
}

/// An option of the TCP layer.
#[allow(non_camel_case_types)]
#[derive(Clone, Copy, PartialEq, Eq, Structural, Debug)]
pub enum TcpSocketOption {
    /// Disable the Nagle algorithm, and flush.
    TCP_NODELAY,
    TCP_MAXSEG,
    TCP_INFO,
    TCP_CONGESTION,
}

impl TcpSocketOption {
    /// The number that stands for this variant.
    pub open spec fn number(self) -> usize {
        match self {
            TcpSocketOption::TCP_NODELAY => 1,
            TcpSocketOption::TCP_MAXSEG => 2,
            TcpSocketOption::TCP_INFO => 11,
            TcpSocketOption::TCP_CONGESTION => 13,
        }
    }

    /// The variant that `number` stands for, if it stands for one.
    pub open spec fn of_number(number: usize) -> Option<TcpSocketOption> {
        if number == 1 {
            Some(TcpSocketOption::TCP_NODELAY)
        } else if number == 2 {
            Some(TcpSocketOption::TCP_MAXSEG)
        } else if number == 11 {
            Some(TcpSocketOption::TCP_INFO)
        } else if number == 13 {
            Some(TcpSocketOption::TCP_CONGESTION)
        } else {
            None
        }
    }

    /// The variant that `number` stands for.
    pub fn try_from(number: usize) -> (result: Result<TcpSocketOption, UnknownNumber>)
        ensures
            match TcpSocketOption::of_number(number) {
                Some(variant) => result == Ok::<TcpSocketOption, UnknownNumber>(variant),
                None => result == Err::<TcpSocketOption, UnknownNumber>(UnknownNumber { number }),
            },
    {
        match number {
            1 => Ok(TcpSocketOption::TCP_NODELAY),
            2 => Ok(TcpSocketOption::TCP_MAXSEG),
            11 => Ok(TcpSocketOption::TCP_INFO),
            13 => Ok(TcpSocketOption::TCP_CONGESTION),
            _ => Err(UnknownNumber { number }),
        }
    }

    /// Law: each variant is found by its number, and a number finds no variant but
    /// the one that it stands for.
    pub proof fn numbers_find_variants(variant: TcpSocketOption, number: usize)
        ensures
            TcpSocketOption::of_number(variant.number()) == Some(variant),
            TcpSocketOption::of_number(number) == Some(variant) ==> variant.number() == number,
    {
    }
}

/// Which directions of a connection to shut down.
#[allow(non_camel_case_types)]
#[derive(Clone, Copy, PartialEq, Eq, Structural, Debug)]
pub enum SocketShutdown {
    Read,
    Write,
    ReadWrite,
}

impl SocketShutdown {
    /// The number that stands for this variant.
    pub open spec fn number(self) -> usize {
        match self {
            SocketShutdown::Read => 0,
            SocketShutdown::Write => 1,
            SocketShutdown::ReadWrite => 2,
        }
    }

    /// The variant that `number` stands for, if it stands for one.
    pub open spec fn of_number(number: usize) -> Option<SocketShutdown> {
        if number == 0 {
            Some(SocketShutdown::Read)
        } else if number == 1 {
            Some(SocketShutdown::Write)
        } else if number == 2 {
            Some(SocketShutdown::ReadWrite)
        } else {
            None
        }
    }

    /// The variant that `number` stands for.
    pub fn try_from(number: usize) -> (result: Result<SocketShutdown, UnknownNumber>)
        ensures
            match SocketShutdown::of_number(number) {
                Some(variant) => result == Ok::<SocketShutdown, UnknownNumber>(variant),
                None => result == Err::<SocketShutdown, UnknownNumber>(UnknownNumber { number }),
            },
    {
        match number {
            0 => Ok(SocketShutdown::Read),
            1 => Ok(SocketShutdown::Write),
            2 => Ok(SocketShutdown::ReadWrite),
            _ => Err(UnknownNumber { number }),
        }
    }

    /// Law: each variant is found by its number, and a number finds no variant but
    /// the one that it stands for.
    pub proof fn numbers_find_variants(variant: SocketShutdown, number: usize)
        ensures
            SocketShutdown::of_number(variant.number()) == Some(variant),
            SocketShutdown::of_number(number) == Some(variant) ==> variant.number() == number,
    {
    }
}

} // verus!
