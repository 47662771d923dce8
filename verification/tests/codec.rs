use socket_api::addr::{
    address_family, socket_address_from, socket_address_to, unspecified_address, IpAddr,
    SocketAddr, ADDRESS_LEN,
};
use socket_api::bytes::{decode, decode_int, encode, encode_int, ByteOrder};
use socket_api::errno::{ErrorNo, FAILURE};
use socket_api::kinds::{
    Domain, SocketOption, SocketOptionLevel, SocketShutdown, SocketType, TcpSocketOption,
    UnknownNumber,
};

#[test]
fn numbers_are_read_in_their_byte_order() {
    assert_eq!(decode(ByteOrder::Little, &[0x34, 0x12]), 0x1234);
    assert_eq!(decode(ByteOrder::Big, &[0x12, 0x34]), 0x1234);
    assert_eq!(decode(ByteOrder::Little, &[]), 0);
    assert_eq!(decode(ByteOrder::Big, &[0xff; 8]), u64::MAX);
    assert_eq!(decode(ByteOrder::Little, &[1, 2, 3, 4, 5, 6, 7, 8]), 0x0807060504030201);
}

#[test]
fn numbers_are_written_in_their_byte_order() {
    assert_eq!(encode(ByteOrder::Little, 0x1234, 2), vec![0x34, 0x12]);
    assert_eq!(encode(ByteOrder::Big, 0x1234, 2), vec![0x12, 0x34]);
    assert_eq!(encode(ByteOrder::Little, 1500, 8), vec![0xdc, 5, 0, 0, 0, 0, 0, 0]);
    assert_eq!(encode(ByteOrder::Big, 0x12345, 2), vec![0x23, 0x45]);
}

#[test]
fn signed_numbers_go_through_bytes() {
    for value in [0, 1, -1, 45, i32::MAX, i32::MIN, -65536] {
        let bytes = encode_int(ByteOrder::Little, value);
        assert_eq!(bytes, value.to_le_bytes().to_vec());
        assert_eq!(decode_int(ByteOrder::Little, &bytes), value);
        let bytes = encode_int(ByteOrder::Big, value);
        assert_eq!(bytes, value.to_be_bytes().to_vec());
        assert_eq!(decode_int(ByteOrder::Big, &bytes), value);
    }
    assert_eq!(decode_int(ByteOrder::Little, &[2, 0, 0, 0, 9, 9]), 2);
}

#[test]
fn every_number_finds_its_variant() {
    assert_eq!(Domain::try_from(1), Ok(Domain::AF_UNIX));
    assert_eq!(Domain::try_from(2), Ok(Domain::AF_INET));
    assert_eq!(Domain::try_from(10), Err(UnknownNumber { number: 10 }));
    assert_eq!(SocketType::try_from(1), Ok(SocketType::SOCK_STREAM));
    assert_eq!(SocketType::try_from(2), Ok(SocketType::SOCK_DGRAM));
    assert_eq!(SocketType::try_from(3), Ok(SocketType::SOCK_RAW));
    assert_eq!(SocketType::try_from(4), Ok(SocketType::SOCK_RDM));
    assert_eq!(SocketType::try_from(5), Ok(SocketType::SOCK_SEQPACKET));
    assert_eq!(SocketType::try_from(6), Ok(SocketType::SOCK_DCCP));
    assert_eq!(SocketType::try_from(10), Ok(SocketType::SOCK_PACKET));
    assert!(SocketType::try_from(7).is_err());
    assert_eq!(SocketOptionLevel::try_from(0), Ok(SocketOptionLevel::IP));
    assert_eq!(SocketOptionLevel::try_from(1), Ok(SocketOptionLevel::SOCKET));
    assert_eq!(SocketOptionLevel::try_from(6), Ok(SocketOptionLevel::TCP));
    assert!(SocketOptionLevel::try_from(2).is_err());
    assert_eq!(SocketOption::try_from(2), Ok(SocketOption::SO_REUSEADDR));
    assert_eq!(SocketOption::try_from(4), Ok(SocketOption::SO_ERROR));
    assert_eq!(SocketOption::try_from(5), Ok(SocketOption::SO_DONTROUTE));
    assert_eq!(SocketOption::try_from(7), Ok(SocketOption::SO_SNDBUF));
    assert_eq!(SocketOption::try_from(8), Ok(SocketOption::SO_RCVBUF));
    assert_eq!(SocketOption::try_from(9), Ok(SocketOption::SO_KEEPALIVE));
    assert_eq!(SocketOption::try_from(20), Ok(SocketOption::SO_RCVTIMEO));
    assert_eq!(SocketOption::try_from(0), Err(UnknownNumber { number: 0 }));
    assert_eq!(TcpSocketOption::try_from(1), Ok(TcpSocketOption::TCP_NODELAY));
    assert_eq!(TcpSocketOption::try_from(2), Ok(TcpSocketOption::TCP_MAXSEG));
    assert_eq!(TcpSocketOption::try_from(11), Ok(TcpSocketOption::TCP_INFO));
    assert_eq!(TcpSocketOption::try_from(13), Ok(TcpSocketOption::TCP_CONGESTION));
    assert!(TcpSocketOption::try_from(12).is_err());
    assert_eq!(SocketShutdown::try_from(0), Ok(SocketShutdown::Read));
    assert_eq!(SocketShutdown::try_from(1), Ok(SocketShutdown::Write));
    assert_eq!(SocketShutdown::try_from(2), Ok(SocketShutdown::ReadWrite));
    assert!(SocketShutdown::try_from(3).is_err());
}

#[test]
fn error_numbers_are_those_of_linux() {
    let pairs = [
        (ErrorNo::EINTR, axerrno::LinuxError::EINTR),
        (ErrorNo::EBADF, axerrno::LinuxError::EBADF),
        (ErrorNo::EAGAIN, axerrno::LinuxError::EAGAIN),
        (ErrorNo::EFAULT, axerrno::LinuxError::EFAULT),
        (ErrorNo::EINVAL, axerrno::LinuxError::EINVAL),
        (ErrorNo::EMFILE, axerrno::LinuxError::EMFILE),
        (ErrorNo::ENOTSOCK, axerrno::LinuxError::ENOTSOCK),
        (ErrorNo::ENOPROTOOPT, axerrno::LinuxError::ENOPROTOOPT),
        (ErrorNo::EOPNOTSUPP, axerrno::LinuxError::EOPNOTSUPP),
        (ErrorNo::EAFNOSUPPORT, axerrno::LinuxError::EAFNOSUPPORT),
        (ErrorNo::EISCONN, axerrno::LinuxError::EISCONN),
        (ErrorNo::ENOTCONN, axerrno::LinuxError::ENOTCONN),
        (ErrorNo::EINPROGRESS, axerrno::LinuxError::EINPROGRESS),
    ];
    for (ours, linux) in pairs {
        assert_eq!(ours.code(), -(linux.code() as isize));
        assert!(ours.code() < FAILURE);
    }
}

fn localhost() -> SocketAddr {
    SocketAddr { addr: IpAddr(127, 0, 0, 1), port: 8080 }
}

#[test]
fn address_is_written_in_its_form() {
    let mut buf = [0xeeu8; 10];
    let mut len = 16;
    assert_eq!(socket_address_to(ByteOrder::Little, localhost(), &mut buf, &mut len), Ok(()));
    assert_eq!(buf, [2, 0, 0x1f, 0x90, 127, 0, 0, 1, 0xee, 0xee]);
    assert_eq!(len, ADDRESS_LEN);
    assert_eq!(len, 8);
    let mut buf = [0xeeu8; 8];
    assert_eq!(socket_address_to(ByteOrder::Big, localhost(), &mut buf, &mut len), Ok(()));
    assert_eq!(buf, [0, 2, 0x1f, 0x90, 127, 0, 0, 1]);
}

#[test]
fn address_is_cut_to_its_room() {
    let whole = [2, 0, 0x1f, 0x90, 127, 0, 0, 1];
    for room in 0..=8usize {
        let mut buf = [0xeeu8; 8];
        let mut len = room as u32;
        assert_eq!(socket_address_to(ByteOrder::Little, localhost(), &mut buf, &mut len), Ok(()));
        assert_eq!(buf[..room], whole[..room]);
        assert!(buf[room..].iter().all(|byte| *byte == 0xee));
        assert_eq!(len, 8);
    }
    let mut len = 0;
    assert_eq!(socket_address_to(ByteOrder::Little, localhost(), &mut [], &mut len), Ok(()));
    assert_eq!(len, 8);
}

#[test]
fn address_is_read_back_as_it_was_written() {
    for order in [ByteOrder::Little, ByteOrder::Big] {
        for addr in [localhost(), unspecified_address()] {
            let mut buf = [0u8; 8];
            let mut len = 8;
            assert_eq!(socket_address_to(order, addr, &mut buf, &mut len), Ok(()));
            assert_eq!(address_family(order, &buf), Ok(Domain::AF_INET));
            assert_eq!(socket_address_from(order, &buf), addr);
        }
    }
}

#[test]
fn address_bytes_are_written_back_as_they_were_read() {
    let bytes = [2, 0, 0, 80, 10, 0, 2, 15];
    let addr = socket_address_from(ByteOrder::Little, &bytes);
    assert_eq!(addr, SocketAddr { addr: IpAddr(10, 0, 2, 15), port: 80 });
    let mut buf = [0u8; 8];
    let mut len = 8;
    assert_eq!(socket_address_to(ByteOrder::Little, addr, &mut buf, &mut len), Ok(()));
    assert_eq!(buf, bytes);
}

#[test]
fn address_family_tells_what_can_be_read() {
    assert_eq!(address_family(ByteOrder::Little, &[1, 0]), Ok(Domain::AF_UNIX));
    assert_eq!(address_family(ByteOrder::Little, &[2, 0]), Ok(Domain::AF_INET));
    assert_eq!(address_family(ByteOrder::Big, &[0, 2]), Ok(Domain::AF_INET));
    assert_eq!(
        address_family(ByteOrder::Little, &[10, 1]),
        Err(UnknownNumber { number: 266 })
    );
}
