use socket_api::addr::{IpAddr, SocketAddr};
use socket_api::bytes::ByteOrder;
use socket_api::dialogue::{Dialogue, Reply, Request, Step};
use socket_api::errno::NetError;
use socket_api::kinds::{Domain, SocketOption, SocketType, TcpSocketOption};
use socket_api::net::{NetCall, PollState, SocketInner, TcpOp, TimeVal, UdpOp};
use socket_api::socket::{OpenFlags, Socket, DEFAULT_BUF_SIZE};

fn tcp() -> Socket {
    Socket::new(Domain::AF_INET, SocketType::SOCK_STREAM)
}

fn udp() -> Socket {
    Socket::new(Domain::AF_INET, SocketType::SOCK_DGRAM)
}

fn peer() -> SocketAddr {
    SocketAddr { addr: IpAddr(10, 0, 2, 2), port: 5555 }
}

fn run<D: Dialogue>(
    mut step: Step<D, D::Output>,
    mut reply: impl FnMut(Request) -> Reply,
) -> (D::Output, Vec<Request>) {
    let mut asked = Vec::new();
    loop {
        match step {
            Step::Return(result) => return (result, asked),
            Step::Ask(dialogue) => {
                let request = dialogue.request();
                asked.push(request);
                let answer = reply(request);
                assert!(dialogue.admits(&answer));
                step = dialogue.resume(answer);
            }
        }
    }
}

#[test]
fn new_socket_has_the_defaults() {
    let socket = tcp();
    assert_eq!(socket.protocol(), SocketInner::Tcp);
    assert_eq!(socket.kind(), SocketType::SOCK_STREAM);
    assert_eq!(socket.get_recv_timeout(), None);
    assert!(!socket.get_reuse_addr());
    assert!(!socket.get_dont_route());
    assert_eq!(socket.get_send_buf_size(), 64 * 1024);
    assert_eq!(socket.get_recv_buf_size(), DEFAULT_BUF_SIZE);
    assert_eq!(socket.get_congestion(), "reno");
    assert_eq!(udp().protocol(), SocketInner::Udp);
    let packets = Socket::new(Domain::AF_UNIX, SocketType::SOCK_SEQPACKET);
    assert_eq!(packets.protocol(), SocketInner::Tcp);
}

#[test]
fn operations_are_those_of_the_protocol() {
    let (t, u, a) = (tcp(), udp(), peer());
    assert_eq!(t.set_nonblocking(true), NetCall::Tcp(TcpOp::SetNonblocking(true)));
    assert_eq!(u.set_nonblocking(false), NetCall::Udp(UdpOp::SetNonblocking(false)));
    assert_eq!(t.is_nonblocking(), NetCall::Tcp(TcpOp::IsNonblocking));
    assert_eq!(u.is_nonblocking(), NetCall::Udp(UdpOp::IsNonblocking));
    assert_eq!(t.is_connected(), NetCall::Tcp(TcpOp::IsConnected));
    assert_eq!(u.is_connected(), NetCall::Udp(UdpOp::IsOpen));
    assert_eq!(t.name(), NetCall::Tcp(TcpOp::LocalAddr));
    assert_eq!(u.peer_name(), NetCall::Udp(UdpOp::PeerAddr));
    assert_eq!(t.bind(a), NetCall::Tcp(TcpOp::Bind(a)));
    assert_eq!(u.connect(a), NetCall::Udp(UdpOp::Connect(a)));
    assert_eq!(t.sendto(a), NetCall::Tcp(TcpOp::Send));
    assert_eq!(u.sendto(a), NetCall::Udp(UdpOp::SendTo(a)));
    assert_eq!(t.shutdown(), NetCall::Tcp(TcpOp::Close));
    assert_eq!(u.shutdown(), NetCall::Udp(UdpOp::Shutdown));
    assert_eq!(t.abort(), NetCall::Tcp(TcpOp::Abort));
    assert_eq!(u.abort(), NetCall::Udp(UdpOp::Shutdown));
    assert_eq!(t.read(), NetCall::Tcp(TcpOp::Read));
    assert_eq!(u.write(), NetCall::Udp(UdpOp::Write));
    assert_eq!(t.poll(), NetCall::Tcp(TcpOp::Poll));
}

#[test]
fn only_connections_listen() {
    assert_eq!(tcp().listen(), Ok(NetCall::Tcp(TcpOp::Listen)));
    let packets = Socket::new(Domain::AF_INET, SocketType::SOCK_SEQPACKET);
    assert_eq!(packets.listen(), Ok(NetCall::Tcp(TcpOp::Listen)));
    assert_eq!(udp().listen(), Err(NetError::Unsupported));
}

#[test]
fn socket_is_a_file() {
    let mut socket = tcp();
    assert_eq!(socket.flush(), Err(NetError::Unsupported));
    assert!(!socket.executable());
    let both = Ok(PollState { readable: true, writable: false });
    assert!(socket.readable(both));
    assert!(socket.ready_to_read(both));
    assert!(!socket.writable(both));
    assert!(!socket.ready_to_write(both));
    assert!(!socket.readable(Err(NetError::Other(5))));
    assert!(socket.is_bound(Ok(peer())));
    assert!(!socket.is_bound(Err(NetError::NotConnected)));
    assert_eq!(
        socket.get_status(false),
        OpenFlags { close_exec: false, non_block: false }
    );
    socket.set_close_exec();
    assert_eq!(socket.get_status(true), OpenFlags { close_exec: true, non_block: true });
    assert_eq!(
        socket.set_status(OpenFlags { close_exec: false, non_block: true }),
        (NetCall::Tcp(TcpOp::SetNonblocking(true)), true)
    );
}

#[test]
fn accepting_names_the_peer() {
    let socket = tcp();
    let (result, asked) = run(socket.accept(), |request| match request {
        Request::AcceptedPeer => Reply::Named(Ok(peer())),
        _ => Reply::Outcome(Ok(())),
    });
    assert_eq!(result, Ok(peer()));
    assert_eq!(asked, vec![Request::Net(NetCall::Tcp(TcpOp::Accept)), Request::AcceptedPeer]);
    let accepted = socket.accepted();
    assert_eq!(accepted.kind(), SocketType::SOCK_STREAM);
    assert_eq!(accepted.get_congestion(), "reno");

    let (result, asked) = run(socket.accept(), |_| Reply::Outcome(Err(NetError::WouldBlock)));
    assert_eq!(result, Err(NetError::WouldBlock));
    assert_eq!(asked.len(), 1);

    let (result, _) = run(socket.accept(), |request| match request {
        Request::AcceptedPeer => Reply::Named(Err(NetError::NotConnected)),
        _ => Reply::Outcome(Ok(())),
    });
    assert_eq!(result, Err(NetError::NotConnected));

    assert_eq!(udp().accept(), Step::Return(Err(NetError::Unsupported)));
}

#[test]
fn receiving_waits_for_the_timeout() {
    let time = TimeVal { sec: 3, usec: 500 };
    let mut socket = tcp();
    socket.set_recv_timeout(Some(time));
    let (result, asked) = run(socket.recv_from(), |request| match request {
        Request::Net(NetCall::Tcp(TcpOp::PeerAddr)) => Reply::Named(Ok(peer())),
        _ => Reply::Count(Ok(12)),
    });
    assert_eq!(result, Ok((12, peer())));
    assert_eq!(
        asked,
        vec![
            Request::Net(NetCall::Tcp(TcpOp::PeerAddr)),
            Request::Net(NetCall::Tcp(TcpOp::Recv(Some(time)))),
        ]
    );
    let (result, asked) =
        run(socket.recv_from(), |_| Reply::Named(Err(NetError::NotConnected)));
    assert_eq!(result, Err(NetError::NotConnected));
    assert_eq!(asked.len(), 1);

    let (result, asked) = run(udp().recv_from(), |_| Reply::Received(Ok((4, peer()))));
    assert_eq!(result, Ok((4, peer())));
    assert_eq!(asked, vec![Request::Net(NetCall::Udp(UdpOp::RecvFrom(None)))]);
}

#[test]
fn buffer_sizes_are_got_as_they_were_set() {
    for order in [ByteOrder::Little, ByteOrder::Big] {
        for option in [SocketOption::SO_SNDBUF, SocketOption::SO_RCVBUF] {
            for bytes in [[0, 0x20, 0, 0], [0xff; 4], [0, 0, 0, 0x80], [1, 2, 3, 4]] {
                let mut socket = udp();
                assert!(option.set(order, &mut socket, &bytes).is_empty());
                assert_eq!(option.asks(&socket), None);
                assert_eq!(option.get(order, &socket, None, 4), Some(bytes.to_vec()));
            }
        }
    }
    let mut socket = tcp();
    SocketOption::SO_SNDBUF.set(ByteOrder::Little, &mut socket, &(-1i32).to_le_bytes());
    assert_eq!(socket.get_send_buf_size(), u64::MAX);
    assert_eq!(socket.get_recv_buf_size(), DEFAULT_BUF_SIZE);
}

#[test]
fn timeout_is_got_as_it_was_set() {
    let word = std::mem::size_of::<usize>();
    let mut bytes = 7usize.to_le_bytes().to_vec();
    bytes.extend_from_slice(&250usize.to_le_bytes());
    let mut socket = tcp();
    let none = SocketOption::SO_RCVTIMEO.get(ByteOrder::Little, &socket, None, 64);
    assert_eq!(none, Some(vec![0; 2 * word]));
    SocketOption::SO_RCVTIMEO.set(ByteOrder::Little, &mut socket, &bytes);
    assert_eq!(socket.get_recv_timeout(), Some(TimeVal { sec: 7, usec: 250 }));
    assert_eq!(
        SocketOption::SO_RCVTIMEO.get(ByteOrder::Little, &socket, None, 64),
        Some(bytes)
    );
    SocketOption::SO_RCVTIMEO.set(ByteOrder::Little, &mut socket, &vec![0; 2 * word]);
    assert_eq!(socket.get_recv_timeout(), None);
}

#[test]
fn reuse_of_addresses_is_a_flag() {
    let mut socket = tcp();
    let get = |socket: &Socket| SocketOption::SO_REUSEADDR.get(ByteOrder::Little, socket, None, 4);
    assert_eq!(get(&socket), Some(vec![0, 0, 0, 0]));
    SocketOption::SO_REUSEADDR.set(ByteOrder::Little, &mut socket, &[0, 7, 0, 0]);
    assert!(socket.get_reuse_addr());
    assert_eq!(get(&socket), Some(vec![1, 0, 0, 0]));
    SocketOption::SO_REUSEADDR.set(ByteOrder::Little, &mut socket, &[0; 4]);
    assert_eq!(get(&socket), Some(vec![0, 0, 0, 0]));
}

#[test]
fn routing_option_sets_reuse_and_is_got_as_zero() {
    let mut socket = tcp();
    SocketOption::SO_DONTROUTE.set(ByteOrder::Little, &mut socket, &[1, 0, 0, 0]);
    assert!(socket.get_reuse_addr());
    assert!(!socket.get_dont_route());
    assert_eq!(
        SocketOption::SO_DONTROUTE.get(ByteOrder::Little, &socket, None, 4),
        Some(vec![0, 0, 0, 0])
    );
}

#[test]
fn keeping_alive_is_up_to_the_protocol() {
    let mut socket = tcp();
    let on = [1, 0, 0, 0];
    assert_eq!(
        SocketOption::SO_KEEPALIVE.set(ByteOrder::Little, &mut socket, &on),
        vec![TcpOp::SetKeepAlive(Some(45))]
    );
    assert_eq!(socket.get_recv_buf_size(), 1);
    assert_eq!(
        SocketOption::SO_KEEPALIVE.set(ByteOrder::Little, &mut socket, &[0; 4]),
        vec![TcpOp::SetKeepAlive(None)]
    );
    assert_eq!(SocketOption::SO_KEEPALIVE.asks(&socket), Some(TcpOp::KeepAlive));
    let get = |kept| SocketOption::SO_KEEPALIVE.get(ByteOrder::Little, &socket, kept, 4);
    assert_eq!(get(Some(true)), Some(vec![1, 0, 0, 0]));
    assert_eq!(get(Some(false)), Some(vec![0, 0, 0, 0]));
    assert_eq!(get(None), Some(vec![0, 0, 0, 0]));

    let mut socket = udp();
    assert!(SocketOption::SO_KEEPALIVE.set(ByteOrder::Little, &mut socket, &on).is_empty());
    assert_eq!(SocketOption::SO_KEEPALIVE.asks(&socket), None);
    assert_eq!(
        SocketOption::SO_KEEPALIVE.get(ByteOrder::Little, &socket, Some(true), 4),
        Some(vec![0, 0, 0, 0])
    );
}

#[test]
fn errors_are_not_kept() {
    assert_eq!(SocketOption::SO_ERROR.get(ByteOrder::Little, &tcp(), None, 0), None);
}

#[test]
fn delay_is_up_to_the_protocol() {
    let mut socket = tcp();
    assert_eq!(
        TcpSocketOption::TCP_NODELAY.set(ByteOrder::Little, &mut socket, &[1, 0, 0, 0]),
        vec![TcpOp::SetNagleEnabled(false), TcpOp::Flush]
    );
    assert_eq!(
        TcpSocketOption::TCP_NODELAY.set(ByteOrder::Little, &mut socket, &[0; 4]),
        vec![TcpOp::SetNagleEnabled(true), TcpOp::Flush]
    );
    assert_eq!(TcpSocketOption::TCP_NODELAY.asks(), Some(TcpOp::NagleEnabled));
    assert_eq!(TcpSocketOption::TCP_MAXSEG.asks(), None);
    let get = |nagle| TcpSocketOption::TCP_NODELAY.get(ByteOrder::Little, &socket, nagle, 4);
    assert_eq!(get(false), Some(vec![1, 0, 0, 0]));
    assert_eq!(get(true), Some(vec![0, 0, 0, 0]));
}

#[test]
fn congestion_control_is_got_as_it_was_set() {
    let mut socket = tcp();
    let get =
        |socket: &Socket| TcpSocketOption::TCP_CONGESTION.get(ByteOrder::Little, socket, false, 0);
    assert_eq!(get(&socket), Some(b"reno".to_vec()));
    for name in ["cubic", "", "höflich"] {
        let ops =
            TcpSocketOption::TCP_CONGESTION.set(ByteOrder::Little, &mut socket, name.as_bytes());
        assert!(ops.is_empty());
        assert_eq!(socket.get_congestion(), name);
        assert_eq!(get(&socket), Some(name.as_bytes().to_vec()));
    }
}

#[test]
fn largest_segment_is_a_word() {
    let socket = tcp();
    assert_eq!(
        TcpSocketOption::TCP_MAXSEG.get(ByteOrder::Little, &socket, false, 0),
        Some(1500usize.to_le_bytes().to_vec())
    );
    assert_eq!(TcpSocketOption::TCP_INFO.get(ByteOrder::Little, &socket, false, 0), None);
}

#[test]
fn values_that_are_too_short_cannot_be_set_or_got() {
    let word = std::mem::size_of::<usize>();
    assert!(!SocketOption::SO_SNDBUF.can_set(&[0; 3]));
    assert!(SocketOption::SO_SNDBUF.can_set(&[0; 4]));
    assert!(!SocketOption::SO_RCVTIMEO.can_set(&vec![0; 2 * word - 1]));
    assert!(SocketOption::SO_RCVTIMEO.can_set(&vec![0; 2 * word]));
    assert!(!SocketOption::SO_ERROR.can_set(&[0; 4]));
    assert!(!SocketOption::SO_REUSEADDR.can_get(3));
    assert!(SocketOption::SO_REUSEADDR.can_get(4));
    assert!(!SocketOption::SO_RCVTIMEO.can_get(2 * word as u32 - 1));
    assert!(SocketOption::SO_RCVTIMEO.can_get(2 * word as u32));
    assert!(SocketOption::SO_ERROR.can_get(0));
}

#[test]
fn protocol_options_need_the_protocol() {
    let (t, u) = (tcp(), udp());
    assert!(TcpSocketOption::TCP_NODELAY.can_set(&t, &[0; 4]));
    assert!(!TcpSocketOption::TCP_NODELAY.can_set(&t, &[0; 3]));
    assert!(!TcpSocketOption::TCP_NODELAY.can_set(&u, &[0; 4]));
    assert!(TcpSocketOption::TCP_CONGESTION.can_set(&t, b"bbr"));
    assert!(!TcpSocketOption::TCP_CONGESTION.can_set(&t, &[0xff, 0xfe]));
    assert!(!TcpSocketOption::TCP_MAXSEG.can_set(&t, &[0; 4]));
    assert!(!TcpSocketOption::TCP_INFO.can_set(&t, &[0; 4]));
    assert!(TcpSocketOption::TCP_NODELAY.can_get(&t, 4));
    assert!(!TcpSocketOption::TCP_NODELAY.can_get(&t, 3));
    assert!(TcpSocketOption::TCP_MAXSEG.can_get(&t, 0));
    assert!(!TcpSocketOption::TCP_MAXSEG.can_get(&u, 8));
}
