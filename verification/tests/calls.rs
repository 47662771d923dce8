use socket_api::addr::{unspecified_address, IpAddr, SocketAddr};
use socket_api::dialogue::{Dialogue, FileRef, Reply, Request, Step};
use socket_api::errno::{ErrorNo, NetError};
use socket_api::kinds::{
    Domain, SocketOption, SocketType, TcpSocketOption, SOCK_CLOEXEC, SOCK_NONBLOCK,
};
use socket_api::net::{NetCall, SocketInner, TcpOp, UdpOp};
use socket_api::syscall::name::{
    syscall_bind, syscall_connect, syscall_get_sock_name, syscall_getpeername, syscall_listen,
};
use socket_api::syscall::open::{can_make, syscall_accept4, syscall_socket};
use socket_api::syscall::option::{syscall_get_sock_opt, syscall_set_sock_opt};
use socket_api::syscall::shutdown::syscall_shutdown;
use socket_api::syscall::transfer::{syscall_recvfrom, syscall_sendto};

const TCP: FileRef = FileRef::Socket(SocketInner::Tcp);
const UDP: FileRef = FileRef::Socket(SocketInner::Udp);

fn peer() -> SocketAddr {
    SocketAddr { addr: IpAddr(10, 0, 2, 2), port: 5555 }
}

/// Runs a call to its end, with the given replies in their order.
fn run<D: Dialogue<Output = isize>>(
    mut step: Step<D, isize>,
    replies: &[Reply],
) -> (isize, Vec<Request>) {
    let mut asked = Vec::new();
    loop {
        match step {
            Step::Return(result) => {
                assert_eq!(asked.len(), replies.len());
                return (result, asked);
            }
            Step::Ask(dialogue) => {
                let reply = replies[asked.len()];
                asked.push(dialogue.request());
                assert!(dialogue.admits(&reply));
                step = dialogue.resume(reply);
            }
        }
    }
}

fn value<D: Dialogue<Output = isize>>(step: Step<D, isize>, replies: &[Reply]) -> isize {
    run(step, replies).0
}

#[test]
fn socket_opens() {
    let (fd, asked) = run(
        syscall_socket(2, 1, 0),
        &[Reply::Done, Reply::Descriptor(Some(3)), Reply::Done],
    );
    assert_eq!(fd, 3);
    assert_eq!(
        asked,
        vec![
            Request::Open(Domain::AF_INET, SocketType::SOCK_STREAM),
            Request::AllocateDescriptor,
            Request::Install(3, false),
        ]
    );
}

#[test]
fn socket_takes_flags() {
    let (fd, asked) = run(
        syscall_socket(1, 2 | SOCK_NONBLOCK | SOCK_CLOEXEC, 17),
        &[Reply::Done, Reply::Done, Reply::Descriptor(Some(9)), Reply::Done],
    );
    assert_eq!(fd, 9);
    assert_eq!(
        asked,
        vec![
            Request::Open(Domain::AF_UNIX, SocketType::SOCK_DGRAM),
            Request::MakeNonblocking,
            Request::AllocateDescriptor,
            Request::Install(9, true),
        ]
    );
}

#[test]
fn socket_refuses() {
    assert_eq!(syscall_socket(10, 1, 0), Step::Return(-97));
    assert_eq!(syscall_socket(10, 7, 0), Step::Return(-97));
    assert_eq!(syscall_socket(2, 7, 0), Step::Return(-22));
    assert_eq!(syscall_socket(2, 0x100, 0), Step::Return(-22));
    assert_eq!(value(syscall_socket(2, 5, 0), &[Reply::Done, Reply::Descriptor(None)]), -24);
}

#[test]
fn socket_types_without_protocol_cannot_be_made() {
    for s_type in [1, 2, 5, 7, 0x80801] {
        assert!(can_make(2, s_type));
    }
    for s_type in [3, 4, 6, 10] {
        assert!(!can_make(2, s_type));
        assert!(can_make(3, s_type));
    }
}

#[test]
fn every_call_needs_a_socket() {
    let missing = [Reply::File(FileRef::Missing)];
    let other = [Reply::File(FileRef::NotSocket)];
    assert_eq!(value(syscall_bind(7, 64, 16), &missing), -9);
    assert_eq!(
        value(syscall_bind(7, 64, 16), &[other[0], Reply::Address(peer())]),
        -88
    );
    assert_eq!(value(syscall_listen(7, 1), &missing), -9);
    assert_eq!(value(syscall_listen(7, 1), &other), -88);
    assert_eq!(value(syscall_accept4(7, 64, 96, 0), &missing), -9);
    assert_eq!(value(syscall_accept4(7, 64, 96, 0), &other), -88);
    assert_eq!(value(syscall_connect(7, 64, 16), &missing), -9);
    assert_eq!(value(syscall_connect(7, 64, 16), &other), -88);
    assert_eq!(value(syscall_get_sock_name(7, 64, 96), &missing), -9);
    assert_eq!(value(syscall_get_sock_name(7, 64, 96), &other), -88);
    assert_eq!(value(syscall_getpeername(7, 64, 96), &missing), -9);
    assert_eq!(
        value(
            syscall_getpeername(7, 64, 96),
            &[other[0], Reply::Usable(true), Reply::Word(16), Reply::Usable(true)]
        ),
        -88
    );
    assert_eq!(value(syscall_sendto(7, 0, 1, 0, 0, 0), &missing), -9);
    assert_eq!(value(syscall_sendto(7, 0, 1, 0, 0, 0), &other), -88);
    assert_eq!(value(syscall_recvfrom(7, 64, 1, 0, 0, 0), &missing), -9);
    assert_eq!(value(syscall_recvfrom(7, 64, 1, 0, 0, 0), &other), -88);
    assert_eq!(value(syscall_set_sock_opt(7, 1, 2, 64, 4), &missing), -9);
    assert_eq!(value(syscall_set_sock_opt(7, 1, 2, 64, 4), &other), -88);
    assert_eq!(value(syscall_get_sock_opt(7, 1, 2, 64, 96), &missing), -9);
    assert_eq!(value(syscall_get_sock_opt(7, 1, 2, 64, 96), &other), -88);
    assert_eq!(value(syscall_shutdown(7, 9), &missing), -9);
    assert_eq!(value(syscall_shutdown(7, 9), &other), -88);
}

#[test]
fn bind_binds() {
    let found = [Reply::File(TCP), Reply::Address(peer())];
    let (result, asked) =
        run(syscall_bind(7, 64, 16), &[found[0], found[1], Reply::Outcome(Ok(()))]);
    assert_eq!(result, 0);
    assert_eq!(
        asked,
        vec![Request::LookUp(7), Request::ReadAddress(64), Request::Bind(peer())]
    );
    let failed = Reply::Outcome(Err(NetError::AlreadyExists));
    assert_eq!(value(syscall_bind(7, 64, 16), &[found[0], found[1], failed]), -1);
}

#[test]
fn listen_listens() {
    let (result, asked) =
        run(syscall_listen(7, 128), &[Reply::File(TCP), Reply::Outcome(Ok(()))]);
    assert_eq!(result, 0);
    assert_eq!(asked, vec![Request::LookUp(7), Request::Listen]);
    let unsupported = Reply::Outcome(Err(NetError::Unsupported));
    assert_eq!(
        value(syscall_listen(7, 128), &[Reply::File(UDP), unsupported]),
        ErrorNo::EOPNOTSUPP.code()
    );
    assert_eq!(ErrorNo::EOPNOTSUPP.code(), -95);
    for error in [NetError::AlreadyExists, NetError::Interrupted, NetError::Other(22)] {
        let failed = Reply::Outcome(Err(error));
        assert_eq!(value(syscall_listen(7, 128), &[Reply::File(TCP), failed]), -1);
    }
}

#[test]
fn accept4_accepts() {
    let (result, asked) = run(
        syscall_accept4(7, 64, 96, SOCK_NONBLOCK | SOCK_CLOEXEC),
        &[
            Reply::File(TCP),
            Reply::Named(Ok(peer())),
            Reply::Done,
            Reply::Descriptor(Some(8)),
            Reply::Done,
            Reply::Done,
        ],
    );
    assert_eq!(result, 8);
    assert_eq!(
        asked,
        vec![
            Request::LookUp(7),
            Request::Accept,
            Request::WriteAddress(peer(), 64, 96),
            Request::AllocateDescriptor,
            Request::MakeNonblocking,
            Request::Install(8, true),
        ]
    );
    let plain = [
        Reply::File(TCP),
        Reply::Named(Ok(peer())),
        Reply::Done,
        Reply::Descriptor(Some(8)),
        Reply::Done,
    ];
    let (result, asked) = run(syscall_accept4(7, 64, 96, 0), &plain);
    assert_eq!(result, 8);
    assert_eq!(asked[4], Request::Install(8, false));
    let full = [plain[0], plain[1], plain[2], Reply::Descriptor(None)];
    assert_eq!(value(syscall_accept4(7, 64, 96, 0), &full), -24);
}

#[test]
fn accept4_tells_why_not() {
    let failures = [
        (NetError::Unsupported, ErrorNo::EOPNOTSUPP.code()),
        (NetError::Interrupted, ErrorNo::EINTR.code()),
        (NetError::WouldBlock, ErrorNo::EAGAIN.code()),
        (NetError::NotConnected, -1),
        (NetError::Other(5), -1),
    ];
    for (error, code) in failures {
        let replies = [Reply::File(TCP), Reply::Named(Err(error))];
        assert_eq!(value(syscall_accept4(7, 64, 96, 0), &replies), code);
    }
}

#[test]
fn connect_tells_why_not() {
    let outcomes = [
        (Ok(()), 0),
        (Err(NetError::WouldBlock), -115),
        (Err(NetError::Interrupted), -4),
        (Err(NetError::AlreadyExists), -106),
        (Err(NetError::ConnectionRefused), -1),
    ];
    for (outcome, code) in outcomes {
        let replies = [Reply::File(TCP), Reply::Address(peer()), Reply::Outcome(outcome)];
        let (result, asked) = run(syscall_connect(7, 64, 16), &replies);
        assert_eq!(result, code);
        assert_eq!(
            asked,
            vec![Request::LookUp(7), Request::ReadAddress(64), Request::Connect(peer())]
        );
    }
}

#[test]
fn getsockname_names() {
    let named = [Reply::File(UDP), Reply::Named(Ok(peer())), Reply::Done];
    let (result, asked) = run(syscall_get_sock_name(7, 64, 96), &named);
    assert_eq!(result, 0);
    assert_eq!(asked[2], Request::WriteAddress(peer(), 64, 96));
    let failed = [Reply::File(UDP), Reply::Named(Err(NetError::NotConnected))];
    assert_eq!(value(syscall_get_sock_name(7, 64, 96), &failed), -1);
}

#[test]
fn getpeername_checks_its_room() {
    let call = || syscall_getpeername(7, 64, 96);
    let file = Reply::File(TCP);
    let yes = Reply::Usable(true);
    let no = Reply::Usable(false);
    assert_eq!(value(call(), &[file, no]), -14);
    assert_eq!(value(call(), &[file, yes, Reply::Word(0x8000_0000)]), -22);
    assert_eq!(value(call(), &[file, yes, Reply::Word(u32::MAX)]), -22);
    assert_eq!(value(call(), &[file, yes, Reply::Word(16), no]), -14);
    let lonely = Reply::Named(Err(NetError::NotConnected));
    assert_eq!(value(call(), &[file, yes, Reply::Word(16), yes, lonely]), -107);
    let (result, asked) = run(
        call(),
        &[file, yes, Reply::Word(i32::MAX as u32), yes, Reply::Named(Ok(peer())), Reply::Done],
    );
    assert_eq!(result, 0);
    assert_eq!(
        asked,
        vec![
            Request::LookUp(7),
            Request::CheckWord(96),
            Request::ReadWord(96),
            Request::CheckRange(64, 64 + i32::MAX as usize),
            Request::PeerName,
            Request::WriteAddress(peer(), 64, 96),
        ]
    );
}

#[test]
fn getpeername_goes_on_with_no_other_error() {
    let mut step = syscall_getpeername(7, 64, 96);
    for reply in [Reply::File(TCP), Reply::Usable(true), Reply::Word(8), Reply::Usable(true)] {
        step = match step {
            Step::Ask(dialogue) => dialogue.resume(reply),
            Step::Return(_) => unreachable!(),
        };
    }
    match step {
        Step::Ask(dialogue) => {
            assert_eq!(dialogue.request(), Request::PeerName);
            assert!(!dialogue.admits(&Reply::Named(Err(NetError::Interrupted))));
            assert!(dialogue.admits(&Reply::Named(Err(NetError::NotConnected))));
        }
        Step::Return(_) => unreachable!(),
    }
}

#[test]
fn sendto_sends_on_a_connection() {
    let (result, asked) = run(
        syscall_sendto(7, 64, 5, 0, 0, 0),
        &[Reply::File(TCP), Reply::Usable(true), Reply::Flag(true), Reply::Count(Ok(5))],
    );
    assert_eq!(result, 5);
    assert_eq!(
        asked,
        vec![
            Request::LookUp(7),
            Request::CheckRange(64, 69),
            Request::Net(NetCall::Tcp(TcpOp::IsConnected)),
            Request::Send(NetCall::Tcp(TcpOp::Send), 64, 5),
        ]
    );
    let idle = [Reply::File(TCP), Reply::Usable(true), Reply::Flag(false)];
    assert_eq!(value(syscall_sendto(7, 64, 5, 0, 0, 16), &idle), -107);
    let addressed = [
        Reply::File(TCP),
        Reply::Usable(true),
        Reply::Usable(true),
        Reply::Address(peer()),
    ];
    assert_eq!(value(syscall_sendto(7, 64, 5, 0, 96, 16), &addressed), -106);
}

#[test]
fn sendto_binds_an_unbound_socket() {
    let (result, asked) = run(
        syscall_sendto(7, 64, 5, 0, 96, 16),
        &[
            Reply::File(UDP),
            Reply::Usable(true),
            Reply::Usable(true),
            Reply::Address(peer()),
            Reply::Named(Err(NetError::NotConnected)),
            Reply::Outcome(Ok(())),
            Reply::Count(Ok(5)),
        ],
    );
    assert_eq!(result, 5);
    assert_eq!(
        asked,
        vec![
            Request::LookUp(7),
            Request::CheckRange(64, 69),
            Request::CheckRange(96, 112),
            Request::ReadAddress(96),
            Request::Net(NetCall::Udp(UdpOp::LocalAddr)),
            Request::Net(NetCall::Udp(UdpOp::Bind(unspecified_address()))),
            Request::Send(NetCall::Udp(UdpOp::SendTo(peer())), 64, 5),
        ]
    );
}

#[test]
fn sendto_needs_a_target() {
    let bound = [Reply::File(UDP), Reply::Usable(true), Reply::Named(Ok(peer()))];
    let lonely = Reply::Named(Err(NetError::NotConnected));
    assert_eq!(
        value(syscall_sendto(7, 64, 5, 0, 96, 0), &[bound[0], bound[1], bound[2], lonely]),
        -107
    );
    let (result, asked) = run(
        syscall_sendto(7, 64, 5, 0, 0, 16),
        &[
            bound[0],
            bound[1],
            bound[2],
            Reply::Named(Ok(peer())),
            Reply::Count(Err(NetError::Interrupted)),
        ],
    );
    assert_eq!(result, -4);
    assert_eq!(asked[4], Request::Send(NetCall::Udp(UdpOp::Send), 64, 5));
}

#[test]
fn sendto_checks_memory() {
    let file = Reply::File(UDP);
    assert_eq!(value(syscall_sendto(7, 0, 5, 0, 0, 0), &[file]), -14);
    assert_eq!(value(syscall_sendto(7, 64, 5, 0, 0, 0), &[file, Reply::Usable(false)]), -14);
    assert_eq!(
        value(
            syscall_sendto(7, 64, 5, 0, 96, 16),
            &[file, Reply::Usable(true), Reply::Usable(false)]
        ),
        -14
    );
    let failed = [
        file,
        Reply::Usable(true),
        Reply::Named(Ok(peer())),
        Reply::Named(Ok(peer())),
        Reply::Count(Err(NetError::WouldBlock)),
    ];
    assert_eq!(value(syscall_sendto(7, 64, 5, 0, 0, 0), &failed), -1);
}

#[test]
fn recvfrom_writes_the_sender() {
    let (result, asked) = run(
        syscall_recvfrom(7, 64, 5, 0, 96, 128),
        &[
            Reply::File(UDP),
            Reply::Usable(true),
            Reply::Word(16),
            Reply::Usable(true),
            Reply::Received(Ok((3, peer()))),
            Reply::Done,
        ],
    );
    assert_eq!(result, 3);
    assert_eq!(
        asked,
        vec![
            Request::LookUp(7),
            Request::CheckAddress(128),
            Request::ReadWord(128),
            Request::CheckRange(96, 112),
            Request::Receive(64, 5),
            Request::WriteAddress(peer(), 96, 128),
        ]
    );
    let got = Reply::Received(Ok((3, peer())));
    assert_eq!(value(syscall_recvfrom(7, 64, 5, 0, 96, 0), &[Reply::File(UDP), got]), 3);
    assert_eq!(
        value(
            syscall_recvfrom(7, 64, 5, 0, 0, 128),
            &[Reply::File(UDP), Reply::Usable(true), got]
        ),
        3
    );
}

#[test]
fn recvfrom_tells_why_nothing_came() {
    let failures = [
        (NetError::ConnectionRefused, 0),
        (NetError::Interrupted, -4),
        (NetError::Timeout, -11),
        (NetError::WouldBlock, -11),
        (NetError::NotConnected, -1),
        (NetError::Other(12), -1),
    ];
    for (error, code) in failures {
        let replies = [Reply::File(TCP), Reply::Received(Err(error))];
        assert_eq!(value(syscall_recvfrom(7, 64, 5, 0, 0, 0), &replies), code);
        let with_room = [
            replies[0],
            Reply::Usable(true),
            Reply::Word(16),
            Reply::Usable(true),
            replies[1],
        ];
        assert_eq!(value(syscall_recvfrom(7, 64, 5, 0, 96, 128), &with_room), code);
    }
    let call = || syscall_recvfrom(7, 64, 5, 0, 96, 128);
    let file = Reply::File(TCP);
    assert_eq!(value(call(), &[file, Reply::Usable(false)]), -14);
    assert_eq!(
        value(call(), &[file, Reply::Usable(true), Reply::Word(16), Reply::Usable(false)]),
        -14
    );
}

#[test]
fn setsockopt_sets() {
    let (result, asked) =
        run(syscall_set_sock_opt(7, 1, 7, 64, 4), &[Reply::File(TCP), Reply::Done]);
    assert_eq!(result, 0);
    assert_eq!(
        asked,
        vec![Request::LookUp(7), Request::SetOption(SocketOption::SO_SNDBUF, 64, 4)]
    );
    let (result, asked) =
        run(syscall_set_sock_opt(7, 6, 1, 64, 4), &[Reply::File(TCP), Reply::Done]);
    assert_eq!(result, 0);
    assert_eq!(asked[1], Request::SetTcpOption(TcpSocketOption::TCP_NODELAY, 64, 4));
}

#[test]
fn setsockopt_passes_over_what_it_does_not_know() {
    for (level, opt_name) in [(0, 1), (1, 99), (6, 99)] {
        let (result, asked) =
            run(syscall_set_sock_opt(7, level, opt_name, 64, 4), &[Reply::File(TCP)]);
        assert_eq!(result, 0);
        assert_eq!(asked, vec![Request::LookUp(7)]);
    }
}

#[test]
fn getsockopt_gets() {
    let checked =
        [Reply::File(TCP), Reply::Usable(true), Reply::Word(4), Reply::Usable(true)];
    let done = [checked[0], checked[1], checked[2], checked[3], Reply::Done];
    let (result, asked) = run(syscall_get_sock_opt(7, 1, 8, 64, 96), &done);
    assert_eq!(result, 0);
    assert_eq!(
        asked,
        vec![
            Request::LookUp(7),
            Request::CheckWord(96),
            Request::ReadWord(96),
            Request::CheckRange(64, 68),
            Request::GetOption(SocketOption::SO_RCVBUF, 64, 96),
        ]
    );
    let (result, asked) = run(syscall_get_sock_opt(7, 6, 13, 64, 96), &done);
    assert_eq!(result, 0);
    assert_eq!(asked[4], Request::GetTcpOption(TcpSocketOption::TCP_CONGESTION, 64, 96));
    assert_eq!(value(syscall_get_sock_opt(7, 6, 11, 64, 96), &checked), -92);
    assert_eq!(value(syscall_get_sock_opt(7, 0, 3, 64, 96), &checked), 0);
}

#[test]
fn getsockopt_checks_memory() {
    assert_eq!(syscall_get_sock_opt(7, 1, 2, 0, 96), Step::Return(-14));
    assert_eq!(syscall_get_sock_opt(7, 1, 2, 64, 0), Step::Return(-14));
    let file = Reply::File(TCP);
    let call = || syscall_get_sock_opt(7, 1, 99, 64, 96);
    assert_eq!(value(call(), &[file, Reply::Usable(false)]), -14);
    assert_eq!(
        value(call(), &[file, Reply::Usable(true), Reply::Word(4), Reply::Usable(false)]),
        -14
    );
}

#[test]
fn getsockopt_does_not_reach_unknown_options() {
    for (level, opt_name) in [(1, 99), (6, 99)] {
        let mut step = syscall_get_sock_opt(7, level, opt_name, 64, 96);
        for reply in [Reply::File(TCP), Reply::Usable(true), Reply::Word(4)] {
            step = match step {
                Step::Ask(dialogue) => dialogue.resume(reply),
                Step::Return(_) => unreachable!(),
            };
        }
        match step {
            Step::Ask(dialogue) => {
                assert!(!dialogue.admits(&Reply::Usable(true)));
                assert!(dialogue.admits(&Reply::Usable(false)));
            }
            Step::Return(_) => unreachable!(),
        }
    }
}

#[test]
fn shutdown_shuts() {
    let file = Reply::File(TCP);
    assert_eq!(run(syscall_shutdown(7, 0), &[file]), (0, vec![Request::LookUp(7)]));
    assert_eq!(
        run(syscall_shutdown(7, 1), &[file, Reply::Done]),
        (0, vec![Request::LookUp(7), Request::Shutdown])
    );
    assert_eq!(
        run(syscall_shutdown(7, 2), &[file, Reply::Done]),
        (0, vec![Request::LookUp(7), Request::Abort])
    );
    assert_eq!(value(syscall_shutdown(7, 3), &[file]), -22);
}

#[test]
fn replies_of_the_wrong_kind_are_not_admitted() {
    match syscall_listen(7, 0) {
        Step::Ask(dialogue) => {
            assert!(!dialogue.admits(&Reply::Done));
            assert!(!dialogue.admits(&Reply::Outcome(Ok(()))));
            assert!(dialogue.admits(&Reply::File(FileRef::Missing)));
        }
        Step::Return(_) => unreachable!(),
    }
}
