//! Work that alternates with the outside: the library decides what is to be
//! done, and whoever drives it does it and hands back what came of it.
//!
//! A [`Dialogue`] is such work, stopped at something to be done. What it asks for
//! is its [`Request`]; the matching [`Reply`] takes it one [`Step`] further, to
//! its result or to the next request.
use vstd::prelude::*;

use crate::addr::SocketAddr;
use crate::errno::NetError;
use crate::kinds::{Domain, SocketOption, SocketType, TcpSocketOption};
use crate::net::{NetCall, SocketInner, TcpOp, UdpOp};

verus! {

/// What a file descriptor of the calling process stands for.
#[derive(Clone, Copy, PartialEq, Eq, Structural, Debug)]
pub enum FileRef {
    /// No open file.
    Missing,
    /// An open file that is no socket.
    NotSocket,
    /// A socket, and the protocol behind it.
    Socket(SocketInner),
}

/// Something to be done outside the library.
///
/// Where a request speaks of *the socket*, it is the one that was looked up;
/// *the new socket* is the one that was opened or accepted and is not yet in the
/// process's table of files.
#[derive(Clone, Copy, PartialEq, Eq, Debug)]
pub enum Request {
    /// Look up a file descriptor. Reply: `File`.
    LookUp(usize),
    /// Make sure that the 32-bit word at an address can be used. Reply: `Usable`.
    CheckWord(usize),
    /// Make sure that an address can be used. Reply: `Usable`.
    CheckAddress(usize),
    /// Make sure that the addresses from the first up to the second can be used.
    /// Reply: `Usable`.
    CheckRange(usize, usize),
    /// Read the 32-bit word at an address. Reply: `Word`.
    ReadWord(usize),
    /// Read the socket address that lies at an address. Reply: `Address`.
    ReadAddress(usize),
    /// Write a socket address to the first address; the word at the second tells
    /// the room there, and is set to the length of a whole address. Reply: `Done`.
    WriteAddress(SocketAddr, usize, usize),
    /// Make a new socket. Reply: `Done`.
    Open(Domain, SocketType),
    /// Let the new socket not block. Reply: `Done`.
    MakeNonblocking,
    /// Take a free file descriptor. Reply: `Descriptor`.
    AllocateDescriptor,
    /// Put the new socket behind a file descriptor, and mark it to be closed when
    /// another program is executed, if so told. Reply: `Done`.
    Install(usize, bool),
    /// Bind the socket to an address. Reply: `Outcome`.
    Bind(SocketAddr),
    /// Let the socket listen. Reply: `Outcome`.
    Listen,
    /// Accept a connection on the socket; a connection is the new socket. Reply:
    /// `Named`, with the peer's address.
    Accept,
    /// Connect the socket to an address. Reply: `Outcome`.
    Connect(SocketAddr),
    /// Tell the address that the socket is bound to. Reply: `Named`.
    Name,
    /// Tell the address of the socket's peer. Reply: `Named`.
    PeerName,
    /// Receive into the bytes at an address, as many as told. Reply: `Received`.
    Receive(usize, usize),
    /// Set an option of the socket from the bytes at an address, as many as told.
    /// Reply: `Done`.
    SetOption(SocketOption, usize, u32),
    /// The same for an option of the TCP layer. Reply: `Done`.
    SetTcpOption(TcpSocketOption, usize, u32),
    /// Write an option of the socket to the first address; the word at the second
    /// tells the room there, and is set to the option's length. Reply: `Done`.
    GetOption(SocketOption, usize, usize),
    /// The same for an option of the TCP layer. Reply: `Done`.
    GetTcpOption(TcpSocketOption, usize, usize),
    /// Shut down the sending side of the socket. Reply: `Done`.
    Shutdown,
    /// Shut down both sides of the socket. Reply: `Done`.
    Abort,
    /// Call an operation of the protocol behind the socket. Reply: what the
    /// operation gives.
    Net(NetCall),
    /// Call an operation of the protocol behind the socket, which sends the bytes
    /// at an address, as many as told. Reply: `Count`.
    Send(NetCall, usize, usize),
    /// Tell the address of the peer that a connection was accepted from. Reply:
    /// `Named`.
    AcceptedPeer,
}

/// What came of a request.
#[derive(Clone, Copy, PartialEq, Eq, Debug)]
pub enum Reply {
    /// It was done.
    Done,
    /// What a file descriptor stands for.
    File(FileRef),
    /// Whether the addresses can be used.
    Usable(bool),
    /// The word that was read.
    Word(u32),
    /// The socket address that was read.
    Address(SocketAddr),
    /// The file descriptor, where one was free.
    Descriptor(Option<usize>),
    /// The answer to a question.
    Flag(bool),
    /// Whether the operation succeeded.
    Outcome(Result<(), NetError>),
    /// The address that was asked for.
    Named(Result<SocketAddr, NetError>),
    /// How many bytes were sent or received.
    Count(Result<usize, NetError>),
    /// How many bytes were received, and from where.
    Received(Result<(usize, SocketAddr), NetError>),
}

/// Whether `reply` is of the kind that `request` calls for.
pub open spec fn answers(request: Request, reply: Reply) -> bool {
    match request {
        Request::LookUp(_) => reply is File,
        Request::CheckWord(_) => reply is Usable,
        Request::CheckAddress(_) => reply is Usable,
        Request::CheckRange(_, _) => reply is Usable,
        Request::ReadWord(_) => reply is Word,
        Request::ReadAddress(_) => reply is Address,
        Request::AllocateDescriptor => reply is Descriptor,
        Request::Bind(_) => reply is Outcome,
        Request::Listen => reply is Outcome,
        Request::Connect(_) => reply is Outcome,
        Request::Accept => reply is Named,
        Request::AcceptedPeer => reply is Named,
        Request::Name => reply is Named,
        Request::PeerName => reply is Named,
        Request::Receive(_, _) => reply is Received,
        Request::Send(_, _, _) => reply is Count,
        Request::Net(NetCall::Tcp(op)) => match op {
            TcpOp::IsNonblocking => reply is Flag,
            TcpOp::IsConnected => reply is Flag,
            TcpOp::NagleEnabled => reply is Flag,
            TcpOp::LocalAddr => reply is Named,
            TcpOp::PeerAddr => reply is Named,
            TcpOp::Bind(_) => reply is Outcome,
            TcpOp::Listen => reply is Outcome,
            TcpOp::Accept => reply is Outcome,
            TcpOp::Connect(_) => reply is Outcome,
            TcpOp::Send => reply is Count,
            TcpOp::Recv(_) => reply is Count,
            TcpOp::Read => reply is Count,
            TcpOp::Write => reply is Count,
            _ => reply is Done,
        },
        Request::Net(NetCall::Udp(op)) => match op {
            UdpOp::IsNonblocking => reply is Flag,
            UdpOp::IsOpen => reply is Flag,
            UdpOp::LocalAddr => reply is Named,
            UdpOp::PeerAddr => reply is Named,
            UdpOp::Bind(_) => reply is Outcome,
            UdpOp::Connect(_) => reply is Outcome,
            UdpOp::Send => reply is Count,
            UdpOp::SendTo(_) => reply is Count,
            UdpOp::RecvFrom(_) => reply is Received,
            UdpOp::Read => reply is Count,
            UdpOp::Write => reply is Count,
            _ => reply is Done,
        },
        _ => reply is Done,
    }
}

/// How far a dialogue has come.
#[derive(PartialEq, Eq, Debug)]
pub enum Step<D, T> {
    /// It is over, with this result.
    Return(T),
    /// It goes on once the request of this dialogue has its reply.
    Ask(D),
}

/// Work that is stopped at a request.
pub trait Dialogue: Sized {
    /// What the work results in.
    type Output;

    /// The request that the dialogue is stopped at.
    spec fn asks(self) -> Request;

    /// The replies with which the dialogue can go on.
    spec fn accepts(self, reply: Reply) -> bool;

    /// Where a reply takes the dialogue.
    spec fn next(self, reply: Reply) -> Step<Self, Self::Output>;

    /// A bound on the number of requests that can follow this one.
    spec fn rank(self) -> nat;

    /// Law: a dialogue goes on with no reply but of the kind that its request
    /// calls for, and each reply leaves fewer requests.
    proof fn advances(self, reply: Reply)
        ensures
            self.accepts(reply) ==> answers(self.asks(), reply),
            self.next(reply) matches Step::Ask(after) ==> after.rank() < self.rank(),
    ;

    /// What is to be done now.
    fn request(&self) -> (request: Request)
        ensures
            request == self.asks(),
    ;

    /// Whether the dialogue can go on with a reply.
    fn admits(&self, reply: &Reply) -> (admitted: bool)
        ensures
            admitted == self.accepts(*reply),
    ;

    /// Goes on with the reply to the request.
    fn resume(self, reply: Reply) -> (step: Step<Self, Self::Output>)
        requires
            self.accepts(reply),
        ensures
            step == self.next(reply),
    ;
}

/// The requests left from `step` on, at most.
pub open spec fn steps_left<D: Dialogue>(step: Step<D, D::Output>) -> nat {
    match step {
        Step::Return(_) => 0,
        Step::Ask(dialogue) => dialogue.rank() + 1,
    }
}

/// The result of a dialogue from `step` on, where `world` tells the reply that
/// each of its requests gets.
pub open spec fn outcome<D: Dialogue>(
    step: Step<D, D::Output>,
    world: spec_fn(D) -> Reply,
) -> D::Output
    decreases steps_left(step),
{
    match step {
        Step::Return(result) => result,
        Step::Ask(dialogue) => {
            proof {
                dialogue.advances(world(dialogue));
            }
            outcome(dialogue.next(world(dialogue)), world)
        },
    }
}

/// The requests of a dialogue from `step` on, in their order, where `world` tells
/// the reply that each of them gets.
pub open spec fn requests<D: Dialogue>(
    step: Step<D, D::Output>,
    world: spec_fn(D) -> Reply,
) -> Seq<Request>
    decreases steps_left(step),
{
    match step {
        Step::Return(_) => Seq::empty(),
        Step::Ask(dialogue) => {
            proof {
                dialogue.advances(world(dialogue));
            }
            seq![dialogue.asks()] + requests(dialogue.next(world(dialogue)), world)
        },
    }
}

/// Law: a dialogue comes to its result, after no more requests than its bound
/// allows, whatever the replies are.
pub proof fn dialogue_ends<D: Dialogue>(step: Step<D, D::Output>, world: spec_fn(D) -> Reply)
    ensures
        requests(step, world).len() <= steps_left(step),
    decreases steps_left(step),
{
    if let Step::Ask(dialogue) = step {
        dialogue.advances(world(dialogue));
        dialogue_ends(dialogue.next(world(dialogue)), world);
    }
}

} // verus!
