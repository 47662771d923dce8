//! Which replies the system calls go on with.
use vstd::prelude::*;

use crate::dialogue::{Dialogue, Reply};
use crate::errno::NetError;
use crate::kinds::SocketOptionLevel;
use crate::syscall::name::{Bind, Connect, GetPeerName, GetSockName, Listen};
use crate::syscall::open::{Accept4, Opening};
use crate::syscall::option::{GetSockOpt, SetSockOpt};
use crate::syscall::shutdown::ShuttingDown;
use crate::syscall::transfer::{RecvFrom, SendTo};

verus! {

/// Law: `socket` and `accept4` go on with every reply of the kind that they ask for,
/// and with no other.
pub proof fn making_goes_on(opening: Opening, accept: Accept4, reply: Reply)
    ensures
        opening.accepts(reply) <==> match opening {
            Opening::Making { .. } => reply is Done,
            Opening::Unblocking { .. } => reply is Done,
            Opening::Allocating { .. } => reply is Descriptor,
            Opening::Installing { .. } => reply is Done,
        },
        accept.accepts(reply) <==> match accept {
            Accept4::LookingUp { .. } => reply is File,
            Accept4::Accepting { .. } => reply is Named,
            Accept4::Writing { .. } => reply is Done,
            Accept4::Allocating { .. } => reply is Descriptor,
            Accept4::Unblocking { .. } => reply is Done,
            Accept4::Installing { .. } => reply is Done,
        },
{
}

/// Law: `bind`, `listen`, `connect` and `getsockname` go on with every reply of the kind
/// that they ask for, and with no other.
pub proof fn naming_goes_on(
    bind: Bind,
    listen: Listen,
    connect: Connect,
    name: GetSockName,
    reply: Reply,
)
    ensures
        bind.accepts(reply) <==> match bind {
            Bind::LookingUp { .. } => reply is File,
            Bind::Reading { .. } => reply is Address,
            Bind::Binding { .. } => reply is Outcome,
        },
        listen.accepts(reply) <==> match listen {
            Listen::LookingUp { .. } => reply is File,
            Listen::Listening => reply is Outcome,
        },
        connect.accepts(reply) <==> match connect {
            Connect::LookingUp { .. } => reply is File,
            Connect::Reading { .. } => reply is Address,
            Connect::Connecting { .. } => reply is Outcome,
        },
        name.accepts(reply) <==> match name {
            GetSockName::LookingUp { .. } => reply is File,
            GetSockName::Naming { .. } => reply is Named,
            GetSockName::Writing { .. } => reply is Done,
        },
{
}

/// Law: `getpeername` goes on with every reply of the kind that it asks for, but for
/// errors other than that the socket is not connected, and with no other.
pub proof fn getpeername_goes_on(peer: GetPeerName, reply: Reply)
    ensures
        peer.accepts(reply) <==> match peer {
            GetPeerName::LookingUp { .. } => reply is File,
            GetPeerName::CheckingLen { .. } => reply is Usable,
            GetPeerName::ReadingLen { .. } => reply is Word,
            GetPeerName::CheckingBuf { .. } => reply is Usable,
            GetPeerName::Naming { .. } => reply matches Reply::Named(named) && (named matches Err(
                error,
            ) ==> error == NetError::NotConnected),
            GetPeerName::Writing { .. } => reply is Done,
        },
{
}

/// Law: `sendto` goes on with every reply of the kind that it asks for, but for a
/// failure to bind, and `recvfrom` with every one; neither with any other.
pub proof fn transfer_goes_on(send: SendTo, receive: RecvFrom, reply: Reply)
    ensures
        send.accepts(reply) <==> match send {
            SendTo::LookingUp { .. } => reply is File,
            SendTo::CheckingBuf { .. } => reply is Usable,
            SendTo::CheckingAddr { .. } => reply is Usable,
            SendTo::ReadingAddr { .. } => reply is Address,
            SendTo::FindingLocal { .. } => reply is Named,
            SendTo::Binding { .. } => reply matches Reply::Outcome(bound) && bound is Ok,
            SendTo::FindingPeer { .. } => reply is Named,
            SendTo::FindingConnection { .. } => reply is Flag,
            SendTo::Sending { .. } => reply is Count,
        },
        receive.accepts(reply) <==> match receive {
            RecvFrom::LookingUp { .. } => reply is File,
            RecvFrom::CheckingLen { .. } => reply is Usable,
            RecvFrom::ReadingLen { .. } => reply is Word,
            RecvFrom::CheckingBuf { .. } => reply is Usable,
            RecvFrom::Receiving { .. } => reply is Received,
            RecvFrom::Writing { .. } => reply is Done,
        },
{
}

/// Law: `setsockopt` and `shutdown` go on with every reply of the kind that they ask
/// for, and `getsockopt` too, but that memory which can be used must not lead to an
/// option that is not known; none of them with any other.
pub proof fn setting_goes_on(
    set: SetSockOpt,
    get: GetSockOpt,
    shutting: ShuttingDown,
    reply: Reply,
)
    ensures
        set.accepts(reply) <==> match set {
            SetSockOpt::LookingUp { .. } => reply is File,
            SetSockOpt::Setting { .. } => reply is Done,
            SetSockOpt::SettingTcp { .. } => reply is Done,
        },
        get.accepts(reply) <==> match get {
            GetSockOpt::LookingUp { .. } => reply is File,
            GetSockOpt::CheckingLen { .. } => reply is Usable,
            GetSockOpt::ReadingLen { .. } => reply is Word,
            GetSockOpt::CheckingValue { level, opt_name, .. } => {
                let known = match level {
                    SocketOptionLevel::IP => true,
                    SocketOptionLevel::SOCKET => opt_name == 2 || opt_name == 4 || opt_name == 5
                        || opt_name == 7 || opt_name == 8 || opt_name == 9 || opt_name == 20,
                    SocketOptionLevel::TCP => opt_name == 1 || opt_name == 2 || opt_name == 11
                        || opt_name == 13,
                };
                reply matches Reply::Usable(usable) && (usable ==> known)
            },
            GetSockOpt::Getting { .. } => reply is Done,
            GetSockOpt::GettingTcp { .. } => reply is Done,
        },
        shutting.accepts(reply) <==> match shutting {
            ShuttingDown::LookingUp { .. } => reply is File,
            ShuttingDown::Closing => reply is Done,
            ShuttingDown::Aborting => reply is Done,
        },
{
}

} // verus!
