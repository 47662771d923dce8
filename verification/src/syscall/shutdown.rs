//! Ending a connection: `shutdown`.
use vstd::prelude::*;

use crate::dialogue::{outcome, requests, Dialogue, FileRef, Reply, Request, Step};
use crate::errno::{ErrorNo, FAILURE};
use crate::kinds::SocketShutdown;

verus! {

/// `shutdown`, stopped at a request.
#[derive(Clone, Copy, PartialEq, Eq, Structural, Debug)]
pub enum ShuttingDown {
    /// The file descriptor is looked up.
    LookingUp { fd: usize, how: usize },
    /// The sending side is shut down.
    Closing,
    /// Both sides are shut down.
    Aborting,
}

impl Dialogue for ShuttingDown {
    type Output = isize;

    open spec fn asks(self) -> Request {
        match self {
            ShuttingDown::LookingUp { fd, .. } => Request::LookUp(fd),
            ShuttingDown::Closing => Request::Shutdown,
            ShuttingDown::Aborting => Request::Abort,
        }
    }

    open spec fn accepts(self, reply: Reply) -> bool {
        match self {
            ShuttingDown::LookingUp { .. } => reply is File,
            ShuttingDown::Closing => reply is Done,
            ShuttingDown::Aborting => reply is Done,
        }
    }

    open spec fn next(self, reply: Reply) -> Step<ShuttingDown, isize> {
        match (self, reply) {
            (ShuttingDown::LookingUp { how, .. }, Reply::File(file)) => match file {
                FileRef::Missing => Step::Return(ErrorNo::EBADF.code()),
                FileRef::NotSocket => Step::Return(ErrorNo::ENOTSOCK.code()),
                FileRef::Socket(_) => match SocketShutdown::of_number(how) {
                    None => Step::Return(ErrorNo::EINVAL.code()),
                    Some(SocketShutdown::Read) => Step::Return(0),
                    Some(SocketShutdown::Write) => Step::Ask(ShuttingDown::Closing),
                    Some(SocketShutdown::ReadWrite) => Step::Ask(ShuttingDown::Aborting),
                },
            },
            (ShuttingDown::Closing, Reply::Done) => Step::Return(0),
            (ShuttingDown::Aborting, Reply::Done) => Step::Return(0),
            _ => Step::Return(FAILURE),
        }
    }

    open spec fn rank(self) -> nat {
        match self {
            ShuttingDown::LookingUp { .. } => 1,
            ShuttingDown::Closing => 0,
            ShuttingDown::Aborting => 0,
        }
    }

    proof fn advances(self, reply: Reply) {
    }

    fn request(&self) -> (request: Request) {
        match *self {
            ShuttingDown::LookingUp { fd, .. } => Request::LookUp(fd),
            ShuttingDown::Closing => Request::Shutdown,
            ShuttingDown::Aborting => Request::Abort,
        }
    }

    fn admits(&self, reply: &Reply) -> (admitted: bool) {
        match (*self, *reply) {
            (ShuttingDown::LookingUp { .. }, Reply::File(_)) => true,
            (ShuttingDown::Closing, Reply::Done) => true,
            (ShuttingDown::Aborting, Reply::Done) => true,
            _ => false,
        }
    }

    fn resume(self, reply: Reply) -> (step: Step<ShuttingDown, isize>) {
        match (self, reply) {
            (ShuttingDown::LookingUp { how, .. }, Reply::File(file)) => match file {
                FileRef::Missing => Step::Return(ErrorNo::EBADF.code()),
                FileRef::NotSocket => Step::Return(ErrorNo::ENOTSOCK.code()),
                FileRef::Socket(_) => match SocketShutdown::try_from(how) {
                    Err(_) => Step::Return(ErrorNo::EINVAL.code()),
                    Ok(SocketShutdown::Read) => Step::Return(0),
                    Ok(SocketShutdown::Write) => Step::Ask(ShuttingDown::Closing),
                    Ok(SocketShutdown::ReadWrite) => Step::Ask(ShuttingDown::Aborting),
                },
            },
            (ShuttingDown::Closing, Reply::Done) => Step::Return(0),
            (ShuttingDown::Aborting, Reply::Done) => Step::Return(0),
            _ => Step::Return(FAILURE),
        }
    }
}

/// What the outside gives, while `shutdown` runs.
pub struct ShutdownWorld {
    /// What the file descriptor stands for.
    pub file: FileRef,
}

impl ShutdownWorld {
    /// The reply that each request gets.
    pub open spec fn reply(self, dialogue: ShuttingDown) -> Reply {
        match dialogue {
            ShuttingDown::LookingUp { .. } => Reply::File(self.file),
            _ => Reply::Done,
        }
    }

    /// What the call results in from `step` on.
    pub open spec fn result(self, step: Step<ShuttingDown, isize>) -> isize {
        outcome(step, |dialogue: ShuttingDown| self.reply(dialogue))
    }

    /// What the call asks for from `step` on.
    pub open spec fn requests(self, step: Step<ShuttingDown, isize>) -> Seq<Request> {
        requests(step, |dialogue: ShuttingDown| self.reply(dialogue))
    }

    /// What the call has to result in.
    pub open spec fn value(self, how: usize) -> isize {
        match (self.file, SocketShutdown::of_number(how)) {
            (FileRef::Missing, _) => ErrorNo::EBADF.code(),
            (FileRef::NotSocket, _) => ErrorNo::ENOTSOCK.code(),
            (FileRef::Socket(_), None) => ErrorNo::EINVAL.code(),
            (FileRef::Socket(_), Some(_)) => 0,
        }
    }
}

/// Shuts down the side of a socket that `how` names. Shutting down the receiving
/// side alone does nothing.
pub fn syscall_shutdown(fd: usize, how: usize) -> (step: Step<ShuttingDown, isize>)
    ensures
        step == Step::<ShuttingDown, isize>::Ask(ShuttingDown::LookingUp { fd, how }),
        forall|world: ShutdownWorld| #[trigger] world.result(step) == world.value(how),
{
    let dialogue: ShuttingDown = ShuttingDown::LookingUp { fd, how };
    proof {
        assert forall|world: ShutdownWorld| #[trigger]
            world.result(Step::<ShuttingDown, isize>::Ask(dialogue)) == world.value(how) by {
            reveal_with_fuel(outcome, 4);
        }
    }
    Step::Ask(dialogue)
}

/// Law: `shutdown` shuts a socket down as it was told to, and nothing else.
pub proof fn shutdown_shuts_once(fd: usize, how: usize, world: ShutdownWorld)
    ensures
        world.requests(
            Step::<ShuttingDown, isize>::Ask(ShuttingDown::LookingUp { fd, how }),
        ) == match (world.file, SocketShutdown::of_number(how)) {
            (FileRef::Socket(_), Some(SocketShutdown::Write)) => seq![
                Request::LookUp(fd),
                Request::Shutdown,
            ],
            (FileRef::Socket(_), Some(SocketShutdown::ReadWrite)) => seq![
                Request::LookUp(fd),
                Request::Abort,
            ],
            _ => seq![Request::LookUp(fd)],
        },
{
    reveal_with_fuel(requests, 4);
}

} // verus!
