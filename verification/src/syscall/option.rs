//! Setting and getting options: `setsockopt` and `getsockopt`.
use vstd::prelude::*;

use crate::dialogue::{outcome, requests, Dialogue, FileRef, Reply, Request, Step};
use crate::errno::{ErrorNo, FAILURE};
use crate::kinds::{SocketOption, SocketOptionLevel, TcpSocketOption};
use crate::net::SocketInner;

verus! {

/// `setsockopt`, stopped at a request.
#[derive(Clone, Copy, PartialEq, Eq, Structural, Debug)]
pub enum SetSockOpt {
    /// The file descriptor is looked up.
    LookingUp {
        fd: usize,
        level: SocketOptionLevel,
        opt_name: usize,
        opt_value: usize,
        opt_len: u32,
    },
    /// An option of the socket layer is set.
    Setting { option: SocketOption, opt_value: usize, opt_len: u32 },
    /// An option of the TCP layer is set.
    SettingTcp { tcp_option: TcpSocketOption, opt_value: usize, opt_len: u32 },
}

impl SetSockOpt {
    /// How setting the option goes on once the socket is found. An option that is
    /// not known is passed over.
    pub open spec fn found(
        level: SocketOptionLevel,
        opt_name: usize,
        opt_value: usize,
        opt_len: u32,
    ) -> Step<SetSockOpt, isize> {
        match level {
            SocketOptionLevel::IP => Step::Return(0),
            SocketOptionLevel::SOCKET => match SocketOption::of_number(opt_name) {
                None => Step::Return(0),
                Some(option) => Step::Ask(SetSockOpt::Setting { option, opt_value, opt_len }),
            },
            SocketOptionLevel::TCP => match TcpSocketOption::of_number(opt_name) {
                None => Step::Return(0),
                Some(tcp_option) => Step::Ask(
                    SetSockOpt::SettingTcp { tcp_option, opt_value, opt_len },
                ),
            },
        }
    }

    fn go_found(
        level: SocketOptionLevel,
        opt_name: usize,
        opt_value: usize,
        opt_len: u32,
    ) -> (step: Step<SetSockOpt, isize>)
        ensures
            step == SetSockOpt::found(level, opt_name, opt_value, opt_len),
    {
        match level {
            SocketOptionLevel::IP => Step::Return(0),
            SocketOptionLevel::SOCKET => match SocketOption::try_from(opt_name) {
                Err(_) => Step::Return(0),
                Ok(option) => Step::Ask(SetSockOpt::Setting { option, opt_value, opt_len }),
            },
            SocketOptionLevel::TCP => match TcpSocketOption::try_from(opt_name) {
                Err(_) => Step::Return(0),
                Ok(tcp_option) => Step::Ask(
                    SetSockOpt::SettingTcp { tcp_option, opt_value, opt_len },
                ),
            },
        }
    }
}

impl Dialogue for SetSockOpt {
    type Output = isize;

    open spec fn asks(self) -> Request {
        match self {
            SetSockOpt::LookingUp { fd, .. } => Request::LookUp(fd),
            SetSockOpt::Setting { option, opt_value, opt_len } => Request::SetOption(
                option,
                opt_value,
                opt_len,
            ),
            SetSockOpt::SettingTcp { tcp_option, opt_value, opt_len } => Request::SetTcpOption(
                tcp_option,
                opt_value,
                opt_len,
            ),
        }
    }

    open spec fn accepts(self, reply: Reply) -> bool {
        match self {
            SetSockOpt::LookingUp { .. } => reply is File,
            SetSockOpt::Setting { .. } => reply is Done,
            SetSockOpt::SettingTcp { .. } => reply is Done,
        }
    }

    open spec fn next(self, reply: Reply) -> Step<SetSockOpt, isize> {
        match (self, reply) {
            (
                SetSockOpt::LookingUp { level, opt_name, opt_value, opt_len, .. },
                Reply::File(file),
            ) => match file {
                FileRef::Missing => Step::Return(ErrorNo::EBADF.code()),
                FileRef::NotSocket => Step::Return(ErrorNo::ENOTSOCK.code()),
                FileRef::Socket(_) => SetSockOpt::found(level, opt_name, opt_value, opt_len),
            },
            _ => Step::Return(0),
        }
    }

    open spec fn rank(self) -> nat {
        match self {
            SetSockOpt::LookingUp { .. } => 1,
            _ => 0,
        }
    }

    proof fn advances(self, reply: Reply) {
    }

    fn request(&self) -> (request: Request) {
        match *self {
            SetSockOpt::LookingUp { fd, .. } => Request::LookUp(fd),
            SetSockOpt::Setting { option, opt_value, opt_len } => Request::SetOption(
                option,
                opt_value,
                opt_len,
            ),
            SetSockOpt::SettingTcp { tcp_option, opt_value, opt_len } => Request::SetTcpOption(
                tcp_option,
                opt_value,
                opt_len,
            ),
        }
    }

    fn admits(&self, reply: &Reply) -> (admitted: bool) {
        match (*self, *reply) {
            (SetSockOpt::LookingUp { .. }, Reply::File(_)) => true,
            (SetSockOpt::Setting { .. }, Reply::Done) => true,
            (SetSockOpt::SettingTcp { .. }, Reply::Done) => true,
            _ => false,
        }
    }

    fn resume(self, reply: Reply) -> (step: Step<SetSockOpt, isize>) {
        match (self, reply) {
            (
                SetSockOpt::LookingUp { level, opt_name, opt_value, opt_len, .. },
                Reply::File(file),
            ) => match file {
                FileRef::Missing => Step::Return(ErrorNo::EBADF.code()),
                FileRef::NotSocket => Step::Return(ErrorNo::ENOTSOCK.code()),
                FileRef::Socket(_) => SetSockOpt::go_found(level, opt_name, opt_value, opt_len),
            },
            _ => Step::Return(0),
        }
    }
}

/// What the outside gives, while `setsockopt` runs.
pub struct SetSockOptWorld {
    /// What the file descriptor stands for.
    pub file: FileRef,
    /// The bytes that the option is to be set to.
    pub value: Seq<u8>,
}

impl SetSockOptWorld {
    /// The reply that each request gets.
    pub open spec fn reply(self, dialogue: SetSockOpt) -> Reply {
        match dialogue {
            SetSockOpt::LookingUp { .. } => Reply::File(self.file),
            _ => Reply::Done,
        }
    }

    /// What the call results in from `step` on.
    pub open spec fn result(self, step: Step<SetSockOpt, isize>) -> isize {
        outcome(step, |dialogue: SetSockOpt| self.reply(dialogue))
    }

    /// What the call asks for from `step` on.
    pub open spec fn requests(self, step: Step<SetSockOpt, isize>) -> Seq<Request> {
        requests(step, |dialogue: SetSockOpt| self.reply(dialogue))
    }

    /// Whether the call comes to a result: an option that is known has to be one that
    /// can be set to the bytes that are given, on the socket that is found.
    pub open spec fn settles(
        self,
        level: SocketOptionLevel,
        opt_name: usize,
        opt_len: u32,
    ) -> bool {
        match (self.file, level) {
            (FileRef::Socket(_), SocketOptionLevel::SOCKET) => {
                SocketOption::of_number(opt_name) matches Some(option) ==> self.value.len()
                    == opt_len && option.settable(self.value)
            },
            (FileRef::Socket(inner), SocketOptionLevel::TCP) => {
                TcpSocketOption::of_number(opt_name) matches Some(option) ==> self.value.len()
                    == opt_len && inner == SocketInner::Tcp && option.settable(self.value)
            },
            _ => true,
        }
    }
}

/// The request that sets an option, if it is known.
pub open spec fn setting_of(
    level: SocketOptionLevel,
    opt_name: usize,
    opt_value: usize,
    opt_len: u32,
) -> Seq<Request> {
    match (level, SocketOption::of_number(opt_name), TcpSocketOption::of_number(opt_name)) {
        (SocketOptionLevel::SOCKET, Some(option), _) => seq![
            Request::SetOption(option, opt_value, opt_len),
        ],
        (SocketOptionLevel::TCP, _, Some(option)) => seq![
            Request::SetTcpOption(option, opt_value, opt_len),
        ],
        _ => Seq::empty(),
    }
}

/// Sets an option of a socket to the `opt_len` bytes at `opt_value`. The level has
/// to be one that is known; an option that is not known at its level, and any
/// option of the level `IP`, is passed over. An option that is known has to be one
/// that can be set to these bytes on this socket.
pub fn syscall_set_sock_opt(
    fd: usize,
    level: usize,
    opt_name: usize,
    opt_value: usize,
    opt_len: u32,
) -> (step: Step<SetSockOpt, isize>)
    requires
        SocketOptionLevel::of_number(level) is Some,
    ensures
        step == Step::<SetSockOpt, isize>::Ask(
            SetSockOpt::LookingUp {
                fd,
                level: SocketOptionLevel::of_number(level).unwrap(),
                opt_name,
                opt_value,
                opt_len,
            },
        ),
        forall|world: SetSockOptWorld|
            world.settles(SocketOptionLevel::of_number(level).unwrap(), opt_name, opt_len)
                ==> #[trigger] world.result(step) == match world.file {
                FileRef::Missing => ErrorNo::EBADF.code(),
                FileRef::NotSocket => ErrorNo::ENOTSOCK.code(),
                FileRef::Socket(_) => 0,
            },
{
    let known: SocketOptionLevel = match SocketOptionLevel::try_from(level) {
        Ok(known) => known,
        Err(_) => SocketOptionLevel::IP,
    };
    let dialogue: SetSockOpt = SetSockOpt::LookingUp {
        fd,
        level: known,
        opt_name,
        opt_value,
        opt_len,
    };
    proof {
        assert forall|world: SetSockOptWorld| #[trigger]
            world.result(Step::<SetSockOpt, isize>::Ask(dialogue)) == match world.file {
                FileRef::Missing => ErrorNo::EBADF.code(),
                FileRef::NotSocket => ErrorNo::ENOTSOCK.code(),
                FileRef::Socket(_) => 0,
            } by {
            reveal_with_fuel(outcome, 4);
        }
    }
    Step::Ask(dialogue)
}

/// Law: `setsockopt` sets the option that it was told to on a socket, from the
/// bytes that it was told to, if the option is known, and sets nothing otherwise.
pub proof fn setsockopt_sets_once(
    fd: usize,
    level: SocketOptionLevel,
    opt_name: usize,
    opt_value: usize,
    opt_len: u32,
    world: SetSockOptWorld,
)
    ensures
        world.requests(
            Step::<SetSockOpt, isize>::Ask(
                SetSockOpt::LookingUp { fd, level, opt_name, opt_value, opt_len },
            ),
        ) == if world.file is Socket {
            seq![Request::LookUp(fd)] + setting_of(level, opt_name, opt_value, opt_len)
        } else {
            seq![Request::LookUp(fd)]
        },
{
    reveal_with_fuel(requests, 4);
}

/// `getsockopt`, stopped at a request.
#[derive(Clone, Copy, PartialEq, Eq, Structural, Debug)]
pub enum GetSockOpt {
    /// The file descriptor is looked up.
    LookingUp {
        fd: usize,
        level: SocketOptionLevel,
        opt_name: usize,
        opt_value: usize,
        opt_len: usize,
    },
    /// The memory of the room for the value is checked.
    CheckingLen { level: SocketOptionLevel, opt_name: usize, opt_value: usize, opt_len: usize },
    /// The room for the value is read.
    ReadingLen { level: SocketOptionLevel, opt_name: usize, opt_value: usize, opt_len: usize },
    /// The memory for the value is checked.
    CheckingValue {
        level: SocketOptionLevel,
        opt_name: usize,
        opt_value: usize,
        opt_len: usize,
        room: u32,
    },
    /// An option of the socket layer is got.
    Getting { option: SocketOption, opt_value: usize, opt_len: usize },
    /// An option of the TCP layer is got.
    GettingTcp { tcp_option: TcpSocketOption, opt_value: usize, opt_len: usize },
}

/// Whether `opt_name` can be asked for at `level`: at the level `IP` any can, and
/// none has a value.
pub open spec fn is_known(level: SocketOptionLevel, opt_name: usize) -> bool {
    match level {
        SocketOptionLevel::IP => true,
        SocketOptionLevel::SOCKET => SocketOption::of_number(opt_name) is Some,
        SocketOptionLevel::TCP => TcpSocketOption::of_number(opt_name) is Some,
    }
}

impl GetSockOpt {
    /// How getting the option goes on once all the memory is found usable.
    pub open spec fn checked(
        level: SocketOptionLevel,
        opt_name: usize,
        opt_value: usize,
        opt_len: usize,
    ) -> Step<GetSockOpt, isize> {
        match level {
            SocketOptionLevel::IP => Step::Return(0),
            SocketOptionLevel::SOCKET => match SocketOption::of_number(opt_name) {
                None => Step::Return(FAILURE),
                Some(option) => Step::Ask(GetSockOpt::Getting { option, opt_value, opt_len }),
            },
            SocketOptionLevel::TCP => match TcpSocketOption::of_number(opt_name) {
                None => Step::Return(FAILURE),
                Some(TcpSocketOption::TCP_INFO) => Step::Return(ErrorNo::ENOPROTOOPT.code()),
                Some(tcp_option) => Step::Ask(
                    GetSockOpt::GettingTcp { tcp_option, opt_value, opt_len },
                ),
            },
        }
    }

    fn knows(level: SocketOptionLevel, opt_name: usize) -> (known: bool)
        ensures
            known == is_known(level, opt_name),
    {
        match level {
            SocketOptionLevel::IP => true,
            SocketOptionLevel::SOCKET => SocketOption::try_from(opt_name).is_ok(),
            SocketOptionLevel::TCP => TcpSocketOption::try_from(opt_name).is_ok(),
        }
    }

    fn go_checked(
        level: SocketOptionLevel,
        opt_name: usize,
        opt_value: usize,
        opt_len: usize,
    ) -> (step: Step<GetSockOpt, isize>)
        ensures
            step == GetSockOpt::checked(level, opt_name, opt_value, opt_len),
    {
        match level {
            SocketOptionLevel::IP => Step::Return(0),
            SocketOptionLevel::SOCKET => match SocketOption::try_from(opt_name) {
                Err(_) => Step::Return(FAILURE),
                Ok(option) => Step::Ask(GetSockOpt::Getting { option, opt_value, opt_len }),
            },
            SocketOptionLevel::TCP => match TcpSocketOption::try_from(opt_name) {
                Err(_) => Step::Return(FAILURE),
                Ok(TcpSocketOption::TCP_INFO) => Step::Return(ErrorNo::ENOPROTOOPT.code()),
                Ok(tcp_option) => Step::Ask(
                    GetSockOpt::GettingTcp { tcp_option, opt_value, opt_len },
                ),
            },
        }
    }
}

impl Dialogue for GetSockOpt {
    type Output = isize;

    open spec fn asks(self) -> Request {
        match self {
            GetSockOpt::LookingUp { fd, .. } => Request::LookUp(fd),
            GetSockOpt::CheckingLen { opt_len, .. } => Request::CheckWord(opt_len),
            GetSockOpt::ReadingLen { opt_len, .. } => Request::ReadWord(opt_len),
            GetSockOpt::CheckingValue { opt_value, room, .. } => Request::CheckRange(
                opt_value,
                opt_value.wrapping_add(room as usize),
            ),
            GetSockOpt::Getting { option, opt_value, opt_len } => Request::GetOption(
                option,
                opt_value,
                opt_len,
            ),
            GetSockOpt::GettingTcp { tcp_option, opt_value, opt_len } => Request::GetTcpOption(
                tcp_option,
                opt_value,
                opt_len,
            ),
        }
    }

    /// The option has to be known by the time that it would be got.
    open spec fn accepts(self, reply: Reply) -> bool {
        match self {
            GetSockOpt::LookingUp { .. } => reply is File,
            GetSockOpt::CheckingLen { .. } => reply is Usable,
            GetSockOpt::ReadingLen { .. } => reply is Word,
            GetSockOpt::CheckingValue { level, opt_name, .. } => match reply {
                Reply::Usable(usable) => usable ==> is_known(level, opt_name),
                _ => false,
            },
            GetSockOpt::Getting { .. } => reply is Done,
            GetSockOpt::GettingTcp { .. } => reply is Done,
        }
    }

    open spec fn next(self, reply: Reply) -> Step<GetSockOpt, isize> {
        match (self, reply) {
            (
                GetSockOpt::LookingUp { level, opt_name, opt_value, opt_len, .. },
                Reply::File(file),
            ) => match file {
                FileRef::Missing => Step::Return(ErrorNo::EBADF.code()),
                FileRef::NotSocket => Step::Return(ErrorNo::ENOTSOCK.code()),
                FileRef::Socket(_) => Step::Ask(
                    GetSockOpt::CheckingLen { level, opt_name, opt_value, opt_len },
                ),
            },
            (
                GetSockOpt::CheckingLen { level, opt_name, opt_value, opt_len },
                Reply::Usable(usable),
            ) => if usable {
                Step::Ask(GetSockOpt::ReadingLen { level, opt_name, opt_value, opt_len })
            } else {
                Step::Return(ErrorNo::EFAULT.code())
            },
            (GetSockOpt::ReadingLen { level, opt_name, opt_value, opt_len }, Reply::Word(room)) => {
                Step::Ask(GetSockOpt::CheckingValue { level, opt_name, opt_value, opt_len, room })
            },
            (
                GetSockOpt::CheckingValue { level, opt_name, opt_value, opt_len, .. },
                Reply::Usable(usable),
            ) => if usable {
                GetSockOpt::checked(level, opt_name, opt_value, opt_len)
            } else {
                Step::Return(ErrorNo::EFAULT.code())
            },
            (GetSockOpt::Getting { .. }, Reply::Done) => Step::Return(0),
            (GetSockOpt::GettingTcp { .. }, Reply::Done) => Step::Return(0),
            _ => Step::Return(FAILURE),
        }
    }

    open spec fn rank(self) -> nat {
        match self {
            GetSockOpt::LookingUp { .. } => 4,
            GetSockOpt::CheckingLen { .. } => 3,
            GetSockOpt::ReadingLen { .. } => 2,
            GetSockOpt::CheckingValue { .. } => 1,
            _ => 0,
        }
    }

    proof fn advances(self, reply: Reply) {
    }

    fn request(&self) -> (request: Request) {
        match *self {
            GetSockOpt::LookingUp { fd, .. } => Request::LookUp(fd),
            GetSockOpt::CheckingLen { opt_len, .. } => Request::CheckWord(opt_len),
            GetSockOpt::ReadingLen { opt_len, .. } => Request::ReadWord(opt_len),
            GetSockOpt::CheckingValue { opt_value, room, .. } => Request::CheckRange(
                opt_value,
                opt_value.wrapping_add(room as usize),
            ),
            GetSockOpt::Getting { option, opt_value, opt_len } => Request::GetOption(
                option,
                opt_value,
                opt_len,
            ),
            GetSockOpt::GettingTcp { tcp_option, opt_value, opt_len } => Request::GetTcpOption(
                tcp_option,
                opt_value,
                opt_len,
            ),
        }
    }

    fn admits(&self, reply: &Reply) -> (admitted: bool) {
        match (*self, *reply) {
            (GetSockOpt::LookingUp { .. }, Reply::File(_)) => true,
            (GetSockOpt::CheckingLen { .. }, Reply::Usable(_)) => true,
            (GetSockOpt::ReadingLen { .. }, Reply::Word(_)) => true,
            (GetSockOpt::CheckingValue { level, opt_name, .. }, Reply::Usable(usable)) => !usable
                || GetSockOpt::knows(level, opt_name),
            (GetSockOpt::Getting { .. }, Reply::Done) => true,
            (GetSockOpt::GettingTcp { .. }, Reply::Done) => true,
            _ => false,
        }
    }

    fn resume(self, reply: Reply) -> (step: Step<GetSockOpt, isize>) {
        match (self, reply) {
            (
                GetSockOpt::LookingUp { level, opt_name, opt_value, opt_len, .. },
                Reply::File(file),
            ) => match file {
                FileRef::Missing => Step::Return(ErrorNo::EBADF.code()),
                FileRef::NotSocket => Step::Return(ErrorNo::ENOTSOCK.code()),
                FileRef::Socket(_) => Step::Ask(
                    GetSockOpt::CheckingLen { level, opt_name, opt_value, opt_len },
                ),
            },
            (
                GetSockOpt::CheckingLen { level, opt_name, opt_value, opt_len },
                Reply::Usable(usable),
            ) => if usable {
                Step::Ask(GetSockOpt::ReadingLen { level, opt_name, opt_value, opt_len })
            } else {
                Step::Return(ErrorNo::EFAULT.code())
            },
            (GetSockOpt::ReadingLen { level, opt_name, opt_value, opt_len }, Reply::Word(room)) => {
                Step::Ask(GetSockOpt::CheckingValue { level, opt_name, opt_value, opt_len, room })
            },
            (
                GetSockOpt::CheckingValue { level, opt_name, opt_value, opt_len, .. },
                Reply::Usable(usable),
            ) => if usable {
                GetSockOpt::go_checked(level, opt_name, opt_value, opt_len)
            } else {
                Step::Return(ErrorNo::EFAULT.code())
            },
            (GetSockOpt::Getting { .. }, Reply::Done) => Step::Return(0),
            (GetSockOpt::GettingTcp { .. }, Reply::Done) => Step::Return(0),
            _ => Step::Return(FAILURE),
        }
    }
}

/// What the outside gives, while `getsockopt` runs.
pub struct GetSockOptWorld {
    /// What the file descriptor stands for.
    pub file: FileRef,
    /// Whether the memory of the room for the value can be used.
    pub len_usable: bool,
    /// The room for the value.
    pub room: u32,
    /// Whether the memory for the value can be used.
    pub value_usable: bool,
}

impl GetSockOptWorld {
    /// The reply that each request gets.
    pub open spec fn reply(self, dialogue: GetSockOpt) -> Reply {
        match dialogue {
            GetSockOpt::LookingUp { .. } => Reply::File(self.file),
            GetSockOpt::CheckingLen { .. } => Reply::Usable(self.len_usable),
            GetSockOpt::ReadingLen { .. } => Reply::Word(self.room),
            GetSockOpt::CheckingValue { .. } => Reply::Usable(self.value_usable),
            _ => Reply::Done,
        }
    }

    /// What the call results in from `step` on.
    pub open spec fn result(self, step: Step<GetSockOpt, isize>) -> isize {
        outcome(step, |dialogue: GetSockOpt| self.reply(dialogue))
    }

    /// What the call asks for from `step` on.
    pub open spec fn requests(self, step: Step<GetSockOpt, isize>) -> Seq<Request> {
        requests(step, |dialogue: GetSockOpt| self.reply(dialogue))
    }

    /// Why `getsockopt` does not get the option, if it does not.
    pub open spec fn refusal(
        self,
        level: SocketOptionLevel,
        opt_name: usize,
        opt_value: usize,
        opt_len: usize,
    ) -> Option<ErrorNo> {
        if opt_value == 0 || opt_len == 0 {
            Some(ErrorNo::EFAULT)
        } else {
            match self.file {
                FileRef::Missing => Some(ErrorNo::EBADF),
                FileRef::NotSocket => Some(ErrorNo::ENOTSOCK),
                FileRef::Socket(_) => if !self.len_usable || !self.value_usable {
                    Some(ErrorNo::EFAULT)
                } else if level == SocketOptionLevel::TCP && TcpSocketOption::of_number(opt_name)
                    == Some(TcpSocketOption::TCP_INFO) {
                    Some(ErrorNo::ENOPROTOOPT)
                } else {
                    None
                },
            }
        }
    }

    /// Whether the option that is told can be got of the socket that is found, into
    /// the room that there is.
    pub open spec fn obtainable(self, level: SocketOptionLevel, opt_name: usize) -> bool {
        match level {
            SocketOptionLevel::IP => true,
            SocketOptionLevel::SOCKET => match SocketOption::of_number(opt_name) {
                Some(option) => self.room >= option.value_len(),
                None => false,
            },
            SocketOptionLevel::TCP => match TcpSocketOption::of_number(opt_name) {
                Some(option) => self.file == FileRef::Socket(SocketInner::Tcp)
                    && option.gettable(self.room),
                None => false,
            },
        }
    }

    /// Whether the call comes to a result: an option that is not known, or that
    /// cannot be got, must not be reached.
    pub open spec fn settles(
        self,
        level: SocketOptionLevel,
        opt_name: usize,
        opt_value: usize,
        opt_len: usize,
    ) -> bool {
        self.refusal(level, opt_name, opt_value, opt_len) is Some || self.obtainable(
            level,
            opt_name,
        )
    }
}

/// The request that gets an option, if it has a value.
pub open spec fn getting_of(
    level: SocketOptionLevel,
    opt_name: usize,
    opt_value: usize,
    opt_len: usize,
) -> Seq<Request> {
    match (level, SocketOption::of_number(opt_name), TcpSocketOption::of_number(opt_name)) {
        (SocketOptionLevel::SOCKET, Some(option), _) => seq![
            Request::GetOption(option, opt_value, opt_len),
        ],
        (SocketOptionLevel::TCP, _, Some(option)) => seq![
            Request::GetTcpOption(option, opt_value, opt_len),
        ],
        _ => Seq::empty(),
    }
}

/// How `getsockopt` begins.
pub open spec fn getsockopt_begins(
    fd: usize,
    level: SocketOptionLevel,
    opt_name: usize,
    opt_value: usize,
    opt_len: usize,
) -> Step<GetSockOpt, isize> {
    if opt_value == 0 || opt_len == 0 {
        Step::Return(ErrorNo::EFAULT.code())
    } else {
        Step::Ask(GetSockOpt::LookingUp { fd, level, opt_name, opt_value, opt_len })
    }
}

/// Writes an option of a socket to `opt_value`, for which the word at `opt_len`
/// tells the room, and sets that word to the length of the value. The level has to
/// be one that is known, and by the time that the option would be got, it has to be
/// known at its level and to be one that can be got of this socket into this room.
pub fn syscall_get_sock_opt(
    fd: usize,
    level: usize,
    opt_name: usize,
    opt_value: usize,
    opt_len: usize,
) -> (step: Step<GetSockOpt, isize>)
    requires
        SocketOptionLevel::of_number(level) is Some,
    ensures
        step == getsockopt_begins(
            fd,
            SocketOptionLevel::of_number(level).unwrap(),
            opt_name,
            opt_value,
            opt_len,
        ),
        forall|world: GetSockOptWorld|
            world.settles(
                SocketOptionLevel::of_number(level).unwrap(),
                opt_name,
                opt_value,
                opt_len,
            ) ==> #[trigger] world.result(step) == match world.refusal(
                SocketOptionLevel::of_number(level).unwrap(),
                opt_name,
                opt_value,
                opt_len,
            ) {
                Some(error) => error.code(),
                None => 0,
            },
{
    let known: SocketOptionLevel = match SocketOptionLevel::try_from(level) {
        Ok(known) => known,
        Err(_) => SocketOptionLevel::IP,
    };
    let step: Step<GetSockOpt, isize> = if opt_value == 0 || opt_len == 0 {
        Step::Return(ErrorNo::EFAULT.code())
    } else {
        Step::Ask(GetSockOpt::LookingUp { fd, level: known, opt_name, opt_value, opt_len })
    };
    proof {
        assert forall|world: GetSockOptWorld|
            world.settles(known, opt_name, opt_value, opt_len) implies #[trigger] world.result(step)
            == match world.refusal(known, opt_name, opt_value, opt_len) {
            Some(error) => error.code(),
            None => 0,
        } by {
            reveal_with_fuel(outcome, 7);
        }
    }
    step
}

/// Law: `getsockopt` gets the option that it was told to, once and last, and only
/// after the room for its value was read and all of it found usable, if nothing
/// keeps it from getting it, and gets nothing otherwise.
pub proof fn getsockopt_gets_once(
    fd: usize,
    level: SocketOptionLevel,
    opt_name: usize,
    opt_value: usize,
    opt_len: usize,
    world: GetSockOptWorld,
)
    requires
        is_known(level, opt_name) || world.refusal(level, opt_name, opt_value, opt_len) is Some,
    ensures
        ({
            let asked = world.requests(
                getsockopt_begins(fd, level, opt_name, opt_value, opt_len),
            );
            let checks = seq![
                Request::LookUp(fd),
                Request::CheckWord(opt_len),
                Request::ReadWord(opt_len),
                Request::CheckRange(opt_value, opt_value.wrapping_add(world.room as usize)),
            ];
            match world.refusal(level, opt_name, opt_value, opt_len) {
                Some(_) => asked.is_prefix_of(checks),
                None => asked == checks + getting_of(level, opt_name, opt_value, opt_len),
            }
        }),
{
    reveal_with_fuel(requests, 7);
}

} // verus!
