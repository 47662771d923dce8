//! What `setsockopt`, `getsockopt` and `shutdown` do and result in.
use vstd::prelude::*;

use crate::dialogue::{outcome, requests, FileRef, Request, Step};
use crate::kinds::{SocketOption, SocketOptionLevel, TcpSocketOption};
use crate::net::SocketInner;
use crate::syscall::option::{
    getsockopt_begins, is_known, GetSockOptWorld, SetSockOpt, SetSockOptWorld,
};
use crate::syscall::shutdown::{ShutdownWorld, ShuttingDown};

verus! {

/// How `setsockopt` begins.
pub open spec fn setsockopt_begins(
    fd: usize,
    level: SocketOptionLevel,
    opt_name: usize,
    opt_value: usize,
    opt_len: u32,
) -> Step<SetSockOpt, isize> {
    Step::Ask(SetSockOpt::LookingUp { fd, level, opt_name, opt_value, opt_len })
}

/// Law: on a socket, `setsockopt` asks for the option that its number names at its
/// level to be set, from the bytes that it was told, whichever option it is; and the
/// result is zero, where the option can be set to those bytes there.
pub proof fn setsockopt_sets_that_option(
    fd: usize,
    option: SocketOption,
    tcp_option: TcpSocketOption,
    opt_value: usize,
    opt_len: u32,
    world: SetSockOptWorld,
)
    requires
        world.file is Socket,
    ensures
        world.requests(
            setsockopt_begins(fd, SocketOptionLevel::SOCKET, option.number(), opt_value, opt_len),
        ) == seq![Request::LookUp(fd), Request::SetOption(option, opt_value, opt_len)],
        world.requests(
            setsockopt_begins(fd, SocketOptionLevel::TCP, tcp_option.number(), opt_value, opt_len),
        ) == seq![Request::LookUp(fd), Request::SetTcpOption(tcp_option, opt_value, opt_len)],
        option.settable(world.value) ==> world.result(
            setsockopt_begins(fd, SocketOptionLevel::SOCKET, option.number(), opt_value, opt_len),
        ) == 0,
        world.file == FileRef::Socket(SocketInner::Tcp) && tcp_option.settable(world.value)
            ==> world.result(
            setsockopt_begins(fd, SocketOptionLevel::TCP, tcp_option.number(), opt_value, opt_len),
        ) == 0,
{
    reveal_with_fuel(outcome, 4);
    reveal_with_fuel(requests, 4);
}

/// Law: `setsockopt` sets nothing on no file, with the result -9; on one that is no
/// socket, with the result -88; and, on a socket, at the level `IP` and with a number
/// that names no option at its level, with the result zero.
pub proof fn setsockopt_sets_nothing_else(
    fd: usize,
    level: SocketOptionLevel,
    opt_name: usize,
    opt_value: usize,
    opt_len: u32,
    world: SetSockOptWorld,
)
    ensures
        ({
            let step = setsockopt_begins(fd, level, opt_name, opt_value, opt_len);
            let alone = world.requests(step) == seq![Request::LookUp(fd)];
            let unknown = match level {
                SocketOptionLevel::IP => true,
                SocketOptionLevel::SOCKET => opt_name != 2 && opt_name != 4 && opt_name != 5
                    && opt_name != 7 && opt_name != 8 && opt_name != 9 && opt_name != 20,
                SocketOptionLevel::TCP => opt_name != 1 && opt_name != 2 && opt_name != 11
                    && opt_name != 13,
            };
            &&& world.file is Missing ==> alone && world.result(step) == -9
            &&& world.file is NotSocket ==> alone && world.result(step) == -88
            &&& world.file is Socket && unknown ==> alone && world.result(step) == 0
        }),
{
    reveal_with_fuel(outcome, 4);
    reveal_with_fuel(requests, 4);
}

/// Law: on a socket, and with memory that can be used, `getsockopt` asks last for the
/// option that its number names at its level to be written where it was told, whichever
/// option it is but `TCP_INFO`; and the result is zero, where there is room for it.
pub proof fn getsockopt_gets_that_option(
    fd: usize,
    option: SocketOption,
    tcp_option: TcpSocketOption,
    opt_value: usize,
    opt_len: usize,
    world: GetSockOptWorld,
)
    requires
        opt_value != 0,
        opt_len != 0,
        world.file is Socket,
        world.len_usable,
        world.value_usable,
    ensures
        ({
            let step = getsockopt_begins(
                fd,
                SocketOptionLevel::SOCKET,
                option.number(),
                opt_value,
                opt_len,
            );
            let tcp_step = getsockopt_begins(
                fd,
                SocketOptionLevel::TCP,
                tcp_option.number(),
                opt_value,
                opt_len,
            );
            let checks = seq![
                Request::LookUp(fd),
                Request::CheckWord(opt_len),
                Request::ReadWord(opt_len),
                Request::CheckRange(opt_value, opt_value.wrapping_add(world.room as usize)),
            ];
            &&& world.requests(step).last() == Request::GetOption(option, opt_value, opt_len)
            &&& world.requests(step) == checks.push(Request::GetOption(option, opt_value, opt_len))
            &&& world.room >= option.value_len() ==> world.result(step) == 0
            &&& tcp_option == TcpSocketOption::TCP_INFO ==> world.requests(tcp_step) == checks
                && world.result(tcp_step) == -92
            &&& tcp_option != TcpSocketOption::TCP_INFO ==> world.requests(tcp_step) == checks.push(
                Request::GetTcpOption(tcp_option, opt_value, opt_len),
            )
            &&& tcp_option != TcpSocketOption::TCP_INFO && world.file == FileRef::Socket(
                SocketInner::Tcp,
            ) && tcp_option.gettable(world.room) ==> world.result(tcp_step) == 0
        }),
{
    reveal_with_fuel(outcome, 7);
    reveal_with_fuel(requests, 7);
}

/// Law: `getsockopt` gets nothing, with the result -14, where no place for the value or
/// its length is given; on no file, with the result -9; on one that is no socket, with
/// the result -88; where one of the places cannot be used, with the result -14; and at
/// the level `IP`, with the result zero. It asks for no more than it takes to find out.
/// The numbers that it knows are those of the options.
pub proof fn getsockopt_gets_nothing_else(
    fd: usize,
    level: SocketOptionLevel,
    opt_name: usize,
    opt_value: usize,
    opt_len: usize,
    world: GetSockOptWorld,
)
    ensures
        ({
            let step = getsockopt_begins(fd, level, opt_name, opt_value, opt_len);
            let asked = world.requests(step);
            let result = world.result(step);
            let checks = seq![
                Request::LookUp(fd),
                Request::CheckWord(opt_len),
                Request::ReadWord(opt_len),
                Request::CheckRange(opt_value, opt_value.wrapping_add(world.room as usize)),
            ];
            if opt_value == 0 || opt_len == 0 {
                asked.len() == 0 && result == -14
            } else if world.file is Missing {
                asked == checks.take(1) && result == -9
            } else if world.file is NotSocket {
                asked == checks.take(1) && result == -88
            } else if !world.len_usable {
                asked == checks.take(2) && result == -14
            } else if !world.value_usable {
                asked == checks && result == -14
            } else {
                level is IP ==> asked == checks && result == 0
            }
        }),
        is_known(level, opt_name) <==> match level {
            SocketOptionLevel::IP => true,
            SocketOptionLevel::SOCKET => opt_name == 2 || opt_name == 4 || opt_name == 5 || opt_name
                == 7 || opt_name == 8 || opt_name == 9 || opt_name == 20,
            SocketOptionLevel::TCP => opt_name == 1 || opt_name == 2 || opt_name == 11 || opt_name
                == 13,
        },
{
    reveal_with_fuel(outcome, 7);
    reveal_with_fuel(requests, 7);
}

/// Law: `setsockopt` and `getsockopt` come to a result wherever no option is reached
/// that is not known, or that cannot be set to the bytes or got into the room that
/// there is.
pub proof fn options_settle(
    option: SocketOption,
    tcp_option: TcpSocketOption,
    level: SocketOptionLevel,
    opt_name: usize,
    opt_value: usize,
    opt_len: usize,
    setting: SetSockOptWorld,
    getting: GetSockOptWorld,
)
    ensures
        ({
            let len = setting.value.len() as u32;
            let given = setting.value.len() <= u32::MAX;
            let tcp = setting.file == FileRef::Socket(SocketInner::Tcp);
            &&& !(setting.file is Socket) || level is IP ==> setting.settles(level, opt_name, len)
            &&& given && option.settable(setting.value) ==> setting.settles(
                SocketOptionLevel::SOCKET,
                option.number(),
                len,
            )
            &&& given && tcp && tcp_option.settable(setting.value) ==> setting.settles(
                SocketOptionLevel::TCP,
                tcp_option.number(),
                len,
            )
        }),
        opt_value == 0 || opt_len == 0 || !(getting.file is Socket) || !getting.len_usable
            || !getting.value_usable || level is IP ==> getting.settles(
            level,
            opt_name,
            opt_value,
            opt_len,
        ),
        getting.room >= option.value_len() ==> getting.settles(
            SocketOptionLevel::SOCKET,
            option.number(),
            opt_value,
            opt_len,
        ),
        getting.file == FileRef::Socket(SocketInner::Tcp) && tcp_option.gettable(getting.room)
            ==> getting.settles(SocketOptionLevel::TCP, tcp_option.number(), opt_value, opt_len),
{
}

/// Law: `shutdown` results in -9 on no file, in -88 on one that is no socket, and in -22
/// where its second argument is above two. On a socket, it asks for nothing more where
/// that is zero, for the sending side to be shut down where it is one, and for both
/// where it is two; and the result is zero.
pub proof fn shutdown_shuts_that_side(fd: usize, how: usize, world: ShutdownWorld)
    ensures
        ({
            let step = Step::<ShuttingDown, isize>::Ask(ShuttingDown::LookingUp { fd, how });
            let asked = world.requests(step);
            let result = world.result(step);
            let alone = seq![Request::LookUp(fd)];
            if world.file is Missing {
                asked == alone && result == -9
            } else if world.file is NotSocket {
                asked == alone && result == -88
            } else if how == 0 {
                asked == alone && result == 0
            } else if how == 1 {
                asked == alone.push(Request::Shutdown) && result == 0
            } else if how == 2 {
                asked == alone.push(Request::Abort) && result == 0
            } else {
                asked == alone && result == -22
            }
        }),
{
    reveal_with_fuel(outcome, 4);
    reveal_with_fuel(requests, 4);
}

} // verus!
