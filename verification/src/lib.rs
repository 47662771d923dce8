//! The socket interface of an operating-system kernel: what its system calls on
//! sockets decide, between the program that calls them and the network stack that
//! sends and receives.
//!
//! * [`kinds`] holds the numbered choices of the interface, [`errno`] its errors,
//!   [`bytes`] and [`addr`] the forms that numbers and addresses have in memory.
//! * [`socket`] is a socket, [`options`] sets and gets its options, and
//!   [`exchange`] is what it does in several operations of its protocol
//!   ([`net`]).
//! * [`syscall`] holds the system calls. They cannot reach memory, files or the
//!   network themselves: they are dialogues ([`dialogue`]), which ask for what is
//!   to be done and go on with what came of it.
//! * [`laws`] states what holds across them.
pub mod addr;
pub mod bytes;
pub mod dialogue;
pub mod errno;
pub mod exchange;
pub mod kinds;
pub mod laws;
pub mod net;
pub mod options;
pub mod socket;
pub mod syscall;
