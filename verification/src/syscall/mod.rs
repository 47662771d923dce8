//! The system calls on sockets. Each is a dialogue that results in the value that
//! the calling program gets: an error number, or what the call promises.
//!
//! Each call's `...World` tells what the outside gives while the call runs, and
//! the contract of the function that begins the call says what it results in, in
//! every such world.
pub mod name;
pub mod open;
pub mod option;
pub mod shutdown;
pub mod transfer;
