# socket_api

The socket system calls of a kernel, as a verified library: `socket`, `bind`,
`listen`, `accept4`, `connect`, `getsockname`, `getpeername`, `sendto`, `recvfrom`,
`setsockopt`, `getsockopt` and `shutdown`.

A system call alternates between decisions and work outside: it looks up a file,
checks and reads memory, calls the network stack. The library makes the decisions.
Each call is a `Dialogue`: it is stopped at a `Request`, and the `Reply` takes it
one `Step` further. The contract of the function that begins a call says what the
call results in, whatever the outside gives; the laws beside it say what is asked
of the outside, and in which order.

- `src/bytes.rs`: integers as bytes, in either byte order.
- `src/kinds.rs`: the numbers that programs use, and what they stand for.
- `src/errno.rs`: error numbers, and the errors of the network stack.
- `src/addr.rs`: socket addresses, and their form in memory.
- `src/net.rs`: the operations of the network stack.
- `src/socket.rs`, `src/options.rs`, `src/exchange.rs`: a socket, its options, and
  what it does in more than one operation.
- `src/dialogue.rs`: work that alternates with the outside.
- `src/syscall/`: the system calls.
- `src/laws.rs`: what ties the calls to the sockets that they work on.
- `app/`: the kernel's side, which carries the requests out. It is built within the
  kernel, against the kernel's own `axfs`, `axhal`, `axnet`, `axprocess` and
  `axsync`.
