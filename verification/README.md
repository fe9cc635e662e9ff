# rtr_client

The client side of the RPKI to Router protocol, verified with Verus.

The library in `src/` holds everything that a client decides: which query to
send, how to treat the replies, when to ask again, what to tell a server whose
data the target does not accept, and how all of that looks on the wire. It is
written as a state machine. Starting a job yields a command and a task; handing
the task back together with what came of the command yields the next ones.
`src/laws.rs` states what holds of a conversation as a whole.

The code in `app/` puts the client on a Tokio socket: it reads and writes,
watches the time, and otherwise does as it is told.
