//! The operating-system signals that end the process.

use crate::decimal::{append_signed_decimal, signed_decimal};
use vstd::prelude::*;
use vstd::string::*;

verus! {

/// A signal that was delivered to the process: one of those that request a
/// shutdown, or another one, by its number.
#[derive(Clone, Copy, Debug, PartialEq, Eq, Structural)]
pub enum Signal {
    Alarm,
    Hangup,
    Interrupt,
    Pipe,
    Profile,
    Terminate,
    User1,
    User2,
    Other(i32),
}

/// The name under which a signal is reported.
pub open spec fn signal_name(signal: Signal) -> Seq<char> {
    match signal {
        Signal::Alarm => seq!['S', 'I', 'G', 'A', 'L', 'R', 'M'],
        Signal::Hangup => seq!['S', 'I', 'G', 'H', 'U', 'P'],
        Signal::Interrupt => seq!['S', 'I', 'G', 'I', 'N', 'T'],
        Signal::Pipe => seq!['S', 'I', 'G', 'P', 'I', 'P', 'E'],
        Signal::Profile => seq!['S', 'I', 'G', 'P', 'R', 'O', 'F'],
        Signal::Terminate => seq!['S', 'I', 'G', 'T', 'E', 'R', 'M'],
        Signal::User1 => seq!['S', 'I', 'G', 'U', 'S', 'R', '1'],
        Signal::User2 => seq!['S', 'I', 'G', 'U', 'S', 'R', '2'],
        Signal::Other(n) => seq!['U', 'N', 'K', 'N', 'O', 'W', 'N', ':', ' '] + signed_decimal(
            n as int,
        ),
    }
}

impl Signal {
    /// Whether the signal asks the process to shut down.
    pub fn requests_exit(&self) -> (r: bool)
        ensures
            r == !(*self is Other),
    {
        match self {
            Signal::Other(_) => false,
            _ => true,
        }
    }

    /// The signal's name, such as `SIGTERM`; `UNKNOWN: ` and the number for
    /// any other signal.
    pub fn name(&self) -> (r: String)
        ensures
            r@ == signal_name(*self),
    {
        let text = match self {
            Signal::Alarm => "SIGALRM",
            Signal::Hangup => "SIGHUP",
            Signal::Interrupt => "SIGINT",
            Signal::Pipe => "SIGPIPE",
            Signal::Profile => "SIGPROF",
            Signal::Terminate => "SIGTERM",
            Signal::User1 => "SIGUSR1",
            Signal::User2 => "SIGUSR2",
            Signal::Other(_) => "UNKNOWN: ",
        };
        proof {
            reveal_strlit("SIGALRM");
            reveal_strlit("SIGHUP");
            reveal_strlit("SIGINT");
            reveal_strlit("SIGPIPE");
            reveal_strlit("SIGPROF");
            reveal_strlit("SIGTERM");
            reveal_strlit("SIGUSR1");
            reveal_strlit("SIGUSR2");
            reveal_strlit("UNKNOWN: ");
        }
        let mut r = String::from_str(text);
        if let Signal::Other(n) = self {
            append_signed_decimal(&mut r, *n);
        }
        assert(r@ =~= signal_name(*self));
        r
    }
}

} // verus!
