use vstd::prelude::*;

verus! {

use vstd::string::StringExecFns;

/// Everything a transport operation can fail with.  Stream errors and
/// capacity errors surface from the framing layer; the process-attachment
/// errors surface once, when a subprocess channel is built.
#[derive(Debug, PartialEq, Eq)]
pub enum QRXErr {
    /// The stream ended before a complete frame: the header, or the body
    /// the header declared, was cut short.
    ShortRead,
    /// Header plus body would not fit in the write buffer; nothing was
    /// written to the sink.
    Capacity { body_len: usize, capacity: usize },
    /// The underlying stream failed (broken pipe, write failure, ...).
    Io(String),
    /// The bridging program could not be started.
    Spawn(String),
    /// The child process came up without a captured standard input.
    NoStdin,
    /// The child process came up without a captured standard output.
    NoStdout,
    /// The child process came up without a captured standard error.
    NoStderr,
}

pub type QRXRes<T> = Result<T, QRXErr>;

/// The printable description `message` returns for each error.
pub open spec fn message_spec(e: QRXErr) -> Seq<char> {
    match e {
        QRXErr::ShortRead => "Error: stream ended before a complete frame"@,
        QRXErr::Capacity { .. } => "Error: frame does not fit the write buffer"@,
        QRXErr::Io(_) => "Error: stream io failure"@,
        QRXErr::Spawn(_) => "Error: failed to spawn child proc"@,
        QRXErr::NoStdin => "Error: child proc failed to produce stdin"@,
        QRXErr::NoStdout => "Error: child proc failed to produce stdout"@,
        QRXErr::NoStderr => "Error: child proc failed to produce stderr"@,
    }
}

impl QRXErr {
    /// A printable description of the error.
    pub fn message(&self) -> (r: String)
        ensures
            r@ == message_spec(*self),
    {
        match self {
            QRXErr::ShortRead => String::from_str("Error: stream ended before a complete frame"),
            QRXErr::Capacity { .. } => String::from_str(
                "Error: frame does not fit the write buffer",
            ),
            QRXErr::Io(_) => String::from_str("Error: stream io failure"),
            QRXErr::Spawn(_) => String::from_str("Error: failed to spawn child proc"),
            QRXErr::NoStdin => String::from_str("Error: child proc failed to produce stdin"),
            QRXErr::NoStdout => String::from_str("Error: child proc failed to produce stdout"),
            QRXErr::NoStderr => String::from_str("Error: child proc failed to produce stderr"),
        }
    }
}

} // verus!
