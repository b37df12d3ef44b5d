//! The sink abstraction: a place log text can be written, together with the
//! two library destinations, the terminal and an in-memory buffer.

use vstd::prelude::*;
use std::io::Write;
use crate::level::Level;

verus! {

/// Declares `std::io::Error`, the error a failed write returns, so that it
/// can stand in signatures; its values are opaque here and only carried.
#[verifier::external_type_specification]
#[verifier::external_body]
pub struct ExIoError(std::io::Error);

/// A writable log destination. Each destination is modelled by the sequence
/// of lines written to it so far; a write either appends exactly the given
/// line, when it returns `Ok`, or leaves the destination as it was, when it
/// returns `Err`.
pub trait LogOutput: Sized {
    /// The lines written to this destination so far. A destination outside
    /// the library's reasoning may leave this default, which reports none —
    /// note that a verified impl keeping it could never return `Ok` from
    /// `log`, since no sequence equals its own push; every sink inside the
    /// library defines its own model.
    open spec fn records(&self) -> Seq<Seq<char>> {
        Seq::empty()
    }

    /// Is the next write owed success? A destination that cannot foretell
    /// its writes (the terminal) reports `false`, promising nothing.
    open spec fn accepts(&self) -> bool {
        false
    }

    /// Appends `msg` as one line to the destination. A destination that
    /// accepts must take the line; any destination either takes exactly
    /// this line or, failing, stays as it was.
    fn log(&mut self, msg: &str) -> (r: Result<(), std::io::Error>)
        ensures
            r is Ok ==> final(self).records() == old(self).records().push(msg@),
            r is Err ==> final(self).records() == old(self).records(),
            old(self).accepts() ==> r is Ok,
    ;

    /// Lets the destination adjust its presentation to the severity of the
    /// coming message. It writes nothing and keeps its acceptance.
    fn format(&mut self, lvl: Level)
        ensures
            final(self).records() == old(self).records(),
            final(self).accepts() == old(self).accepts(),
    ;

    /// A stable name for this destination, used only when a failed write
    /// is reported.
    fn name(&self) -> String;
}

/// Relies on std::io's `stdout` stream and the `writeln` macro: on `Ok` the
/// message and a terminating newline were handed to standard output. Where
/// the line ends up depends on the process's environment, so nothing more
/// is promised.
#[verifier::external_body]
fn write_stdout_line(msg: &str) -> (r: Result<(), std::io::Error>) {
    writeln!(std::io::stdout(), "{}", msg)
}

/// Relies on std::io's `stderr` stream and the `writeln` macro to report a
/// failed sink write on the diagnostic stream. Nothing is promised of it.
#[verifier::external_body]
pub(crate) fn report_write_failure(name: &str, err: &std::io::Error) {
    let _ = writeln!(std::io::stderr(), "Failed to write to the output: {}.\n Error: {}", name, err);
}

/// The terminal sink: writes each line to the process's standard output.
pub struct ConsoleLog {
    history: Ghost<Seq<Seq<char>>>,
}

impl ConsoleLog {
    /// A fresh terminal sink; nothing has been written through it yet.
    pub fn new() -> (c: ConsoleLog)
        ensures
            c.records() == Seq::<Seq<char>>::empty(),
    {
        ConsoleLog { history: Ghost(Seq::empty()) }
    }
}

impl LogOutput for ConsoleLog {
    closed spec fn records(&self) -> Seq<Seq<char>> {
        self.history@
    }

    fn log(&mut self, msg: &str) -> (r: Result<(), std::io::Error>) {
        match write_stdout_line(msg) {
            Ok(_) => {
                self.history = Ghost(self.history@.push(msg@));
                Ok(())
            },
            Err(e) => Err(e),
        }
    }

    fn format(&mut self, _lvl: Level) {
    }

    fn name(&self) -> (n: String)
        ensures
            n@ == "Terminal log"@,
    {
        String::from_str("Terminal log")
    }
}

/// Relies on `std::io::Error::from` to build the error value a full
/// in-memory sink returns. Nothing is promised of the value.
#[verifier::external_body]
fn storage_full_error() -> (e: std::io::Error) {
    std::io::Error::from(std::io::ErrorKind::Other)
}

/// An in-memory sink: keeps each line in a buffer, up to a fixed capacity.
/// A write to a full buffer fails, as a full destination would, which makes
/// this sink double as an observable stand-in for any real destination.
pub struct MemoryLog {
    lines: Vec<String>,
    capacity: usize,
}

impl MemoryLog {
    /// The most lines the buffer accepts.
    pub closed spec fn cap(&self) -> int {
        self.capacity as int
    }

    /// A fresh buffer sink that accepts up to `capacity` lines.
    pub fn new(capacity: usize) -> (m: MemoryLog)
        ensures
            m.records() == Seq::<Seq<char>>::empty(),
            m.cap() == capacity as int,
    {
        MemoryLog { lines: Vec::new(), capacity }
    }

    /// How many lines have been written.
    pub fn line_count(&self) -> (n: usize)
        ensures
            n as int == self.records().len(),
    {
        self.lines.len()
    }

    /// The line written `i`-th, counting from zero.
    pub fn line_at(&self, i: usize) -> (s: &String)
        requires
            i < self.records().len(),
        ensures
            s@ == self.records()[i as int],
    {
        &self.lines[i]
    }
}

impl LogOutput for MemoryLog {
    closed spec fn records(&self) -> Seq<Seq<char>> {
        self.lines@.map(|i: int, s: String| s@)
    }

    open spec fn accepts(&self) -> bool {
        self.records().len() < self.cap()
    }

    fn log(&mut self, msg: &str) -> (r: Result<(), std::io::Error>)
        ensures
            r is Ok <==> old(self).records().len() < old(self).cap(),
            final(self).cap() == old(self).cap(),
    {
        if self.lines.len() < self.capacity {
            self.lines.push(String::from_str(msg));
            proof {
                assert(self.records() =~= old(self).records().push(msg@));
            }
            Ok(())
        } else {
            proof {
                assert(self.records() =~= old(self).records());
            }
            Err(storage_full_error())
        }
    }

    fn format(&mut self, _lvl: Level) {
    }

    fn name(&self) -> (n: String)
        ensures
            n@ == "Memory log"@,
    {
        String::from_str("Memory log")
    }
}

} // verus!
