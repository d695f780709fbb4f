//! The decisions of one invocation: which source comes next, what each line
//! becomes, and what is reported when a source fails. The caller does the
//! reading and the printing.

use vstd::prelude::*;
use vstd::string::*;

use crate::config::{mode_of, Config};
use crate::render::{render_line, render_one, takes_number, texts, NumberMode};

verus! {

/// One invocation in progress: the sources, the next one to open, the running
/// counter and the numbering. The counter is set to one once and is never
/// reset between sources.
pub struct Session {
    files: Vec<String>,
    next: usize,
    counter: u64,
    mode: NumberMode,
}

/// What a session holds, as plain values.
pub struct SessionView {
    pub files: Seq<Seq<char>>,
    pub next: nat,
    pub counter: nat,
    pub mode: NumberMode,
}

impl View for Session {
    type V = SessionView;

    closed spec fn view(&self) -> SessionView {
        SessionView {
            files: texts(self.files@),
            next: self.next as nat,
            counter: self.counter as nat,
            mode: self.mode,
        }
    }
}

impl Session {
    /// The next source is within the list, and the counter has started.
    #[verifier::type_invariant]
    spec fn inv(&self) -> bool {
        &&& self.next <= self.files@.len()
        &&& self.counter >= 1
    }

    /// A session over the sources of `config`, with the counter at one.
    pub fn new(config: &Config) -> (r: Session)
        ensures
            r@.files == config@.files,
            r@.next == 0,
            r@.counter == 1,
            r@.mode == mode_of(config@.number_lines, config@.number_nonblank_lines),
    {
        Session { files: config.files().clone(), next: 0, counter: 1, mode: config.mode() }
    }

    /// The identifier of the next source, in the order given, whatever became
    /// of the sources before it; `None` once all have been handed out.
    pub fn next_source(&mut self) -> (r: Option<String>)
        ensures
            final(self)@.files == old(self)@.files,
            final(self)@.counter == old(self)@.counter,
            final(self)@.mode == old(self)@.mode,
            old(self)@.next < old(self)@.files.len() ==> {
                &&& r matches Some(id) && id@ == old(self)@.files[old(self)@.next as int]
                &&& final(self)@.next == old(self)@.next + 1
            },
            old(self)@.next >= old(self)@.files.len() ==> {
                &&& r is None
                &&& final(self)@.next == old(self)@.next
            },
    {
        proof {
            use_type_invariant(&*self);
        }
        if self.next < self.files.len() {
            let id = self.files[self.next].clone();
            self.next = self.next + 1;
            Some(id)
        } else {
            None
        }
    }

    /// The output line for `line`, advancing the counter when the line takes a
    /// number; `None`, with nothing changed, when the counter has no next value.
    pub fn render(&mut self, line: &str) -> (r: Option<String>)
        ensures
            final(self)@.files == old(self)@.files,
            final(self)@.next == old(self)@.next,
            final(self)@.mode == old(self)@.mode,
            r is None <==> takes_number(line@, old(self)@.mode) && old(self)@.counter
                == u64::MAX,
            r is None ==> final(self)@.counter == old(self)@.counter,
            r matches Some(s) ==> {
                &&& s@ == render_one(line@, old(self)@.counter, old(self)@.mode)
                &&& final(self)@.counter == old(self)@.counter + if takes_number(
                    line@,
                    old(self)@.mode,
                ) {
                    1int
                } else {
                    0int
                }
            },
    {
        proof {
            use_type_invariant(&*self);
        }
        let number = match self.mode {
            NumberMode::Plain => false,
            NumberMode::NumberAll => true,
            NumberMode::NumberNonblank => !line.is_empty(),
        };
        if number && self.counter == u64::MAX {
            None
        } else {
            let mut counter = self.counter;
            let r = render_line(line, &mut counter, self.mode);
            self.counter = counter;
            Some(r)
        }
    }

    /// The value that the next numbered line will get.
    pub fn counter(&self) -> (r: u64)
        ensures
            r == self@.counter,
    {
        self.counter
    }

    /// The numbering of this session.
    pub fn mode(&self) -> (r: NumberMode)
        ensures
            r == self@.mode,
    {
        self.mode
    }
}

/// The report for a source that could not be opened, naming it and the cause.
pub fn open_failure_message(identifier: &str, cause: &str) -> (r: String)
    ensures
        r@ == "Failed to open "@ + identifier@ + ": "@ + cause@,
{
    let mut r = "Failed to open ".to_owned();
    r.append(identifier);
    r.append(": ");
    r.append(cause);
    r
}

/// The report for a source that failed part way, naming it and the cause.
pub fn read_failure_message(identifier: &str, cause: &str) -> (r: String)
    ensures
        r@ == "Failed to read "@ + identifier@ + ": "@ + cause@,
{
    let mut r = "Failed to read ".to_owned();
    r.append(identifier);
    r.append(": ");
    r.append(cause);
    r
}

} // verus!
