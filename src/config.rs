//! What one invocation is asked to do: the sources, in order, and the numbering.

use vstd::prelude::*;
use vstd::string::*;

use crate::render::{texts, NumberMode};

verus! {

/// The identifier that stands for standard input.
pub const STDIN_IDENTIFIER: &'static str = "-";

/// Why a configuration was refused.
#[derive(Clone, Copy, Debug, PartialEq, Eq, Structural)]
pub enum ConfigError {
    /// Both numbering of all lines and numbering of non-empty lines were asked for.
    ConflictingNumbering,
}

/// The sources to print, in order, and which lines to number.
/// At most one of the two numbering flags is set.
#[derive(Debug)]
pub struct Config {
    files: Vec<String>,
    number_lines: bool,
    number_nonblank_lines: bool,
}

/// What a configuration holds, as plain values.
pub struct ConfigView {
    pub files: Seq<Seq<char>>,
    pub number_lines: bool,
    pub number_nonblank_lines: bool,
}

impl View for Config {
    type V = ConfigView;

    closed spec fn view(&self) -> ConfigView {
        ConfigView {
            files: texts(self.files@),
            number_lines: self.number_lines,
            number_nonblank_lines: self.number_nonblank_lines,
        }
    }
}

/// The numbering that two flags ask for; numbering all lines wins.
pub open spec fn mode_of(number_lines: bool, number_nonblank_lines: bool) -> NumberMode {
    if number_lines {
        NumberMode::NumberAll
    } else if number_nonblank_lines {
        NumberMode::NumberNonblank
    } else {
        NumberMode::Plain
    }
}

/// The sources of a configuration: those given, or standard input alone.
pub open spec fn sources_or_stdin(files: Seq<Seq<char>>) -> Seq<Seq<char>> {
    if files.len() == 0 {
        seq![STDIN_IDENTIFIER@]
    } else {
        files
    }
}

impl Config {
    /// The two flags do not both hold.
    #[verifier::type_invariant]
    spec fn inv(&self) -> bool {
        !(self.number_lines && self.number_nonblank_lines)
    }

    /// A configuration over `files`, or over standard input alone when `files`
    /// is empty. Refused when both numbering flags are set.
    pub fn new(files: Vec<String>, number_lines: bool, number_nonblank_lines: bool) -> (r: Result<
        Config,
        ConfigError,
    >)
        ensures
            number_lines && number_nonblank_lines <==> r is Err,
            r is Err ==> r == Err::<Config, ConfigError>(ConfigError::ConflictingNumbering),
            r matches Ok(c) ==> {
                &&& c@.files == sources_or_stdin(texts(files@))
                &&& c@.number_lines == number_lines
                &&& c@.number_nonblank_lines == number_nonblank_lines
            },
    {
        if number_lines && number_nonblank_lines {
            return Err(ConfigError::ConflictingNumbering);
        }
        let files = if files.len() == 0 {
            let mut v: Vec<String> = Vec::new();
            v.push(STDIN_IDENTIFIER.to_owned());
            assert(texts(v@) =~= seq![STDIN_IDENTIFIER@]);
            v
        } else {
            files
        };
        Ok(Config { files, number_lines, number_nonblank_lines })
    }

    /// The sources, in order.
    pub fn files(&self) -> (r: &Vec<String>)
        ensures
            texts(r@) == self@.files,
    {
        &self.files
    }

    /// Whether every line is numbered.
    pub fn number_lines(&self) -> (r: bool)
        ensures
            r == self@.number_lines,
    {
        self.number_lines
    }

    /// Whether the non-empty lines are numbered.
    pub fn number_nonblank_lines(&self) -> (r: bool)
        ensures
            r == self@.number_nonblank_lines,
    {
        self.number_nonblank_lines
    }

    /// The numbering that the flags ask for.
    pub fn mode(&self) -> (r: NumberMode)
        ensures
            r == mode_of(self@.number_lines, self@.number_nonblank_lines),
            r == NumberMode::NumberAll <==> self@.number_lines,
            r == NumberMode::NumberNonblank <==> self@.number_nonblank_lines,
    {
        proof {
            use_type_invariant(self);
        }
        if self.number_lines {
            NumberMode::NumberAll
        } else if self.number_nonblank_lines {
            NumberMode::NumberNonblank
        } else {
            NumberMode::Plain
        }
    }
}

/// Where the lines of one source come from.
#[derive(Clone, Debug, PartialEq, Eq)]
pub enum Source {
    /// The process's standard input.
    Stdin,
    /// The file at this path.
    Path(String),
}

/// The source that `identifier` names: standard input for the sentinel, else a path.
pub fn source_of(identifier: &str) -> (r: Source)
    ensures
        identifier@ == STDIN_IDENTIFIER@ ==> r == Source::Stdin,
        identifier@ != STDIN_IDENTIFIER@ ==> (r matches Source::Path(p) && p@ == identifier@),
{
    proof {
        reveal_strlit("-");
    }
    if identifier.unicode_len() == 1 && identifier.get_char(0) == '-' {
        assert(identifier@ =~= STDIN_IDENTIFIER@);
        Source::Stdin
    } else {
        Source::Path(identifier.to_owned())
    }
}

} // verus!
