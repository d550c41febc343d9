//! Data structures of the launch.toml file.

use vstd::prelude::*;

verus! {

/// A character that a process type may hold: an ASCII letter or digit, `_` or `-`.
pub open spec fn is_process_type_char(c: char) -> bool {
    ('0' <= c && c <= '9') || ('A' <= c && c <= 'Z') || ('a' <= c && c <= 'z') || c == '_'
        || c == '-'
}

/// A valid process type: not empty, and made of process type characters only.
pub open spec fn is_process_type_name(s: Seq<char>) -> bool {
    s.len() > 0 && forall|i: int| 0 <= i < s.len() ==> is_process_type_char(#[trigger] s[i])
}

/// Relies on `regex::Regex::new` and `regex::Regex::is_match`: the pattern
/// `^[[:alnum:]_-]+$` compiles, so `unwrap` does not panic, and the compiled regex
/// matches a haystack exactly when the whole haystack is one or more ASCII letters,
/// ASCII digits, `_` or `-` (`[:alnum:]` is the ASCII class `0-9A-Za-z`, and `$`
/// without the multi-line flag matches only at the end of the haystack).
#[verifier::external_body]
fn regex_full_match(pattern: &str, haystack: &str) -> (r: bool)
    requires
        pattern@ == "^[[:alnum:]_-]+$"@,
    ensures
        r == is_process_type_name(haystack@),
{
    regex::Regex::new(pattern).unwrap().is_match(haystack)
}

/// Errors of the launch.toml data structures.
pub enum LaunchError {
    /// A process type held a character other than letters, digits, `_` and `-`, or was empty.
    InvalidProcessType(String),
}

/// The contents of a launch.toml file.
pub struct Launch {
    pub labels: Vec<Label>,
    pub processes: Vec<Process>,
    pub slices: Vec<Slice>,
}

impl Launch {
    /// An empty launch.toml: no labels, no processes, no slices.
    pub fn new() -> (r: Self)
        ensures
            r.labels@.len() == 0,
            r.processes@.len() == 0,
            r.slices@.len() == 0,
    {
        Launch { labels: Vec::new(), processes: Vec::new(), slices: Vec::new() }
    }
}

/// A label of the image that the app is exported to.
pub struct Label {
    pub key: String,
    pub value: String,
}

/// A process type of the app and the command that starts it.
pub struct Process {
    pub process_type: ProcessType,
    pub command: String,
    pub args: Vec<String>,
    pub direct: bool,
}

impl Process {
    /// A process of the given type; fails when `process_type` is not a valid process type.
    pub fn new(process_type: &str, command: String, args: Vec<String>, direct: bool) -> (r: Result<
        Self,
        LaunchError,
    >)
        ensures
            is_process_type_name(process_type@) ==> (r matches Ok(p) && p.process_type@
                == process_type@ && p.command == command && p.args == args && p.direct == direct),
            !is_process_type_name(process_type@) ==> (r matches Err(
                LaunchError::InvalidProcessType(s),
            ) && s@ == process_type@),
    {
        let parsed = ProcessType::parse(process_type)?;
        Ok(Process { process_type: parsed, command, args, direct })
    }
}

/// A set of paths of the app that is exported as a layer of its own.
pub struct Slice {
    pub paths: Vec<String>,
}

/// The type of a launch.toml process. It holds only ASCII letters, ASCII digits, `_`
/// and `-`, and at least one of them.
pub struct ProcessType(String);

impl View for ProcessType {
    type V = Seq<char>;

    closed spec fn view(&self) -> Seq<char> {
        self.0@
    }
}

impl ProcessType {
    #[verifier::type_invariant]
    spec fn inv(self) -> bool {
        is_process_type_name(self.0@)
    }

    /// The process type for `value`, or `InvalidProcessType` when `value` is not one.
    pub fn parse(value: &str) -> (r: Result<Self, LaunchError>)
        ensures
            is_process_type_name(value@) ==> (r matches Ok(t) && t@ == value@),
            !is_process_type_name(value@) ==> (r matches Err(LaunchError::InvalidProcessType(s))
                && s@ == value@),
    {
        let string = value.to_owned();
        if regex_full_match("^[[:alnum:]_-]+$", value) {
            Ok(ProcessType(string))
        } else {
            Err(LaunchError::InvalidProcessType(string))
        }
    }

    /// The process type as a string slice.
    pub fn as_str(&self) -> (r: &str)
        ensures
            r@ == self@,
            is_process_type_name(r@),
    {
        proof {
            use_type_invariant(self);
        }
        self.0.as_str()
    }
}

impl std::str::FromStr for ProcessType {
    type Err = LaunchError;

    fn from_str(value: &str) -> Result<Self, LaunchError> {
        ProcessType::parse(value)
    }
}

} // verus!
