//! Input sources: a named file, or standard input under the name `-`.

use vstd::prelude::*;
use vstd::string::{StrSliceExecFns, StringExecFns};

verus! {

/// The name that stands for standard input.
pub open spec fn stdin_name() -> Seq<char> {
    seq!['-']
}

/// The source list that a tool works on: the names given, or standard input
/// alone when none is given.
pub open spec fn files_or_stdin_spec(files: Seq<Seq<char>>) -> Seq<Seq<char>> {
    if files.len() == 0 {
        seq![stdin_name()]
    } else {
        files
    }
}

/// Where a tool reads one source from.
#[derive(Debug)]
pub enum Source {
    Stdin,
    File(String),
}

impl Source {
    /// The source that `name` denotes: standard input for `-`, else the file
    /// of that name.
    pub fn resolve(name: &str) -> (r: Source)
        ensures
            (r is Stdin) <==> name@ == stdin_name(),
            r matches Source::File(f) ==> f@ == name@,
    {
        if name.unicode_len() == 1 && name.get_char(0) == '-' {
            assert(name@ =~= stdin_name());
            Source::Stdin
        } else {
            Source::File(String::from_str(name))
        }
    }
}

/// The names given, or `-` alone when none is given.
pub fn files_or_stdin(files: Vec<String>) -> (r: Vec<String>)
    ensures
        r.deep_view() == files_or_stdin_spec(files.deep_view()),
{
    if files.len() == 0 {
        proof {
            reveal_strlit("-");
        }
        let name = String::from_str("-");
        let mut r: Vec<String> = Vec::new();
        r.push(name);
        assert(r.deep_view() =~= seq![name@]);
        assert(name@ =~= stdin_name());
        r
    } else {
        files
    }
}

} // verus!
