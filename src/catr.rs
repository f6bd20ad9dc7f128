//! A `cat` that can number the lines it prints.

use vstd::prelude::*;
use vstd::string::StringExecFns;
use crate::source::{files_or_stdin, files_or_stdin_spec};
use crate::text::{decimal, right_align, right_aligned_decimal};

verus! {

/// Width of the field that a line number is right-aligned in.
pub const NUMBER_WIDTH: usize = 6;

/// Which lines receive a number.
#[derive(Debug, Clone, Copy, PartialEq, Eq, Structural)]
pub enum Numbering {
    /// Every line.
    All,
    /// Only lines that are not empty; empty lines take no number.
    NonBlank,
    /// No line: the text is copied as it is.
    Off,
}

/// What the numbering `cat` works on.
#[derive(Debug)]
pub struct Config {
    pub files: Vec<String>,
    pub numbering: Numbering,
}

/// Why a command line does not give a configuration.
#[derive(Debug, Clone, Copy, PartialEq, Eq, Structural)]
pub enum ArgsError {
    /// Both "number all" and "number non-blank" were asked for.
    ConflictingNumbering,
}

/// Builds the configuration from the source names and the two numbering
/// switches, which exclude each other. No name means standard input.
pub fn get_args(files: Vec<String>, number_lines: bool, number_nonblank_lines: bool) -> (r: Result<
    Config,
    ArgsError,
>)
    ensures
        (r is Err) <==> (number_lines && number_nonblank_lines),
        r matches Ok(c) ==> {
            &&& c.files.deep_view() == files_or_stdin_spec(files.deep_view())
            &&& c.numbering == (if number_lines {
                Numbering::All
            } else if number_nonblank_lines {
                Numbering::NonBlank
            } else {
                Numbering::Off
            })
        },
{
    if number_lines && number_nonblank_lines {
        return Err(ArgsError::ConflictingNumbering);
    }
    let numbering = if number_lines {
        Numbering::All
    } else if number_nonblank_lines {
        Numbering::NonBlank
    } else {
        Numbering::Off
    };
    Ok(Config { files: files_or_stdin(files), numbering })
}

/// The number of non-empty lines in `lines`.
pub open spec fn nonblank_count(lines: Seq<Seq<char>>) -> nat
    decreases lines.len(),
{
    if lines.len() == 0 {
        0
    } else {
        nonblank_count(lines.drop_last()) + if lines.last().len() == 0 {
            0nat
        } else {
            1nat
        }
    }
}

/// The number that line `i` of a source receives, if any. Numbers start at 1
/// in every source.
pub open spec fn line_number(lines: Seq<Seq<char>>, numbering: Numbering, i: int) -> Option<nat> {
    match numbering {
        Numbering::All => Some((i + 1) as nat),
        Numbering::NonBlank => if lines[i].len() == 0 {
            None
        } else {
            Some(nonblank_count(lines.take(i + 1)))
        },
        Numbering::Off => None,
    }
}

/// A line as printed: with its number in a right-aligned field and a tab
/// before it, or as it is when it has no number.
pub open spec fn rendered(line: Seq<char>, number: Option<nat>) -> Seq<char> {
    match number {
        Some(n) => right_align(decimal(n), NUMBER_WIDTH as nat) + seq!['\t'] + line,
        None => line,
    }
}

/// The lines printed for one source.
pub open spec fn numbered(lines: Seq<Seq<char>>, numbering: Numbering) -> Seq<Seq<char>> {
    Seq::new(lines.len(), |i: int| rendered(lines[i], line_number(lines, numbering, i)))
}

proof fn lemma_nonblank_count_bound(lines: Seq<Seq<char>>)
    ensures
        nonblank_count(lines) <= lines.len(),
    decreases lines.len(),
{
    if lines.len() > 0 {
        lemma_nonblank_count_bound(lines.drop_last());
    }
}

/// Blank lines add nothing to the count of non-blank lines.
proof fn lemma_blank_run(lines: Seq<Seq<char>>, a: int, b: int)
    requires
        0 <= a <= b <= lines.len(),
        forall|k: int| a <= k < b ==> #[trigger] lines[k].len() == 0,
    ensures
        nonblank_count(lines.take(b)) == nonblank_count(lines.take(a)),
    decreases b - a,
{
    if b > a {
        lemma_blank_run(lines, a, b - 1);
        assert(lines.take(b).drop_last() =~= lines.take(b - 1));
    }
}

/// With every line numbered, a source prints as many lines as it has, and
/// line `i` carries the number `i + 1`: the numbers start at 1 and strictly
/// increase.
pub proof fn lemma_number_all(lines: Seq<Seq<char>>)
    ensures
        numbered(lines, Numbering::All).len() == lines.len(),
        forall|i: int|
            0 <= i < lines.len() ==> {
                &&& #[trigger] line_number(lines, Numbering::All, i) == Some((i + 1) as nat)
                &&& numbered(lines, Numbering::All)[i] == rendered(lines[i], Some((i + 1) as nat))
            },
        forall|i: int, j: int|
            0 <= i < j < lines.len() ==> #[trigger] line_number(lines, Numbering::All, i)->0
                < #[trigger] line_number(lines, Numbering::All, j)->0,
{
}

/// With non-blank numbering, an empty line gets no number and prints empty;
/// the first non-blank line gets 1, and each later non-blank line gets one
/// more than the non-blank line before it, whatever blank lines lie between.
pub proof fn lemma_number_nonblank(lines: Seq<Seq<char>>)
    ensures
        numbered(lines, Numbering::NonBlank).len() == lines.len(),
        forall|i: int|
            0 <= i < lines.len() && lines[i].len() == 0 ==> {
                &&& #[trigger] line_number(lines, Numbering::NonBlank, i) is None
                &&& numbered(lines, Numbering::NonBlank)[i].len() == 0
            },
        forall|i: int|
            0 <= i < lines.len() && lines[i].len() != 0 && (forall|k: int|
                0 <= k < i ==> #[trigger] lines[k].len() == 0) ==> #[trigger] line_number(
                lines,
                Numbering::NonBlank,
                i,
            ) == Some(1nat),
        forall|i: int, j: int|
            #![trigger line_number(lines, Numbering::NonBlank, i), line_number(lines, Numbering::NonBlank, j)]
            0 <= i < j < lines.len() && lines[i].len() != 0 && lines[j].len() != 0 && (forall|k: int|
                i < k < j ==> #[trigger] lines[k].len() == 0) ==> line_number(
                lines,
                Numbering::NonBlank,
                j,
            ) == Some(line_number(lines, Numbering::NonBlank, i)->0 + 1),
{
    assert forall|i: int|
        0 <= i < lines.len() && lines[i].len() != 0 && (forall|k: int|
            0 <= k < i ==> #[trigger] lines[k].len() == 0) implies #[trigger] line_number(
        lines,
        Numbering::NonBlank,
        i,
    ) == Some(1nat) by {
        lemma_blank_run(lines, 0, i);
        assert(lines.take(0) =~= Seq::<Seq<char>>::empty());
        assert(lines.take(i + 1).drop_last() =~= lines.take(i));
    }
    assert forall|i: int, j: int|
        #![trigger line_number(lines, Numbering::NonBlank, i), line_number(lines, Numbering::NonBlank, j)]
        0 <= i < j < lines.len() && lines[i].len() != 0 && lines[j].len() != 0 && (forall|k: int|
            i < k < j ==> #[trigger] lines[k].len() == 0) implies line_number(
        lines,
        Numbering::NonBlank,
        j,
    ) == Some(line_number(lines, Numbering::NonBlank, i)->0 + 1) by {
        lemma_blank_run(lines, i + 1, j);
        assert(lines.take(j + 1).drop_last() =~= lines.take(j));
    }
}

/// Numbers the lines of one source as they are read.
#[derive(Debug)]
pub struct LineNumberer {
    pub numbering: Numbering,
    /// How many numbers have been handed out so far.
    pub count: u64,
}

impl LineNumberer {
    /// The numbering for a new source: the next number is 1.
    pub fn new(numbering: Numbering) -> (r: LineNumberer)
        ensures
            r.numbering == numbering,
            r.count == 0,
    {
        LineNumberer { numbering, count: 0 }
    }

    /// Whether the next line may take a number without overflow.
    pub fn can_number(&self) -> (r: bool)
        ensures
            r == (self.count < u64::MAX),
    {
        self.count < u64::MAX
    }

    /// The printed form of the next line; the count advances when the line
    /// takes a number.
    pub fn render(&mut self, line: &str) -> (r: String)
        requires
            old(self).count < u64::MAX,
        ensures
            final(self).numbering == old(self).numbering,
            ({
                let takes = match old(self).numbering {
                    Numbering::All => true,
                    Numbering::NonBlank => line@.len() != 0,
                    Numbering::Off => false,
                };
                &&& final(self).count == if takes {
                    old(self).count + 1
                } else {
                    old(self).count as int
                }
                &&& r@ == rendered(
                    line@,
                    if takes {
                        Some((old(self).count + 1) as nat)
                    } else {
                        None
                    },
                )
            }),
    {
        let takes = match self.numbering {
            Numbering::All => true,
            Numbering::NonBlank => !line.is_empty(),
            Numbering::Off => false,
        };
        if takes {
            self.count = self.count + 1;
            let mut out = right_aligned_decimal(self.count, NUMBER_WIDTH);
            proof {
                reveal_strlit("\t");
            }
            out.append("\t");
            out.append(line);
            out
        } else {
            String::from_str(line)
        }
    }
}

/// The lines printed for one source, numbered as `numbering` says.
pub fn number_lines(lines: &Vec<String>, numbering: Numbering) -> (r: Vec<String>)
    ensures
        r.deep_view() == numbered(lines.deep_view(), numbering),
{
    let ghost src = lines.deep_view();
    let mut numberer = LineNumberer::new(numbering);
    let mut out: Vec<String> = Vec::new();
    let mut i: usize = 0;
    while i < lines.len()
        invariant
            src == lines.deep_view(),
            i <= lines.len(),
            numberer.numbering == numbering,
            numberer.count == match numbering {
                Numbering::All => i as nat,
                Numbering::NonBlank => nonblank_count(src.take(i as int)),
                Numbering::Off => 0,
            },
            out@.len() == i,
            forall|k: int| 0 <= k < i ==> #[trigger] out@[k]@ == numbered(src, numbering)[k],
        decreases lines.len() - i,
    {
        proof {
            lemma_nonblank_count_bound(src.take(i as int));
            assert(src.take(i + 1).drop_last() =~= src.take(i as int));
        }
        let s = numberer.render(lines[i].as_str());
        out.push(s);
        i = i + 1;
    }
    assert(out.deep_view() =~= numbered(src, numbering));
    out
}

/// The message reported when a source cannot be opened.
pub fn open_error_message(filename: &str, cause: &str) -> (r: String)
    ensures
        r@ == "Cannot open file "@ + filename@ + ": "@ + cause@,
{
    let mut out = String::from_str("Cannot open file ");
    out.append(filename);
    out.append(": ");
    out.append(cause);
    out
}

} // verus!
