//! A `head`: the first lines, or the first bytes, of each source.

use vstd::prelude::*;
use vstd::string::StringExecFns;
use vstd::utf8::{decode_utf8, decode_utf8_encode_utf8, encode_utf8, valid_utf8};
use crate::source::{files_or_stdin, files_or_stdin_spec};

verus! {

/// Lines printed of each source when no limit is given.
pub const DEFAULT_LINES: u64 = 10;

/// How much of each source is printed.
#[derive(Debug, Clone, Copy, PartialEq, Eq, Structural)]
pub enum Limit {
    /// The first so many lines (at least one).
    Lines(u64),
    /// The first so many bytes.
    Bytes(usize),
}

/// What `head` works on.
#[derive(Debug)]
pub struct Config {
    pub files: Vec<String>,
    pub limit: Limit,
}

impl Config {
    /// A line limit is at least one line.
    pub open spec fn wf(&self) -> bool {
        self.limit matches Limit::Lines(n) ==> n >= 1
    }
}

/// Why a command line does not give a configuration.
#[derive(Debug, Clone, Copy, PartialEq, Eq, Structural)]
pub enum ArgsError {
    /// A line count of zero was given.
    ZeroLines,
    /// Both a line count and a byte count were given.
    ConflictingLimits,
}

/// Builds the configuration from the source names and the line and byte
/// counts given, if any. The two counts exclude each other, a line count is
/// at least one, and without either ten lines are printed. No name means
/// standard input.
pub fn get_args(files: Vec<String>, lines: Option<u64>, bytes: Option<usize>) -> (r: Result<
    Config,
    ArgsError,
>)
    ensures
        (r is Err) <==> (lines == Some(0u64) || (lines is Some && bytes is Some)),
        r matches Err(e) ==> e == (if lines == Some(0u64) {
            ArgsError::ZeroLines
        } else {
            ArgsError::ConflictingLimits
        }),
        r matches Ok(c) ==> {
            &&& c.wf()
            &&& c.files.deep_view() == files_or_stdin_spec(files.deep_view())
            &&& c.limit == match bytes {
                Some(b) => Limit::Bytes(b),
                None => Limit::Lines(
                    match lines {
                        Some(n) => n,
                        None => DEFAULT_LINES,
                    },
                ),
            }
        },
{
    match (lines, bytes) {
        (Some(0), _) => Err(ArgsError::ZeroLines),
        (Some(_), Some(_)) => Err(ArgsError::ConflictingLimits),
        (_, Some(b)) => Ok(Config { files: files_or_stdin(files), limit: Limit::Bytes(b) }),
        (Some(n), None) => Ok(Config { files: files_or_stdin(files), limit: Limit::Lines(n) }),
        (None, None) => Ok(
            Config { files: files_or_stdin(files), limit: Limit::Lines(DEFAULT_LINES) },
        ),
    }
}

/// The line that announces source `name`, the `file_num`-th of `num_files`:
/// only when there are several sources, and after a blank line for all but
/// the first.
pub open spec fn banner_spec(name: Seq<char>, file_num: nat, num_files: nat) -> Option<
    Seq<char>,
> {
    if num_files > 1 {
        Some(
            (if file_num > 0 {
                seq!['\n']
            } else {
                Seq::empty()
            }) + "==> "@ + name + " <=="@,
        )
    } else {
        None
    }
}

/// The banner printed before source `filename`, the `file_num`-th (from 0)
/// of `num_files` sources.
pub fn banner(filename: &str, file_num: usize, num_files: usize) -> (r: Option<String>)
    ensures
        r matches Some(s) ==> banner_spec(filename@, file_num as nat, num_files as nat) == Some(
            s@,
        ),
        r is None ==> banner_spec(filename@, file_num as nat, num_files as nat) is None,
{
    if num_files <= 1 {
        return None;
    }
    let mut out = String::new();
    if file_num > 0 {
        proof {
            reveal_strlit("\n");
        }
        out.append("\n");
    }
    out.append("==> ");
    out.append(filename);
    out.append(" <==");
    Some(out)
}

/// The message reported when a source cannot be opened.
pub fn open_error_message(filename: &str, cause: &str) -> (r: String)
    ensures
        r@ == filename@ + ": "@ + cause@,
{
    let mut out = String::from_str(filename);
    out.append(": ");
    out.append(cause);
    out
}

/// The smaller of a limit and a length.
pub open spec fn capped(limit: int, len: int) -> int {
    if limit < len {
        limit
    } else {
        len
    }
}

/// Counts the lines taken from a source against a line limit, so that
/// reading can stop as soon as the limit is reached.
#[derive(Debug)]
pub struct LineBudget {
    pub limit: u64,
    pub taken: u64,
}

impl LineBudget {
    /// A budget of `limit` lines, none taken yet.
    pub fn new(limit: u64) -> (r: LineBudget)
        ensures
            r.limit == limit,
            r.taken == 0,
    {
        LineBudget { limit, taken: 0 }
    }

    /// Whether another line is to be printed.
    pub fn wants_more(&self) -> (r: bool)
        ensures
            r == (self.taken < self.limit),
    {
        self.taken < self.limit
    }

    /// Records one more line taken.
    pub fn take_one(&mut self)
        requires
            old(self).taken < old(self).limit,
        ensures
            final(self).limit == old(self).limit,
            final(self).taken == old(self).taken + 1,
    {
        self.taken = self.taken + 1;
    }
}

/// The lines printed of a source: the first `limit`, or all when it has
/// fewer.
pub fn head_lines(lines: &Vec<String>, limit: u64) -> (r: Vec<String>)
    ensures
        r.deep_view() == lines.deep_view().take(capped(limit as int, lines@.len() as int)),
{
    let ghost src = lines.deep_view();
    let mut budget = LineBudget::new(limit);
    let mut out: Vec<String> = Vec::new();
    let mut i: usize = 0;
    while i < lines.len() && budget.wants_more()
        invariant
            src == lines.deep_view(),
            i <= lines.len(),
            budget.limit == limit,
            budget.taken == i,
            i <= limit,
            out.deep_view() == src.take(i as int),
        decreases lines.len() - i,
    {
        budget.take_one();
        let line = lines[i].clone();
        let ghost before = out.deep_view();
        out.push(line);
        assert(out.deep_view() =~= before.push(line@));
        assert(src.take(i + 1) =~= src.take(i as int).push(src[i as int]));
        i = i + 1;
    }
    assert(i as int == capped(limit as int, lines@.len() as int));
    out
}

/// The bytes printed of a source: the first `limit`, or all when it has
/// fewer.
pub fn head_bytes(data: &Vec<u8>, limit: usize) -> (r: Vec<u8>)
    ensures
        r@ == data@.take(capped(limit as int, data@.len() as int)),
{
    let mut out: Vec<u8> = Vec::new();
    let mut i: usize = 0;
    while i < data.len() && i < limit
        invariant
            i <= data.len(),
            i <= limit,
            out@ == data@.take(i as int),
        decreases data.len() - i,
    {
        out.push(data[i]);
        assert(out@ =~= data@.take(i + 1));
        i = i + 1;
    }
    out
}

/// The text that the standard library's lossy UTF-8 decoding makes of `b`.
pub uninterp spec fn utf8_lossy_of(b: Seq<u8>) -> Seq<char>;

/// Relies on `String::from_utf8_lossy`: the result depends on the bytes
/// alone, and valid UTF-8 is decoded as it is (only invalid sequences are
/// replaced).
#[verifier::external_body]
fn decode_lossy(b: &[u8]) -> (r: String)
    ensures
        r@ == utf8_lossy_of(b@),
        valid_utf8(b@) ==> r@ == decode_utf8(b@),
{
    String::from_utf8_lossy(b).into_owned()
}

/// The text printed of a source in byte mode: its first `limit` bytes (all
/// of them when it has fewer), decoded as UTF-8 with invalid sequences
/// replaced.
pub fn head_bytes_text(data: &Vec<u8>, limit: usize) -> (r: String)
    ensures
        r@ == utf8_lossy_of(data@.take(capped(limit as int, data@.len() as int))),
        valid_utf8(data@.take(capped(limit as int, data@.len() as int))) ==> r@ == decode_utf8(
            data@.take(capped(limit as int, data@.len() as int)),
        ),
{
    let bytes = head_bytes(data, limit);
    decode_lossy(bytes.as_slice())
}

/// A line limit of `limit` prints `min(limit, n)` lines of an `n`-line
/// source, the whole source when `limit >= n`.
pub proof fn lemma_head_lines_count(lines: Seq<Seq<char>>, limit: nat)
    ensures
        lines.take(capped(limit as int, lines.len() as int)).len() == if limit < lines.len() {
            limit as int
        } else {
            lines.len() as int
        },
        limit >= lines.len() ==> lines.take(capped(limit as int, lines.len() as int)) == lines,
{
    if limit >= lines.len() {
        assert(lines.take(lines.len() as int) =~= lines);
    }
}

/// A byte limit of `limit` selects at most `limit` bytes, exactly `limit`
/// unless the source is shorter; where the selected bytes are valid UTF-8,
/// the printed text takes exactly as many bytes.
pub proof fn lemma_head_bytes_count(data: Seq<u8>, limit: nat)
    ensures
        data.take(capped(limit as int, data.len() as int)).len() <= limit,
        data.len() >= limit ==> data.take(capped(limit as int, data.len() as int)).len() == limit,
        valid_utf8(data.take(capped(limit as int, data.len() as int))) ==> encode_utf8(
            decode_utf8(data.take(capped(limit as int, data.len() as int))),
        ).len() == data.take(capped(limit as int, data.len() as int)).len(),
{
    let p = data.take(capped(limit as int, data.len() as int));
    if valid_utf8(p) {
        decode_utf8_encode_utf8(p);
    }
}

/// With several sources each one is announced by a banner that names it,
/// after a blank line for all but the first; with a single source there is
/// no banner.
pub proof fn lemma_banners(names: Seq<Seq<char>>)
    ensures
        names.len() == 1 ==> banner_spec(names[0], 0, 1) is None,
        names.len() > 1 ==> forall|i: int|
            0 <= i < names.len() ==> #[trigger] banner_spec(names[i], i as nat, names.len())
                == Some(
                (if i > 0 {
                    seq!['\n']
                } else {
                    Seq::empty()
                }) + "==> "@ + names[i] + " <=="@,
            ),
{
}

} // verus!
