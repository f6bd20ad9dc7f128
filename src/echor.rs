//! An `echo`: the words given, joined by single spaces.

use vstd::prelude::*;
use vstd::string::StringExecFns;

verus! {

/// Why `echo` prints nothing.
#[derive(Debug, Clone, Copy, PartialEq, Eq, Structural)]
pub enum EchoError {
    /// No word was given; at least one is required.
    NoText,
}

/// The words joined by single spaces.
pub open spec fn joined(words: Seq<Seq<char>>) -> Seq<char>
    decreases words.len(),
{
    if words.len() == 0 {
        Seq::empty()
    } else if words.len() == 1 {
        words[0]
    } else {
        joined(words.drop_last()) + seq![' '] + words.last()
    }
}

/// What `echo` prints: the words joined by single spaces, and a newline
/// unless `omit_newline`.
pub open spec fn echo_spec(words: Seq<Seq<char>>, omit_newline: bool) -> Seq<char> {
    if omit_newline {
        joined(words)
    } else {
        joined(words) + seq!['\n']
    }
}

/// The words joined by single spaces.
pub fn join_words(words: &Vec<String>) -> (r: String)
    ensures
        r@ == joined(words.deep_view()),
{
    let ghost w = words.deep_view();
    let mut out = String::new();
    if words.len() == 0 {
        return out;
    }
    out.append(words[0].as_str());
    assert(w.take(1) =~= seq![w[0]]);
    let mut i: usize = 1;
    while i < words.len()
        invariant
            w == words.deep_view(),
            1 <= i <= words.len(),
            out@ == joined(w.take(i as int)),
        decreases words.len() - i,
    {
        proof {
            reveal_strlit(" ");
            assert(w.take(i + 1).drop_last() =~= w.take(i as int));
        }
        out.append(" ");
        out.append(words[i].as_str());
        i = i + 1;
    }
    assert(w.take(i as int) =~= w);
    out
}

/// What `echo` prints for `words`; an error when there is no word.
pub fn echo_output(words: &Vec<String>, omit_newline: bool) -> (r: Result<String, EchoError>)
    ensures
        (r is Err) <==> words@.len() == 0,
        r matches Ok(s) ==> s@ == echo_spec(words.deep_view(), omit_newline),
{
    if words.len() == 0 {
        return Err(EchoError::NoText);
    }
    let mut out = join_words(words);
    if !omit_newline {
        proof {
            reveal_strlit("\n");
        }
        out.append("\n");
    }
    Ok(out)
}

} // verus!
