//! Quoting of words for a shell command line, done by the `snailquote`
//! crate.

use crate::text::texts;
use vstd::prelude::*;

verus! {

/// `s` quoted for a shell as `snailquote::escape` quotes it: the word itself
/// where it needs no quotes, else the word in single or in double quotes.
pub uninterp spec fn escaped(s: Seq<char>) -> Seq<char>;

/// `snailquote::escape`: the word with shell-like quoting. The result is a
/// function of the word's text.
#[verifier::external_body]
pub(crate) fn escape(s: &str) -> (r: String)
    ensures
        r@ == escaped(s@),
{
    snailquote::escape(s).into_owned()
}

/// Each word of `words`, quoted.
pub open spec fn all_escaped(words: Seq<Seq<char>>) -> Seq<Seq<char>> {
    Seq::new(words.len(), |i: int| escaped(words[i]))
}

/// Each word of `words`, quoted.
pub fn escape_all(words: &Vec<String>) -> (r: Vec<String>)
    ensures
        texts(r@) == all_escaped(texts(words@)),
{
    let mut out: Vec<String> = Vec::new();
    let mut i: usize = 0;
    while i < words.len()
        invariant
            i <= words.len(),
            out.len() == i,
            forall|j: int| 0 <= j < i ==> out[j]@ == escaped(words[j]@),
        decreases words.len() - i,
    {
        out.push(escape(words[i].as_str()));
        i = i + 1;
    }
    assert(texts(out@) =~= all_escaped(texts(words@)));
    out
}

} // verus!
