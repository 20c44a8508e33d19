//! Mnemonic input checks of the wallet import screen.

use vstd::prelude::*;
use crate::text::{is_whitespace, is_whitespace_char, str_chars, trim, word_count};

verus! {

/// Count the number of whitespace-separated words in a mnemonic input.
pub fn mnemonic_word_count(input: &str) -> (r: usize)
    ensures
        r == word_count(input@),
{
    let cs = str_chars(input);
    let mut count: usize = 0;
    let mut i: usize = 0;
    while i < cs.len()
        invariant
            i <= cs@.len(),
            cs@ == input@,
            count == word_count(cs@.take(i as int)),
            count <= i,
        decreases cs.len() - i,
    {
        let starts = !is_whitespace_char(cs[i]) && (i == 0 || is_whitespace_char(cs[i - 1]));
        proof {
            let t = cs@.take(i + 1);
            assert(t.drop_last() =~= cs@.take(i as int));
            assert(t.last() == cs@[i as int]);
            if i > 0 {
                assert(t[t.len() - 2] == cs@[i - 1]);
            }
        }
        if starts {
            count = count + 1;
        }
        i = i + 1;
    }
    assert(cs@.take(cs@.len() as int) =~= cs@);
    count
}

/// Check whether a word count is valid for a BIP-39 mnemonic (12 or 24 words).
pub fn is_valid_mnemonic_word_count(count: usize) -> (r: bool)
    ensures
        r == (count == 12 || count == 24),
{
    count == 12 || count == 24
}

} // verus!
