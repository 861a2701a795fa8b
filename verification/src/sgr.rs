use vstd::prelude::*;
use crate::digits::decimal_seq;
use crate::digits::lemma_decimal_seq_injective;
use crate::digits::lemma_decimal_seq_len;

verus! {

/// The SGR escape sequence with the single decimal parameter `k`:
/// `ESC`, `[`, the decimal rendering of `k`, `m`.
pub open spec fn sgr(k: nat) -> Seq<char> {
    seq!['\x1b', '['] + decimal_seq(k) + seq!['m']
}

/// A well-formed SGR sequence: non-empty (at least `ESC [ <digit> m`),
/// beginning with `ESC` `[` and ending with `m`.
pub open spec fn is_sgr(s: Seq<char>) -> bool {
    &&& s.len() >= 4
    &&& s[0] == '\x1b'
    &&& s[1] == '['
    &&& s.last() == 'm'
}

/// Every single-parameter SGR sequence is well-formed.
pub proof fn lemma_sgr_wellformed(k: nat)
    ensures
        is_sgr(sgr(k)),
{
    lemma_decimal_seq_len(k);
}

/// Every single-parameter SGR sequence is well-formed, for every parameter.
pub proof fn lemma_sgr_all_wellformed()
    ensures
        forall|k: nat| is_sgr(#[trigger] sgr(k)),
{
    assert forall|k: nat| is_sgr(#[trigger] sgr(k)) by {
        lemma_sgr_wellformed(k);
    }
}

/// Distinct SGR parameters give distinct escape sequences.
pub proof fn lemma_sgr_injective(a: nat, b: nat)
    requires
        a != b,
    ensures
        sgr(a) != sgr(b),
{
    if sgr(a) == sgr(b) {
        lemma_decimal_seq_len(a);
        lemma_decimal_seq_len(b);
        assert(decimal_seq(a) =~= sgr(a).subrange(2, sgr(a).len() - 1));
        assert(decimal_seq(b) =~= sgr(b).subrange(2, sgr(b).len() - 1));
        lemma_decimal_seq_injective(a, b);
    }
}

} // verus!
