//! Text as a sequence of characters: moving between `str` and `Vec<char>`,
//! finding a token, and replacing every occurrence of a token.

use vstd::prelude::*;

verus! {

/// The characters of `s`, in order.
pub fn to_chars(s: &str) -> (v: Vec<char>)
    ensures
        v@ == s@,
{
    let mut v: Vec<char> = Vec::new();
    for c in it: s.chars()
        invariant
            it.seq() == s@,
            v@ == it.seq().take(it.index() as int),
    {
        v.push(c);
    }
    v
}

/// `String::push` appends the character to the end of the string.
pub assume_specification[ String::push ](s: &mut String, c: char)
    ensures
        final(s)@ == old(s)@.push(c),
;

/// The string made of the characters of `v`, in order.
pub fn from_chars(v: &[char]) -> (s: String)
    ensures
        s@ == v@,
{
    let mut s = String::new();
    let mut i: usize = 0;
    while i < v.len()
        invariant
            i <= v.len(),
            s@ == v@.take(i as int),
        decreases v.len() - i,
    {
        s.push(v[i]);
        i += 1;
    }
    s
}

/// Whether the non-empty token `pat` stands in `s` at position `i`.
pub open spec fn occurs_at(s: Seq<char>, pat: Seq<char>, i: int) -> bool {
    &&& pat.len() > 0
    &&& 0 <= i
    &&& i + pat.len() <= s.len()
    &&& s.subrange(i, i + pat.len()) == pat
}

/// Whether the token `pat` stands anywhere in `s`.
pub open spec fn contains_token(s: Seq<char>, pat: Seq<char>) -> bool {
    exists|i: int| occurs_at(s, pat, i)
}

/// `s` with every occurrence of the token `from` replaced by `to`, reading
/// from the left; an occurrence that overlaps a replaced one does not count.
pub open spec fn replace_token(s: Seq<char>, from: Seq<char>, to: Seq<char>) -> Seq<char>
    decreases s.len(),
{
    if from.len() == 0 || s.len() < from.len() {
        s
    } else if s.subrange(0, from.len() as int) == from {
        to + replace_token(s.subrange(from.len() as int, s.len() as int), from, to)
    } else {
        seq![s[0]] + replace_token(s.subrange(1, s.len() as int), from, to)
    }
}

/// Tests for the token `pat` at position `i` of `s`.
pub fn token_at(s: &[char], pat: &[char], i: usize) -> (r: bool)
    ensures
        r == occurs_at(s@, pat@, i as int),
{
    if pat.len() == 0 || i > s.len() || pat.len() > s.len() - i {
        return false;
    }
    let mut k: usize = 0;
    while k < pat.len()
        invariant
            k <= pat.len(),
            i + pat.len() <= s.len(),
            forall|j: int| 0 <= j < k ==> s@[i + j] == pat@[j],
        decreases pat.len() - k,
    {
        if s[i + k] != pat[k] {
            assert(s@.subrange(i as int, i + pat.len())[k as int] == s@[i + k]);
            return false;
        }
        k += 1;
    }
    assert(s@.subrange(i as int, i + pat.len()) =~= pat@);
    true
}

/// Tests whether the token `pat` stands anywhere in `s`.
pub fn has_token(s: &[char], pat: &[char]) -> (r: bool)
    ensures
        r == contains_token(s@, pat@),
{
    let mut i: usize = 0;
    while i < s.len()
        invariant
            i <= s.len(),
            forall|j: int| 0 <= j < i ==> !occurs_at(s@, pat@, j),
        decreases s.len() - i,
    {
        if token_at(s, pat, i) {
            return true;
        }
        i += 1;
    }
    false
}

/// Replaces every occurrence of the token `from` in `s` by `to`.
pub fn replace_all(s: &[char], from: &[char], to: &[char]) -> (r: Vec<char>)
    ensures
        r@ == replace_token(s@, from@, to@),
{
    let mut out: Vec<char> = Vec::new();
    let mut i: usize = 0;
    assert(s@.subrange(0, s.len() as int) =~= s@);
    assert(out@ + replace_token(s@, from@, to@) =~= replace_token(s@, from@, to@));
    while i < s.len()
        invariant
            i <= s.len(),
            out@ + replace_token(s@.subrange(i as int, s.len() as int), from@, to@)
                == replace_token(s@, from@, to@),
        decreases s.len() - i,
    {
        let ghost rest = s@.subrange(i as int, s.len() as int);
        if token_at(s, from, i) {
            proof {
                assert(rest.subrange(0, from.len() as int) =~= from@);
                assert(rest.subrange(from.len() as int, rest.len() as int)
                    =~= s@.subrange(i + from.len(), s.len() as int));
            }
            let ghost before = out@;
            let mut k: usize = 0;
            while k < to.len()
                invariant
                    k <= to.len(),
                    out@ == before + to@.take(k as int),
                decreases to.len() - k,
            {
                out.push(to[k]);
                k += 1;
                assert(out@ =~= before + to@.take(k as int));
            }
            assert(to@.take(to.len() as int) =~= to@);
            assert(out@ + replace_token(s@.subrange(i + from.len(), s.len() as int), from@, to@)
                =~= before + replace_token(rest, from@, to@));
            i += from.len();
        } else {
            proof {
                if from.len() > 0 && rest.len() >= from.len() {
                    assert(rest.subrange(0, from.len() as int)
                        =~= s@.subrange(i as int, i + from.len()));
                }
                assert(rest.subrange(1, rest.len() as int)
                    =~= s@.subrange(i + 1, s.len() as int));
            }
            let ghost before = out@;
            out.push(s[i]);
            proof {
                if from.len() == 0 || rest.len() < from.len() {
                    lemma_replace_short(rest, from@, to@);
                    lemma_replace_short(rest.subrange(1, rest.len() as int), from@, to@);
                    assert(seq![rest[0]] + rest.subrange(1, rest.len() as int) =~= rest);
                }
                assert(out@ + replace_token(s@.subrange(i + 1, s.len() as int), from@, to@)
                    =~= before + replace_token(rest, from@, to@));
            }
            i += 1;
        }
    }
    assert(s@.subrange(s.len() as int, s.len() as int) =~= Seq::<char>::empty());
    assert(out@ + Seq::<char>::empty() =~= out@);
    out
}

/// A text shorter than the token, or an empty token: nothing is replaced.
proof fn lemma_replace_short(s: Seq<char>, from: Seq<char>, to: Seq<char>)
    requires
        from.len() == 0 || s.len() < from.len(),
    ensures
        replace_token(s, from, to) == s,
{
}

} // verus!
