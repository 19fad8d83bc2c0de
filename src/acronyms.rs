//! Protection of acronyms such as `SAT` or `MaxSAT` by curly braces.

use vstd::prelude::*;

use crate::text::{alnum, is_alnum, is_upper, push_char, push_sub, to_chars, upper};

verus! {

/// A character that belongs to a word: alphanumeric, `_` or `-`.
pub open spec fn word_char(c: char) -> bool {
    alnum(c) || c == '_' || c == '-'
}

fn is_word_char(c: char) -> (r: bool)
    ensures
        r == word_char(c),
{
    c == '_' || c == '-' || is_alnum(c)
}

/// The end of the run of word characters that starts at `i`.
pub open spec fn run_end(s: Seq<char>, i: int) -> int
    decreases s.len() - i,
{
    if i < 0 || i >= s.len() || !word_char(s[i]) {
        i
    } else {
        run_end(s, i + 1)
    }
}

/// The number of upper-case characters of `w`.
pub open spec fn count_upper(w: Seq<char>) -> int
    decreases w.len(),
{
    if w.len() == 0 {
        0
    } else {
        count_upper(w.drop_last()) + if upper(w.last()) {
            1int
        } else {
            0int
        }
    }
}

/// The number of hyphens of `w`.
pub open spec fn count_hyphens(w: Seq<char>) -> int
    decreases w.len(),
{
    if w.len() == 0 {
        0
    } else {
        count_hyphens(w.drop_last()) + if w.last() == '-' {
            1int
        } else {
            0int
        }
    }
}

/// A word is an acronym when it has more upper-case letters than can be explained by the
/// hyphens in it, plus one, or when it starts lower-case and holds an upper-case letter.
pub open spec fn acronym(w: Seq<char>) -> bool {
    w.len() > 0 && (count_upper(w) - count_hyphens(w.drop_last()) > 1 || (!upper(w[0])
        && count_upper(w) > 0))
}

/// The word ends in `-based` or `-Based`, which stays outside the braces.
pub open spec fn based(w: Seq<char>) -> bool {
    let n = w.len();
    n >= 6 && w[n - 6] == '-' && (w[n - 5] == 'b' || w[n - 5] == 'B') && w[n - 4] == 'a' && w[n
        - 3] == 's' && w[n - 2] == 'e' && w[n - 1] == 'd'
}

/// `s` from position `i` on, with each acronym wrapped in braces.
pub open spec fn wrapped_from(s: Seq<char>, i: int) -> Seq<char>
    decreases s.len() - i,
{
    if i < 0 || i >= s.len() {
        Seq::empty()
    } else if !word_char(s[i]) {
        seq![s[i]] + wrapped_from(s, i + 1)
    } else {
        let e = run_end(s, i);
        if e <= i || e > s.len() {
            Seq::empty()
        } else {
            let w = s.subrange(i, e);
            if acronym(w) {
                let cut = if based(w) {
                    e - 6
                } else {
                    e
                };
                seq!['{'] + s.subrange(i, cut) + seq!['}'] + s.subrange(cut, e) + wrapped_from(
                    s,
                    e,
                )
            } else {
                w + wrapped_from(s, e)
            }
        }
    }
}

/// `s` with each acronym wrapped in braces.
pub open spec fn acronyms_wrapped(s: Seq<char>) -> Seq<char> {
    wrapped_from(s, 0)
}

fn word_counts(v: &Vec<char>, from: usize, to: usize) -> (r: (usize, usize))
    requires
        from < to <= v@.len(),
    ensures
        r.0 as int == count_upper(v@.subrange(from as int, to as int)),
        r.1 as int == count_hyphens(v@.subrange(from as int, to as int).drop_last()),
        r.1 <= to - from,
{
    let mut ups: usize = 0;
    let mut hyphens: usize = 0;
    let mut k: usize = from;
    while k < to
        invariant
            from <= k <= to <= v@.len(),
            ups as int == count_upper(v@.subrange(from as int, k as int)),
            k > from ==> hyphens as int == count_hyphens(
                v@.subrange(from as int, k as int).drop_last(),
            ),
            k == from ==> hyphens == 0,
            ups <= k - from,
            hyphens <= k - from,
        decreases to - k,
    {
        let ghost sub = v@.subrange(from as int, k as int + 1);
        assert(sub.drop_last() =~= v@.subrange(from as int, k as int));
        if k > from {
            assert(sub.drop_last().drop_last() =~= v@.subrange(from as int, k as int).drop_last());
            if v[k - 1] == '-' {
                hyphens = hyphens + 1;
            }
        }
        if is_upper(v[k]) {
            ups = ups + 1;
        }
        k = k + 1;
    }
    (ups, hyphens)
}

/// The output for the word `v[i..e]`, after which the text goes on at `e`.
fn word_piece(v: &Vec<char>, i: usize, e: usize) -> (r: String)
    requires
        i < e <= v@.len(),
        word_char(v@[i as int]),
        run_end(v@, i as int) == e,
    ensures
        r@ + wrapped_from(v@, e as int) == wrapped_from(v@, i as int),
{
    let ghost w = v@.subrange(i as int, e as int);
    let (ups, hyphens) = word_counts(v, i, e);
    let acro = (ups > hyphens && ups - hyphens > 1) || (!is_upper(v[i]) && ups > 0);
    assert(w[0] == v@[i as int]);
    assert(acro == acronym(w));
    let mut out = String::new();
    if acro {
        let cut = if e - i >= 6 && v[e - 6] == '-' && (v[e - 5] == 'b' || v[e - 5] == 'B') && v[e
            - 4] == 'a' && v[e - 3] == 's' && v[e - 2] == 'e' && v[e - 1] == 'd' {
            e - 6
        } else {
            e
        };
        assert((cut == e - 6) == based(w));
        push_char(&mut out, '{');
        push_sub(&mut out, v, i, cut);
        push_char(&mut out, '}');
        push_sub(&mut out, v, cut, e);
    } else {
        push_sub(&mut out, v, i, e);
        assert(out@ =~= w);
    }
    out
}

/// Wraps acronyms such as `SAT` or `MaxSAT` in curly braces, so that their case is kept.
pub fn fix_acronyms(string: &mut String)
    ensures
        final(string)@ == acronyms_wrapped(old(string)@),
{
    let v = to_chars(string.as_str());
    let n = v.len();
    let mut out = String::new();
    let mut i: usize = 0;
    while i < n
        invariant
            n == v@.len(),
            i <= n,
            out@ + wrapped_from(v@, i as int) == wrapped_from(v@, 0),
        decreases n - i,
    {
        if !is_word_char(v[i]) {
            push_char(&mut out, v[i]);
            i = i + 1;
        } else {
            let mut e: usize = i + 1;
            while e < n && is_word_char(v[e])
                invariant
                    i < e <= n,
                    n == v@.len(),
                    run_end(v@, i as int) == run_end(v@, e as int),
                decreases n - e,
            {
                e = e + 1;
            }
            let piece = word_piece(&v, i, e);
            let ghost before = out@;
            out.append(piece.as_str());
            assert(out@ + wrapped_from(v@, e as int) =~= before + (piece@ + wrapped_from(
                v@,
                e as int,
            )));
            i = e;
        }
    }
    assert(out@ =~= out@ + wrapped_from(v@, n as int));
    *string = out;
}

} // verus!
