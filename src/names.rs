//! Reordering of personal names into `<last>, <first> <middle>` form.

use vstd::prelude::*;

use crate::text::{is_lower, is_space, lower, push_chars, space, to_chars};

verus! {

/// The views of a sequence of character vectors.
pub open spec fn views(v: Seq<Vec<char>>) -> Seq<Seq<char>> {
    v.map_values(|t: Vec<char>| t@)
}

/// Whitespace splitting of a prefix: the finished words and the word in progress.
pub open spec fn split_state(s: Seq<char>) -> (Seq<Seq<char>>, Seq<char>)
    decreases s.len(),
{
    if s.len() == 0 {
        (Seq::empty(), Seq::empty())
    } else {
        let prev = split_state(s.drop_last());
        let c = s.last();
        if space(c) {
            if prev.1.len() > 0 {
                (prev.0.push(prev.1), Seq::empty())
            } else {
                prev
            }
        } else {
            (prev.0, prev.1.push(c))
        }
    }
}

/// The maximal runs of non-whitespace characters of `s`, in order.
pub open spec fn words(s: Seq<char>) -> Seq<Seq<char>> {
    let st = split_state(s);
    if st.1.len() > 0 {
        st.0.push(st.1)
    } else {
        st.0
    }
}

/// The particles that begin a last name even when capitalised, unless a caller gives its
/// own.
pub open spec fn default_particles() -> Seq<Seq<char>> {
    seq![seq!['L', 'e'], seq!['L', 'a'], seq!['V', 'a', 'n'], seq!['V', 'o', 'n']]
}

/// `t` is one of the particles `ps`.
pub open spec fn particle(t: Seq<char>, ps: Seq<Seq<char>>) -> bool {
    exists|i: int| 0 <= i < ps.len() && ps[i] == t
}

/// The first index from `i` on whose word starts with a lower-case letter.
pub open spec fn first_lower(t: Seq<Seq<char>>, i: int) -> Option<int>
    decreases t.len() - i,
{
    if i < 0 || i >= t.len() {
        None
    } else if t[i].len() > 0 && lower(t[i][0]) {
        Some(i)
    } else {
        first_lower(t, i + 1)
    }
}

/// The first index from `i` on whose word is one of the particles `ps`.
pub open spec fn first_particle(t: Seq<Seq<char>>, i: int, ps: Seq<Seq<char>>) -> Option<int>
    decreases t.len() - i,
{
    if i < 0 || i >= t.len() {
        None
    } else if particle(t[i], ps) {
        Some(i)
    } else {
        first_particle(t, i + 1, ps)
    }
}

/// Where the last name begins: a word after the first that starts lower-case, else a
/// particle after the first, else the last word.
pub open spec fn last_name_start(t: Seq<Seq<char>>, ps: Seq<Seq<char>>) -> int {
    match first_lower(t, 1) {
        Some(i) => i,
        None => match first_particle(t, 1, ps) {
            Some(i) => i,
            None => t.len() - 1,
        },
    }
}

/// The words joined by single spaces.
pub open spec fn join(t: Seq<Seq<char>>) -> Seq<char>
    decreases t.len(),
{
    if t.len() == 0 {
        Seq::empty()
    } else if t.len() == 1 {
        t[0]
    } else {
        join(t.drop_last()) + seq![' '] + t.last()
    }
}

/// `<last>, <first> <middle>` for the words `t` whose last name begins at `k`.
pub open spec fn converted(t: Seq<Seq<char>>, k: int) -> Seq<char> {
    join(t.skip(k)) + seq![',', ' '] + join(t.take(k))
}

/// The reordered form of the name `s` with the particles `ps`; a name without words stays
/// as it is.
pub open spec fn reordered_with(s: Seq<char>, ps: Seq<Seq<char>>) -> Seq<char> {
    let t = words(s);
    if t.len() == 0 {
        s
    } else {
        converted(t, last_name_start(t, ps))
    }
}

/// The reordered form of the name `s` with the default particles.
pub open spec fn reordered(s: Seq<char>) -> Seq<char> {
    reordered_with(s, default_particles())
}

fn split_words(s: &Vec<char>) -> (r: Vec<Vec<char>>)
    ensures
        views(r@) == words(s@),
{
    let mut ws: Vec<Vec<char>> = Vec::new();
    let mut cur: Vec<char> = Vec::new();
    let mut i: usize = 0;
    while i < s.len()
        invariant
            i <= s@.len(),
            (views(ws@), cur@) == split_state(s@.take(i as int)),
        decreases s@.len() - i,
    {
        let c = s[i];
        assert(s@.take(i as int + 1).drop_last() =~= s@.take(i as int));
        if is_space(c) {
            if cur.len() > 0 {
                let w = cur;
                cur = Vec::new();
                ws.push(w);
                assert(views(ws@) =~= split_state(s@.take(i as int)).0.push(w@));
            }
        } else {
            cur.push(c);
        }
        i = i + 1;
    }
    assert(s@.take(s@.len() as int) =~= s@);
    if cur.len() > 0 {
        let w = cur;
        ws.push(w);
        assert(views(ws@) =~= split_state(s@).0.push(w@));
    }
    ws
}

fn is_particle(t: &Vec<char>, ps: &Vec<Vec<char>>) -> (r: bool)
    ensures
        r == particle(t@, views(ps@)),
{
    let mut i: usize = 0;
    while i < ps.len()
        invariant
            i <= ps@.len(),
            forall|j: int| 0 <= j < i ==> views(ps@)[j] != t@,
        decreases ps@.len() - i,
    {
        if crate::text::chars_eq(&ps[i], t) {
            assert(views(ps@)[i as int] == t@);
            return true;
        }
        i = i + 1;
    }
    false
}

fn find_start(t: &Vec<Vec<char>>, ps: &Vec<Vec<char>>) -> (r: usize)
    requires
        t@.len() > 0,
    ensures
        r < t@.len(),
        r as int == last_name_start(views(t@), views(ps@)),
{
    let ghost v = views(t@);
    let mut i: usize = 1;
    while i < t.len()
        invariant
            1 <= i <= t@.len(),
            v == views(t@),
            first_lower(v, 1) == first_lower(v, i as int),
        decreases t@.len() - i,
    {
        if t[i].len() > 0 && is_lower(t[i][0]) {
            return i;
        }
        i = i + 1;
    }
    let mut j: usize = 1;
    while j < t.len()
        invariant
            1 <= j <= t@.len(),
            v == views(t@),
            first_lower(v, 1) is None,
            first_particle(v, 1, views(ps@)) == first_particle(v, j as int, views(ps@)),
        decreases t@.len() - j,
    {
        if is_particle(&t[j], ps) {
            return j;
        }
        j = j + 1;
    }
    t.len() - 1
}

fn push_joined(out: &mut String, t: &Vec<Vec<char>>, from: usize, to: usize)
    requires
        from <= to <= t@.len(),
    ensures
        final(out)@ == old(out)@ + join(views(t@).subrange(from as int, to as int)),
{
    let ghost v = views(t@);
    let mut i: usize = from;
    while i < to
        invariant
            from <= i <= to <= t@.len(),
            v == views(t@),
            out@ == old(out)@ + join(v.subrange(from as int, i as int)),
        decreases to - i,
    {
        let ghost before = out@;
        if i > from {
            push_chars(out, &[' ']);
        }
        push_chars(out, t[i].as_slice());
        proof {
            let sub = v.subrange(from as int, i as int + 1);
            assert(sub.drop_last() =~= v.subrange(from as int, i as int));
            assert(sub.last() == t@[i as int]@);
            if i == from {
                assert(sub.len() == 1);
            }
        }
        i = i + 1;
    }
}

/// Rewrites a name of form `<first> <middle> <last>` into `<last>, <first> <middle>`,
/// keeping multi-word last names such as `van ...`, `de la ...` or `Le ...` together.
pub fn fix(name: &mut String)
    ensures
        final(name)@ == reordered(old(name)@),
{
    let ps: Vec<Vec<char>> = vec![vec!['L', 'e'], vec!['L', 'a'], vec!['V', 'a', 'n'], vec!['V', 'o', 'n']];
    assert(views(ps@) =~= default_particles());
    reorder(name, &ps);
}

/// Like [`fix`], with the capitalised particles that begin a last name given by the
/// caller.
pub fn fix_with(name: &mut String, particles: &Vec<String>)
    ensures
        final(name)@ == reordered_with(old(name)@, crate::record::texts(particles@)),
{
    let ghost t = crate::record::texts(particles@);
    let mut ps: Vec<Vec<char>> = Vec::new();
    let mut i: usize = 0;
    while i < particles.len()
        invariant
            i <= particles@.len(),
            t == crate::record::texts(particles@),
            views(ps@) == t.take(i as int),
        decreases particles@.len() - i,
    {
        let ghost before = ps@;
        ps.push(to_chars(particles[i].as_str()));
        assert(views(ps@) =~= views(before).push(t[i as int]));
        assert(t.take(i as int + 1) =~= t.take(i as int).push(t[i as int]));
        i = i + 1;
    }
    assert(t.take(particles@.len() as int) =~= t);
    reorder(name, &ps);
}

fn reorder(name: &mut String, particles: &Vec<Vec<char>>)
    ensures
        final(name)@ == reordered_with(old(name)@, views(particles@)),
{
    let chars = to_chars(name.as_str());
    let tokens = split_words(&chars);
    if tokens.len() == 0 {
        return;
    }
    let k = find_start(&tokens, particles);
    *name = convert(&tokens, k);
}

fn convert(tokens: &Vec<Vec<char>>, last_name_start: usize) -> (r: String)
    requires
        last_name_start < tokens@.len(),
    ensures
        r@ == converted(views(tokens@), last_name_start as int),
{
    let ghost v = views(tokens@);
    let mut out = String::new();
    push_joined(&mut out, tokens, last_name_start, tokens.len());
    push_chars(&mut out, &[',', ' ']);
    push_joined(&mut out, tokens, 0, last_name_start);
    assert(v.subrange(last_name_start as int, v.len() as int) =~= v.skip(last_name_start as int));
    assert(v.subrange(0, last_name_start as int) =~= v.take(last_name_start as int));
    assert(out@ =~= converted(v, last_name_start as int));
    out
}

} // verus!
