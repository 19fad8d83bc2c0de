//! Resolution of many keys at once: the key set, the classification of outcomes and the
//! second batch of crossref targets.

use vstd::prelude::*;

use crate::names::views;
use crate::fetch::Error;
use crate::fixers::expand_booktitle;
use crate::record::{Entry, Record, Text};
use crate::text::{has_prefix, starts_with, to_chars};

verus! {

/// Lexicographic order of texts by code point, the order of `str`'s `Ord`.
pub open spec fn lex_lt(a: Text, b: Text) -> bool
    decreases a.len(),
{
    if a.len() == 0 {
        b.len() > 0
    } else if b.len() == 0 {
        false
    } else if a[0] != b[0] {
        a[0] < b[0]
    } else {
        lex_lt(a.skip(1), b.skip(1))
    }
}

/// No text comes before itself.
pub proof fn lemma_lex_irreflexive(a: Text)
    ensures
        !lex_lt(a, a),
    decreases a.len(),
{
    if a.len() > 0 {
        lemma_lex_irreflexive(a.skip(1));
    }
}

/// The order is transitive.
pub proof fn lemma_lex_transitive(a: Text, b: Text, c: Text)
    requires
        lex_lt(a, b),
        lex_lt(b, c),
    ensures
        lex_lt(a, c),
    decreases a.len(),
{
    if a.len() > 0 && b.len() > 0 && c.len() > 0 && a[0] == b[0] && b[0] == c[0] {
        lemma_lex_transitive(a.skip(1), b.skip(1), c.skip(1));
    }
}

/// Two different texts are ordered one way or the other.
pub proof fn lemma_lex_total(a: Text, b: Text)
    requires
        a != b,
    ensures
        lex_lt(a, b) || lex_lt(b, a),
    decreases a.len(),
{
    if a.len() > 0 && b.len() > 0 && a[0] == b[0] {
        if a.skip(1) == b.skip(1) {
            assert(a =~= seq![a[0]] + a.skip(1));
            assert(b =~= seq![b[0]] + b.skip(1));
        }
        lemma_lex_total(a.skip(1), b.skip(1));
    }
    if a.len() == 0 && b.len() == 0 {
        assert(a =~= b);
    }
}

fn text_lt(a: &Vec<char>, b: &Vec<char>) -> (r: bool)
    ensures
        r == lex_lt(a@, b@),
{
    let mut i: usize = 0;
    assert(a@.skip(0) =~= a@);
    assert(b@.skip(0) =~= b@);
    while i < a.len() && i < b.len() && a[i] == b[i]
        invariant
            i <= a@.len(),
            i <= b@.len(),
            lex_lt(a@, b@) == lex_lt(a@.skip(i as int), b@.skip(i as int)),
        decreases a@.len() - i,
    {
        assert(a@.skip(i as int).skip(1) =~= a@.skip(i as int + 1));
        assert(b@.skip(i as int).skip(1) =~= b@.skip(i as int + 1));
        i = i + 1;
    }
    if i == a.len() {
        i < b.len()
    } else if i == b.len() {
        false
    } else {
        a[i] < b[i]
    }
}

/// The texts are in strictly increasing order.
pub open spec fn strictly_sorted(s: Seq<Text>) -> bool {
    forall|i: int, j: int| 0 <= i < j < s.len() ==> lex_lt(#[trigger] s[i], #[trigger] s[j])
}

/// `k` is one of `s`.
pub open spec fn member(k: Text, s: Seq<Text>) -> bool {
    exists|i: int| 0 <= i < s.len() && s[i] == k
}

/// `DBLP:`, the prefix that marks a key of the database.
pub open spec fn namespace() -> Text {
    seq!['D', 'B', 'L', 'P', ':']
}

/// The database keys among the raw keys.
pub open spec fn wanted(k: Text, raw: Seq<Text>) -> bool {
    member(k, raw) && has_prefix(k, namespace())
}

/// `k` is one of `raw`, and has the database prefix if `only_namespace`.
pub open spec fn selected(k: Text, raw: Seq<Text>, only_namespace: bool) -> bool {
    member(k, raw) && (only_namespace ==> has_prefix(k, namespace()))
}

/// Inserts `k` into the strictly sorted `v` unless it is there already.
fn insert_sorted(v: &mut Vec<Vec<char>>, k: Vec<char>)
    requires
        strictly_sorted(views(old(v)@)),
    ensures
        strictly_sorted(views(final(v)@)),
        forall|x: Text| member(x, views(final(v)@)) <==> (member(x, views(old(v)@)) || x == k@),
{
    let ghost s = views(v@);
    let mut p: usize = 0;
    while p < v.len() && text_lt(&v[p], &k)
        invariant
            p <= v@.len(),
            s == views(v@),
            forall|i: int| 0 <= i < p ==> lex_lt(#[trigger] s[i], k@),
        decreases v@.len() - p,
    {
        p = p + 1;
    }
    if p < v.len() {
        let same = !text_lt(&k, &v[p]);
        if same {
            proof {
                if s[p as int] != k@ {
                    lemma_lex_total(s[p as int], k@);
                }
            }
            return;
        }
    }
    proof {
        assert forall|j: int| p <= j < s.len() implies lex_lt(k@, #[trigger] s[j]) by {
            if j > p {
                lemma_lex_transitive(k@, s[p as int], s[j]);
            }
        }
    }
    v.insert(p, k);
    let ghost t = views(v@);
    assert(t =~= s.insert(p as int, k@));
    assert forall|x: Text| member(x, t) <==> (member(x, s) || x == k@) by {
        if member(x, t) {
            let i = choose|i: int| 0 <= i < t.len() && t[i] == x;
            if i < p {
                assert(s[i] == x);
            } else if i > p {
                assert(s[i - 1] == x);
            }
        }
        if member(x, s) {
            let i = choose|i: int| 0 <= i < s.len() && s[i] == x;
            if i < p {
                assert(t[i] == x);
            } else {
                assert(t[i + 1] == x);
            }
        }
        if x == k@ {
            assert(t[p as int] == x);
        }
    }
}

/// The texts of `raw` (only those with the database prefix, if `only_namespace`), each
/// once, in increasing order.
fn sorted_set(raw: &Vec<String>, only_namespace: bool) -> (r: Vec<String>)
    ensures
        strictly_sorted(views_s(r@)),
        forall|k: Text| member(k, views_s(r@)) <==> selected(k, views_s(raw@), only_namespace),
{
    let prefix = to_chars("DBLP:");
    proof {
        reveal_strlit("DBLP:");
        assert(prefix@ =~= namespace());
    }
    let ghost rv = views_s(raw@);
    let mut acc: Vec<Vec<char>> = Vec::new();
    let mut i: usize = 0;
    while i < raw.len()
        invariant
            i <= raw@.len(),
            rv == views_s(raw@),
            prefix@ == namespace(),
            strictly_sorted(views(acc@)),
            forall|k: Text|
                member(k, views(acc@)) <==> selected(k, rv.take(i as int), only_namespace),
        decreases raw@.len() - i,
    {
        let k = to_chars(raw[i].as_str());
        let ghost before = views(acc@);
        if !only_namespace || starts_with(&k, prefix.as_slice()) {
            insert_sorted(&mut acc, k);
        }
        proof {
            assert forall|x: Text|
                member(x, views(acc@)) <==> selected(x, rv.take(i as int + 1), only_namespace) by {
                let t = rv.take(i as int + 1);
                if member(x, t) {
                    let j = choose|j: int| 0 <= j < t.len() && t[j] == x;
                    if j < i {
                        assert(rv.take(i as int)[j] == x);
                    }
                }
                if member(x, rv.take(i as int)) {
                    let j = choose|j: int| 0 <= j < i && rv.take(i as int)[j] == x;
                    assert(t[j] == x);
                }
                if x == k@ {
                    assert(t[i as int] == x);
                }
            }
        }
        i = i + 1;
    }
    assert(rv.take(raw@.len() as int) =~= rv);
    let mut r: Vec<String> = Vec::new();
    let mut j: usize = 0;
    while j < acc.len()
        invariant
            j <= acc@.len(),
            views_s(r@) == views(acc@).take(j as int),
        decreases acc@.len() - j,
    {
        let t = crate::text::from_chars(acc[j].as_slice());
        assert(t@ == views(acc@)[j as int]);
        let ghost before = r@;
        r.push(t);
        assert(r@ == before.push(t));
        assert(views_s(r@) =~= views_s(before).push(t@));
        j = j + 1;
        assert(views_s(r@) =~= views(acc@).take(j as int));
    }
    assert(views(acc@).take(acc@.len() as int) =~= views(acc@));
    r
}

/// The database keys among `raw`, each once, in increasing order.
pub fn citation_keys(raw: &Vec<String>) -> (r: Vec<String>)
    ensures
        strictly_sorted(views_s(r@)),
        forall|k: Text| member(k, views_s(r@)) <==> wanted(k, views_s(raw@)),
{
    sorted_set(raw, true)
}

/// The views of a sequence of strings.
pub open spec fn views_s(v: Seq<String>) -> Seq<Text> {
    v.map_values(|s: String| s@)
}

/// The outcome of fetching one key: its record, or the finding that the key is unknown.
#[derive(Debug)]
pub enum FetchRes {
    Rec(Record),
    Unknown(String),
}

/// The model of a [`FetchRes`].
pub enum Outcome {
    Rec(Entry),
    Unknown(Text),
}

impl View for FetchRes {
    type V = Outcome;

    open spec fn view(&self) -> Outcome {
        match self {
            FetchRes::Rec(r) => Outcome::Rec(r@),
            FetchRes::Unknown(k) => Outcome::Unknown(k@),
        }
    }
}

/// The models of a sequence of outcomes.
pub open spec fn outcomes(v: Seq<FetchRes>) -> Seq<Outcome> {
    v.map_values(|o: FetchRes| o@)
}

/// The models of a sequence of records.
pub open spec fn entries(v: Seq<Record>) -> Seq<Entry> {
    v.map_values(|r: Record| r@)
}

/// Sorts a fetch's result into an outcome: an unknown key is an outcome of its own,
/// every other error is passed on.
pub fn classify(r: Result<Record, Error>) -> (o: Result<FetchRes, Error>)
    ensures
        r matches Ok(rec) ==> (o matches Ok(x) && x@ == Outcome::Rec(rec@)),
        r matches Err(Error::UnknownKey(k)) ==> (o matches Ok(x) && x@ == Outcome::Unknown(k@)),
        r is Err && !(r matches Err(Error::UnknownKey(_))) ==> o is Err,
{
    match r {
        Ok(rec) => Ok(FetchRes::Rec(rec)),
        Err(Error::UnknownKey(k)) => Ok(FetchRes::Unknown(k)),
        Err(e) => Err(e),
    }
}

/// The records among the outcomes, in order.
pub open spec fn resolved(s: Seq<Outcome>) -> Seq<Entry>
    decreases s.len(),
{
    if s.len() == 0 {
        Seq::empty()
    } else {
        match s.last() {
            Outcome::Rec(e) => resolved(s.drop_last()).push(e),
            Outcome::Unknown(_) => resolved(s.drop_last()),
        }
    }
}

/// The unknown keys among the outcomes, in order.
pub open spec fn unknown(s: Seq<Outcome>) -> Seq<Text>
    decreases s.len(),
{
    if s.len() == 0 {
        Seq::empty()
    } else {
        match s.last() {
            Outcome::Rec(_) => unknown(s.drop_last()),
            Outcome::Unknown(k) => unknown(s.drop_last()).push(k),
        }
    }
}

/// The keys of the volumes that the records refer to without having them resolved.
pub open spec fn crossref_keys(s: Seq<Entry>) -> Seq<Text>
    decreases s.len(),
{
    if s.len() == 0 {
        Seq::empty()
    } else {
        match s.last().crossref_key() {
            Some(k) => crossref_keys(s.drop_last()).push(k),
            None => crossref_keys(s.drop_last()),
        }
    }
}

/// A batch's outcomes split into records, unknown keys and the keys of the volumes the
/// records refer to.
pub struct Split {
    pub records: Vec<Record>,
    pub unknown: Vec<String>,
    pub crossref_keys: Vec<String>,
}

/// Splits a batch's outcomes into the records and the unknown keys, each in their order,
/// and collects the keys of the volumes that the records refer to.
pub fn split_outcomes(results: Vec<FetchRes>) -> (r: Split)
    ensures
        entries(r.records@) == resolved(outcomes(results@)),
        views_s(r.unknown@) == unknown(outcomes(results@)),
        views_s(r.crossref_keys@) == crossref_keys(resolved(outcomes(results@))),
{
    let ghost all = outcomes(results@);
    let mut results = results;
    let mut records: Vec<Record> = Vec::new();
    let mut unknown_keys: Vec<String> = Vec::new();
    let mut cks: Vec<String> = Vec::new();
    let ghost mut i: int = 0;
    while results.len() > 0
        invariant
            0 <= i <= all.len(),
            outcomes(results@) == all.skip(i),
            entries(records@) == resolved(all.take(i)),
            views_s(unknown_keys@) == unknown(all.take(i)),
            views_s(cks@) == crossref_keys(resolved(all.take(i))),
        decreases results@.len(),
    {
        let ghost rest = results@;
        let o = results.remove(0);
        proof {
            assert(outcomes(rest).len() == rest.len());
            assert(i < all.len());
            assert(all.take(i + 1).drop_last() =~= all.take(i));
            assert(all[i] == o@) by {
                assert(outcomes(rest)[0] == all.skip(i)[0]);
                assert(outcomes(rest)[0] == rest[0]@);
            }
            assert(results@ =~= rest.subrange(1, rest.len() as int));
            assert forall|k: int| 0 <= k < results@.len() implies #[trigger] outcomes(results@)[k]
                == all.skip(i + 1)[k] by {
                assert(results@[k] == rest[k + 1]);
                assert(outcomes(rest)[k + 1] == all.skip(i)[k + 1]);
            }
            assert(outcomes(results@) =~= all.skip(i + 1));
            i = i + 1;
        }
        match o {
            FetchRes::Rec(rec) => {
                let ghost before = records@;
                let ghost kb = cks@;
                assert(resolved(all.take(i)) == resolved(all.take(i - 1)).push(rec@));
                assert(resolved(all.take(i)).drop_last() =~= resolved(all.take(i - 1)));
                match rec.crossref_key() {
                    Some(k) => {
                        cks.push(k.to_owned());
                        assert(views_s(cks@) =~= views_s(kb).push(k@));
                    },
                    None => {},
                }
                records.push(rec);
                assert(entries(records@) =~= entries(before).push(rec@));
            },
            FetchRes::Unknown(k) => {
                let ghost before = unknown_keys@;
                unknown_keys.push(k);
                assert(views_s(unknown_keys@) =~= views_s(before).push(k@));
            },
        }
    }
    assert(all.take(i) =~= all);
    Split { records, unknown: unknown_keys, crossref_keys: cks }
}

/// Every outcome is a record or an unknown key.
pub proof fn lemma_outcome_counts(s: Seq<Outcome>)
    ensures
        resolved(s).len() + unknown(s).len() == s.len(),
    decreases s.len(),
{
    if s.len() > 0 {
        lemma_outcome_counts(s.drop_last());
    }
}

/// The number of unknown keys among the outcomes.
pub open spec fn unknown_count(s: Seq<Outcome>) -> int {
    unknown(s).len() as int
}

/// A batch of `n` keys of which exactly one is unknown splits into `n - 1` records and one
/// unknown key: an unknown key takes nothing else with it.
pub proof fn lemma_one_unknown(s: Seq<Outcome>, u: int)
    requires
        0 <= u < s.len(),
        s[u] is Unknown,
        forall|i: int| 0 <= i < s.len() && i != u ==> #[trigger] s[i] is Rec,
    ensures
        resolved(s).len() == s.len() - 1,
        unknown(s) == seq![s[u]->Unknown_0],
    decreases s.len(),
{
    lemma_outcome_counts(s);
    if s.len() - 1 == u {
        lemma_no_unknown(s.drop_last());
        assert(s.last() == s[u]);
    } else {
        assert(s.drop_last()[u] == s[u]);
        lemma_one_unknown(s.drop_last(), u);
        assert(s.last() == s[s.len() - 1]);
    }
}

/// Outcomes that are all records have no unknown key.
pub proof fn lemma_no_unknown(s: Seq<Outcome>)
    requires
        forall|i: int| 0 <= i < s.len() ==> #[trigger] s[i] is Rec,
    ensures
        unknown(s) == Seq::<Text>::empty(),
    decreases s.len(),
{
    if s.len() > 0 {
        assert(s.last() == s[s.len() - 1]);
        assert forall|i: int| 0 <= i < s.len() - 1 implies #[trigger] s.drop_last()[i] is Rec by {
            assert(s.drop_last()[i] == s[i]);
        }
        lemma_no_unknown(s.drop_last());
    }
}

/// The keys of the records, in order.
pub open spec fn keys_of(s: Seq<Entry>) -> Seq<Text> {
    s.map_values(|e: Entry| e.key())
}

/// The records whose key is among `ks` (if `inside`) or not among them (otherwise).
pub open spec fn split_by(s: Seq<Entry>, ks: Seq<Text>, inside: bool) -> Seq<Entry>
    decreases s.len(),
{
    if s.len() == 0 {
        Seq::empty()
    } else if member(s.last().key(), ks) == inside {
        split_by(s.drop_last(), ks, inside).push(s.last())
    } else {
        split_by(s.drop_last(), ks, inside)
    }
}

fn contains_text(ks: &Vec<String>, k: &str) -> (r: bool)
    ensures
        r == member(k@, views_s(ks@)),
{
    let mut i: usize = 0;
    while i < ks.len()
        invariant
            i <= ks@.len(),
            forall|j: int| 0 <= j < i ==> views_s(ks@)[j] != k@,
        decreases ks@.len() - i,
    {
        if crate::text::text_eq(ks[i].as_str(), k) {
            assert(views_s(ks@)[i as int] == k@);
            return true;
        }
        i = i + 1;
    }
    false
}

/// The second batch: primary records that are also crossref targets are reused rather
/// than fetched again, and only the other targets are left to fetch.
pub struct CrossrefPlan {
    /// The primary records that no other record refers to.
    pub kept: Vec<Record>,
    /// The primary records that are also crossref targets.
    pub reused: Vec<Record>,
    /// The crossref targets that no primary record holds, each once, in increasing order.
    pub to_fetch: Vec<String>,
}

/// Plans the second batch from the primary records and the crossref keys they hold.
pub fn plan_crossrefs(records: Vec<Record>, crossref_keys: &Vec<String>) -> (r: CrossrefPlan)
    ensures
        entries(r.kept@) == split_by(entries(records@), views_s(crossref_keys@), false),
        entries(r.reused@) == split_by(entries(records@), views_s(crossref_keys@), true),
        strictly_sorted(views_s(r.to_fetch@)),
        forall|k: Text|
            member(k, views_s(r.to_fetch@)) <==> (member(k, views_s(crossref_keys@)) && !member(
                k,
                keys_of(entries(records@)),
            )),
        forall|k: Text|
            member(k, keys_of(entries(records@))) ==> !member(k, views_s(r.to_fetch@)),
{
    let unique = sorted_set(crossref_keys, false);
    let ghost all = entries(records@);
    let ghost cks = views_s(crossref_keys@);
    let mut records = records;
    let mut kept: Vec<Record> = Vec::new();
    let mut reused: Vec<Record> = Vec::new();
    let mut keys: Vec<String> = Vec::new();
    let ghost mut i: int = 0;
    while records.len() > 0
        invariant
            0 <= i <= all.len(),
            entries(records@) == all.skip(i),
            entries(kept@) == split_by(all.take(i), cks, false),
            entries(reused@) == split_by(all.take(i), cks, true),
            views_s(keys@) == keys_of(all.take(i)),
            cks == views_s(crossref_keys@),
        decreases records@.len(),
    {
        let ghost rest = records@;
        let rec = records.remove(0);
        proof {
            assert(entries(rest).len() == rest.len());
            assert(i < all.len());
            assert(all.take(i + 1).drop_last() =~= all.take(i));
            assert(all[i] == rec@) by {
                assert(entries(rest)[0] == all.skip(i)[0]);
                assert(entries(rest)[0] == rest[0]@);
            }
            assert(records@ =~= rest.subrange(1, rest.len() as int));
            assert forall|k: int| 0 <= k < records@.len() implies #[trigger] entries(records@)[k]
                == all.skip(i + 1)[k] by {
                assert(records@[k] == rest[k + 1]);
                assert(entries(rest)[k + 1] == all.skip(i)[k + 1]);
            }
            assert(entries(records@) =~= all.skip(i + 1));
            assert(keys_of(all.take(i + 1)) =~= keys_of(all.take(i)).push(rec@.key()));
            i = i + 1;
        }
        let ghost kb = keys@;
        keys.push(rec.key().to_owned());
        assert(views_s(keys@) =~= views_s(kb).push(rec@.key()));
        if contains_text(crossref_keys, rec.key()) {
            let ghost before = reused@;
            reused.push(rec);
            assert(entries(reused@) =~= entries(before).push(rec@));
        } else {
            let ghost before = kept@;
            kept.push(rec);
            assert(entries(kept@) =~= entries(before).push(rec@));
        }
    }
    assert(all.take(i) =~= all);
    let ghost rkeys = keys_of(all);
    let mut to_fetch: Vec<String> = Vec::new();
    let mut j: usize = 0;
    while j < unique.len()
        invariant
            j <= unique@.len(),
            views_s(keys@) == rkeys,
            strictly_sorted(views_s(unique@)),
            forall|k: Text|
                member(k, views_s(unique@)) <==> selected(k, cks, false),
            views_s(to_fetch@).len() <= j,
            forall|a: int|
                0 <= a < views_s(to_fetch@).len() ==> exists|b: int|
                    0 <= b < j && #[trigger] views_s(to_fetch@)[a] == views_s(unique@)[b],
            forall|a: int, b: int|
                0 <= a < views_s(to_fetch@).len() && j <= b < unique@.len() ==> lex_lt(
                    #[trigger] views_s(to_fetch@)[a],
                    #[trigger] views_s(unique@)[b],
                ),
            strictly_sorted(views_s(to_fetch@)),
            forall|k: Text|
                #![trigger member(k, views_s(to_fetch@))]
                #![trigger member(k, views_s(unique@).take(j as int))]
                member(k, views_s(to_fetch@)) <==> (member(k, views_s(unique@).take(j as int))
                    && !member(k, rkeys)),
        decreases unique@.len() - j,
    {
        let u = &unique[j];
        let ghost us = views_s(unique@);
        let ghost tb = views_s(to_fetch@);
        assert(forall|k: Text|
            #![trigger member(k, tb)]
            #![trigger member(k, us.take(j as int))]
            member(k, tb) <==> (member(k, us.take(j as int)) && !member(k, rkeys)));
        assert(us[j as int] == u@);
        let present = contains_text(&keys, u.as_str());
        if !present {
            to_fetch.push(u.clone());
            assert(views_s(to_fetch@) =~= tb.push(us[j as int]));
        }
        proof {
            let t = views_s(to_fetch@);
            assert forall|a: int, b: int|
                0 <= a < t.len() && j + 1 <= b < unique@.len() implies lex_lt(
                #[trigger] t[a],
                #[trigger] us[b],
            ) by {
                if a < tb.len() {
                    assert(t[a] == tb[a]);
                } else {
                    assert(t[a] == us[j as int]);
                }
            }
            assert forall|a: int|
                0 <= a < t.len() implies exists|b: int| 0 <= b < j + 1 && #[trigger] t[a] == us[b] by {
                if a < tb.len() {
                    assert(t[a] == tb[a]);
                    let b = choose|b: int| 0 <= b < j && tb[a] == us[b];
                    assert(t[a] == us[b]);
                } else {
                    assert(t[a] == us[j as int]);
                }
            }
            assert forall|a: int, b: int| 0 <= a < b < t.len() implies lex_lt(
                #[trigger] t[a],
                #[trigger] t[b],
            ) by {
                if b < tb.len() {
                    assert(t[a] == tb[a] && t[b] == tb[b]);
                } else {
                    assert(t[a] == tb[a]);
                    assert(t[b] == us[j as int]);
                }
            }
            let t1 = us.take(j as int + 1);
            let t0 = us.take(j as int);
            assert forall|k: Text| member(k, t) <==> (member(k, t1) && !member(k, rkeys)) by {
                if member(k, t1) && !member(k, rkeys) {
                    let c = choose|c: int| 0 <= c < t1.len() && t1[c] == k;
                    if c < j {
                        assert(t0[c] == k);
                        assert(member(k, tb));
                        let d = choose|d: int| 0 <= d < tb.len() && tb[d] == k;
                        assert(t[d] == k);
                    } else {
                        assert(k == us[j as int]);
                        assert(!present);
                        assert(t[tb.len() as int] == k);
                    }
                }
                if member(k, t) {
                    let c = choose|c: int| 0 <= c < t.len() && t[c] == k;
                    if c < tb.len() {
                        assert(tb[c] == k);
                        assert(member(k, tb));
                        let d = choose|d: int| 0 <= d < t0.len() && t0[d] == k;
                        assert(t1[d] == k);
                    } else {
                        assert(k == us[j as int]);
                        assert(t1[j as int] == k);
                    }
                }
            }
        }
        j = j + 1;
    }
    assert(views_s(unique@).take(unique@.len() as int) =~= views_s(unique@));
    CrossrefPlan { kept, reused, to_fetch }
}

/// The first record with key `k`.
pub open spec fn find_key(s: Seq<Entry>, k: Text) -> Option<int>
    decreases s.len(),
{
    if s.len() == 0 {
        None
    } else {
        match find_key(s.drop_last(), k) {
            Some(i) => Some(i),
            None => if s.last().key() == k {
                Some(s.len() - 1)
            } else {
                None
            },
        }
    }
}

/// A paper with its volume title taken from the volume it refers to, when it refers to one.
pub open spec fn expanded(e: Entry, crs: Seq<Entry>) -> Entry {
    match e.crossref_key() {
        Some(k) => match find_key(crs, k) {
            Some(j) => e.with_booktitle(crs[j].title()),
            None => e,
        },
        None => e,
    }
}

/// Every paper's volume is among `crs`.
pub open spec fn all_found(s: Seq<Entry>, crs: Seq<Entry>) -> bool {
    forall|i: int|
        0 <= i < s.len() ==> (#[trigger] s[i].crossref_key() matches Some(k) ==> find_key(crs, k)
            is Some)
}

fn find_record(crs: &Vec<Record>, k: &str) -> (r: Option<usize>)
    ensures
        r matches Some(j) ==> find_key(entries(crs@), k@) == Some(j as int) && j < crs@.len(),
        r is None ==> find_key(entries(crs@), k@) is None,
{
    let ghost s = entries(crs@);
    let mut i: usize = 0;
    while i < crs.len()
        invariant
            i <= crs@.len(),
            s == entries(crs@),
            find_key(s.take(i as int), k@) is None,
        decreases crs@.len() - i,
    {
        assert(s.take(i as int + 1).drop_last() =~= s.take(i as int));
        if crate::text::text_eq(crs[i].key(), k) {
            assert(find_key(s.take(i as int + 1), k@) == Some(i as int));
            proof {
                lemma_find_key_prefix(s, i as int + 1, k@);
            }
            return Some(i);
        }
        i = i + 1;
    }
    assert(s.take(i as int) =~= s);
    None
}

/// A key found in a prefix is found at the same place in the whole.
proof fn lemma_find_key_prefix(s: Seq<Entry>, n: int, k: Text)
    requires
        0 <= n <= s.len(),
        find_key(s.take(n), k) is Some,
    ensures
        find_key(s, k) == find_key(s.take(n), k),
    decreases s.len() - n,
{
    if n < s.len() {
        assert(s.take(n + 1).drop_last() =~= s.take(n));
        lemma_find_key_prefix(s, n + 1, k);
    } else {
        assert(s.take(n) =~= s);
    }
}

/// Gives every paper the title of the volume it refers to, looked up by key among `crs`.
/// A volume missing from `crs` is an error that names its key.
pub fn expand_all(records: Vec<Record>, crs: &Vec<Record>) -> (r: Result<Vec<Record>, String>)
    ensures
        r is Ok <==> all_found(entries(records@), entries(crs@)),
        r matches Ok(out) ==> entries(out@) == entries(records@).map_values(
            |e: Entry| expanded(e, entries(crs@)),
        ),
        r matches Err(k) ==> exists|i: int|
            0 <= i < records@.len() && #[trigger] entries(records@)[i].crossref_key() == Some(k@)
                && find_key(entries(crs@), k@) is None,
{
    let ghost all = entries(records@);
    let ghost c = entries(crs@);
    let mut pending = records;
    let mut out: Vec<Record> = Vec::new();
    let ghost mut i: int = 0;
    while pending.len() > 0
        invariant
            0 <= i <= all.len(),
            all == entries(records@),
            c == entries(crs@),
            entries(pending@) == all.skip(i),
            all_found(all.take(i), c),
            entries(out@) == all.take(i).map_values(|e: Entry| expanded(e, c)),
        decreases pending@.len(),
    {
        let ghost rest = pending@;
        let mut rec = pending.remove(0);
        proof {
            assert(entries(rest).len() == rest.len());
            assert(all[i] == rec@) by {
                assert(entries(rest)[0] == all.skip(i)[0]);
                assert(entries(rest)[0] == rest[0]@);
            }
            assert(pending@ =~= rest.subrange(1, rest.len() as int));
            assert forall|k: int| 0 <= k < pending@.len() implies #[trigger] entries(pending@)[k]
                == all.skip(i + 1)[k] by {
                assert(pending@[k] == rest[k + 1]);
                assert(entries(rest)[k + 1] == all.skip(i)[k + 1]);
            }
            assert(entries(pending@) =~= all.skip(i + 1));
        }
        let ghost e = rec@;
        match rec.crossref_key() {
            Some(k) => {
                let key = k.to_owned();
                match find_record(crs, key.as_str()) {
                    Some(j) => {
                        expand_booktitle(&mut rec, &crs[j]);
                    },
                    None => {
                        assert(all[i].crossref_key() == Some(key@));
                        assert(!all_found(all, c));
                        return Err(key);
                    },
                }
            },
            None => {},
        }
        let ghost before = out@;
        out.push(rec);
        proof {
            assert(entries(out@) =~= entries(before).push(expanded(e, c)));
            assert(all.take(i + 1) =~= all.take(i).push(e));
            assert(all.take(i + 1).map_values(|x: Entry| expanded(x, c)) =~= all.take(i).map_values(
                |x: Entry| expanded(x, c),
            ).push(expanded(e, c)));
            assert forall|m: int| 0 <= m < i + 1 implies (#[trigger] all.take(i + 1)[m].crossref_key() matches Some(k) ==> find_key(c, k) is Some) by {
                if m < i {
                    assert(all.take(i + 1)[m] == all.take(i)[m]);
                }
            }
            i = i + 1;
        }
    }
    assert(all.take(i) =~= all);
    Ok(out)
}

/// The records are in order of their keys.
pub open spec fn sorted_by_key(s: Seq<Entry>) -> bool {
    forall|i: int, j: int| 0 <= i < j < s.len() ==> !lex_lt(#[trigger] s[j].key(), #[trigger] s[i].key())
}

/// The records ordered by key.
pub fn sort_by_key(records: Vec<Record>) -> (r: Vec<Record>)
    ensures
        sorted_by_key(entries(r@)),
        entries(r@).to_multiset() == entries(records@).to_multiset(),
{
    let ghost all = entries(records@);
    let mut records = records;
    let mut out: Vec<Record> = Vec::new();
    let ghost mut i: int = 0;
    assert(all.take(0) =~= Seq::<Entry>::empty());
    assert(entries(out@) =~= Seq::<Entry>::empty());
    while records.len() > 0
        invariant
            0 <= i <= all.len(),
            entries(records@) == all.skip(i),
            sorted_by_key(entries(out@)),
            entries(out@).to_multiset() == all.take(i).to_multiset(),
        decreases records@.len(),
    {
        let ghost rest = records@;
        let rec = records.remove(0);
        proof {
            assert(entries(rest).len() == rest.len());
            assert(all[i] == rec@) by {
                assert(entries(rest)[0] == all.skip(i)[0]);
                assert(entries(rest)[0] == rest[0]@);
            }
            assert(records@ =~= rest.subrange(1, rest.len() as int));
            assert forall|k: int| 0 <= k < records@.len() implies #[trigger] entries(records@)[k]
                == all.skip(i + 1)[k] by {
                assert(records@[k] == rest[k + 1]);
                assert(entries(rest)[k + 1] == all.skip(i)[k + 1]);
            }
            assert(entries(records@) =~= all.skip(i + 1));
            assert(all.take(i + 1) =~= all.take(i).push(rec@));
            i = i + 1;
        }
        let k = to_chars(rec.key());
        let ghost s = entries(out@);
        let mut p: usize = 0;
        while p < out.len() && !text_lt(&k, &to_chars(out[p].key()))
            invariant
                p <= out@.len(),
                s == entries(out@),
                k@ == rec@.key(),
                forall|m: int| 0 <= m < p ==> !lex_lt(k@, #[trigger] s[m].key()),
            decreases out@.len() - p,
        {
            p = p + 1;
        }
        proof {
            if p < s.len() {
                assert(lex_lt(k@, s[p as int].key()));
                assert forall|m: int| p <= m < s.len() implies !lex_lt(#[trigger] s[m].key(), k@) by {
                    if lex_lt(s[m].key(), k@) {
                        lemma_lex_transitive(s[m].key(), k@, s[p as int].key());
                        if m == p {
                            lemma_lex_irreflexive(s[m].key());
                        }
                    }
                }
            }
        }
        let ghost e = rec@;
        out.insert(p, rec);
        proof {
            let t = entries(out@);
            assert(t =~= s.insert(p as int, e));
            vstd::seq_lib::to_multiset_insert(s, p as int, e);
            vstd::seq_lib::to_multiset_build(all.take(i - 1), e);
            assert(all.take(i) =~= all.take(i - 1).push(e));
            assert forall|a: int, b: int| 0 <= a < b < t.len() implies !lex_lt(
                #[trigger] t[b].key(),
                #[trigger] t[a].key(),
            ) by {
                if b < p {
                    assert(t[a] == s[a] && t[b] == s[b]);
                } else if b == p {
                    assert(t[a] == s[a]);
                } else if a == p {
                    assert(t[b] == s[b - 1]);
                } else if a < p {
                    assert(t[a] == s[a] && t[b] == s[b - 1]);
                } else {
                    assert(t[a] == s[a - 1] && t[b] == s[b - 1]);
                }
            }
        }
    }
    assert(all.take(i) =~= all);
    out
}

} // verus!
