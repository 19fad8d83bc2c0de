//! Properties that relate several steps of the library.

use vstd::prelude::*;

use crate::bibtex::{
    and_joined, bibtex_text, decimal, header, isbn_lines, kv, link_line, link_lines,
    people_line,
};
use crate::fetch::{assembled, raw_links, Raw};
use crate::fixers::{
    all_fixed, all_ok, corrected, crossref_ok, crossref_texts, dashes_fixed, dates_fixed,
    first_doi, kept, opt_fixed, opt_ok, pages_fixed, people_fixed, single, text_fixed, text_ok,
    weird, PersonFix, TextFix,
};
use crate::record::{link_of, CrossrefModel, Entry, Link, Text};
use crate::strings::{
    date_hyphen, dates, dashed, has_num_suffix, month_start, num_stripped, range_hyphen, ranges,
    spaced_dash,
};
use crate::text::{digit, has_prefix, space};
use crate::unicode::{ascii, lemma_transliterated_ascii, transliterated};

verus! {

/// Dropping weird links a second time changes nothing.
pub proof fn lemma_weird_urls_idempotent(s: Seq<Link>)
    ensures
        kept(kept(s)) == kept(s),
    decreases s.len(),
{
    if s.len() > 0 {
        lemma_weird_urls_idempotent(s.drop_last());
        if !weird(s.last()) {
            let k = kept(s.drop_last());
            assert(k.push(s.last()).drop_last() =~= k);
        }
    }
}

/// Reducing the links to a single one a second time changes nothing.
pub proof fn lemma_single_external_idempotent(s: Seq<Link>)
    ensures
        single(single(s)) == single(s),
{
    if s.len() > 0 {
        let t = single(s);
        assert(t.len() == 1);
        if t[0] is Doi {
            assert(first_doi(t, 0) == Some(0int));
        } else {
            assert(first_doi(t, 1) is None);
            assert(first_doi(t, 0) is None);
        }
        assert(single(t) =~= t);
    }
}

/// Correcting known mistakes a second time changes nothing.
pub proof fn lemma_manually_correct_idempotent(e: Entry)
    ensures
        corrected(corrected(e)) == corrected(e),
{
}

/// Taking the volume title from the same volume a second time changes nothing.
pub proof fn lemma_expand_booktitle_idempotent(e: Entry, t: Text)
    ensures
        e.with_booktitle(t).with_booktitle(t) == e.with_booktitle(t),
{
}

/// Text that is all ASCII comes out of transliteration unchanged.
pub proof fn lemma_transliteration_keeps_ascii(s: Text)
    requires
        forall|i: int| 0 <= i < s.len() ==> ascii(#[trigger] s[i]),
    ensures
        transliterated(s) == Ok::<Text, char>(s),
    decreases s.len(),
{
    if s.len() > 0 {
        assert forall|i: int| 0 <= i < s.drop_last().len() implies ascii(
            #[trigger] s.drop_last()[i],
        ) by {
            assert(s.drop_last()[i] == s[i]);
        }
        lemma_transliteration_keeps_ascii(s.drop_last());
        assert(ascii(s[s.len() - 1]));
        assert(s.drop_last().push(s.last()) =~= s);
    } else {
        assert(s =~= Seq::<char>::empty());
    }
}

/// Transliterating a second time changes nothing: the first pass leaves only ASCII.
pub proof fn lemma_unicode_idempotent(s: Text)
    ensures
        transliterated(s) matches Ok(t) ==> transliterated(t) == Ok::<Text, char>(t),
{
    lemma_transliterated_ascii(s);
    if let Ok(t) = transliterated(s) {
        lemma_transliteration_keeps_ascii(t);
    }
}

/// A spaced hyphen ` - ` starts at `i`.
pub open spec fn spaced_at(t: Text, i: int) -> bool {
    0 <= i && i + 3 <= t.len() && t[i] == ' ' && t[i + 1] == '-' && t[i + 2] == ' '
}

/// Text without a spaced hyphen is left as it is.
proof fn lemma_dashed_identity(t: Text)
    requires
        forall|i: int| !#[trigger] spaced_at(t, i),
    ensures
        dashed(t) == t,
    decreases t.len(),
{
    if t.len() > 0 {
        assert(!spaced_at(t, 0));
        let r = t.skip(1);
        assert forall|i: int| !#[trigger] spaced_at(r, i) by {
            if spaced_at(r, i) {
                assert(spaced_at(t, i + 1));
            }
        }
        lemma_dashed_identity(r);
        assert(seq![t[0]] + r =~= t);
    }
}

/// Dash replacement keeps the length.
proof fn lemma_dashed_len(t: Text)
    ensures
        dashed(t).len() <= t.len(),
    decreases t.len(),
{
    if t.len() > 0 {
        if spaced_dash(t) {
            lemma_dashed_len(t.skip(3));
        } else {
            lemma_dashed_len(t.skip(1));
        }
    }
}

/// How the output of dash replacement begins.
proof fn lemma_dashed_start(t: Text)
    ensures
        spaced_dash(t) ==> dashed(t).len() >= 2 && dashed(t)[0] == '-' && dashed(t)[1] == '-',
        !spaced_dash(t) && t.len() > 0 ==> dashed(t).len() >= 1 && dashed(t)[0] == t[0],
        !spaced_dash(t) && t.len() > 1 && !spaced_dash(t.skip(1)) ==> dashed(t).len() >= 2
            && dashed(t)[1] == t[1],
        !spaced_dash(t) && t.len() > 1 && spaced_dash(t.skip(1)) ==> dashed(t).len() >= 2
            && dashed(t)[1] == '-',
    decreases t.len(),
{
    if t.len() > 1 && !spaced_dash(t) {
        lemma_dashed_start(t.skip(1));
        assert(t.skip(1)[0] == t[1]);
    }
}

/// The output of dash replacement holds no spaced hyphen.
proof fn lemma_dashed_clean(s: Text)
    ensures
        forall|i: int| !#[trigger] spaced_at(dashed(s), i),
    decreases s.len(),
{
    if s.len() > 0 {
        let d = dashed(s);
        if spaced_dash(s) {
            let r = dashed(s.skip(3));
            lemma_dashed_clean(s.skip(3));
            assert(d == seq!['-', '-'] + r);
            assert forall|i: int| !#[trigger] spaced_at(d, i) by {
                if spaced_at(d, i) {
                    if i >= 2 {
                        assert(d[i] == r[i - 2] && d[i + 1] == r[i - 1] && d[i + 2] == r[i]);
                        assert(spaced_at(r, i - 2));
                    } else {
                        assert(d[i] == '-');
                    }
                }
            }
        } else {
            let r = dashed(s.skip(1));
            lemma_dashed_clean(s.skip(1));
            lemma_dashed_start(s.skip(1));
            lemma_dashed_len(s.skip(1));
            assert(d == seq![s[0]] + r);
            assert forall|i: int| !#[trigger] spaced_at(d, i) by {
                if spaced_at(d, i) {
                    if i >= 1 {
                        assert(d[i] == r[i - 1] && d[i + 1] == r[i] && d[i + 2] == r[i + 1]);
                        assert(spaced_at(r, i - 1));
                    } else {
                        assert(s[0] == ' ');
                        assert(r[0] == '-');
                        if s.len() > 1 {
                            assert(s.skip(1)[0] == s[1]);
                            if s.len() > 2 {
                                assert(s.skip(1).skip(1) =~= s.skip(2));
                                assert(s.skip(1)[1] == s[2]);
                            }
                        }
                    }
                }
            }
        }
    }
}

/// Replacing spaced hyphens a second time changes nothing.
pub proof fn lemma_dashes_idempotent(s: Text)
    ensures
        dashed(dashed(s)) == dashed(s),
{
    lemma_dashed_clean(s);
    lemma_dashed_identity(dashed(s));
}

/// The record-level dash fixer applied twice is the same as once.
pub proof fn lemma_dashes_fixer_idempotent(e: Entry)
    ensures
        dashes_fixed(dashes_fixed(e)) == dashes_fixed(e),
{
    lemma_dashes_idempotent(e.title());
    match e {
        Entry::Article { journal, .. } => lemma_dashes_idempotent(journal),
        Entry::Inproceedings { booktitle, .. } => lemma_dashes_idempotent(booktitle),
        Entry::Incollection { booktitle, .. } => lemma_dashes_idempotent(booktitle),
        _ => {},
    }
}

/// The record-level fixer that drops weird links, applied twice, is the same as once.
pub proof fn lemma_weird_urls_fixer_idempotent(e: Entry)
    ensures
        e.with_external(kept(e.external())).with_external(
            kept(e.with_external(kept(e.external())).external()),
        ) == e.with_external(kept(e.external())),
{
    lemma_weird_urls_idempotent(e.external());
}

/// The record-level fixer that keeps a single link, applied twice, is the same as once.
pub proof fn lemma_single_external_fixer_idempotent(e: Entry)
    ensures
        e.with_external(single(e.external())).with_external(
            single(e.with_external(single(e.external())).external()),
        ) == e.with_external(single(e.external())),
{
    lemma_single_external_idempotent(e.external());
}

proof fn lemma_text_twice(t: Text)
    requires
        text_ok(TextFix::Unicode, t),
    ensures
        text_ok(TextFix::Unicode, text_fixed(TextFix::Unicode, t)),
        text_fixed(TextFix::Unicode, text_fixed(TextFix::Unicode, t)) == text_fixed(
            TextFix::Unicode,
            t,
        ),
{
    lemma_unicode_idempotent(t);
}

proof fn lemma_opt_twice(o: Option<Text>)
    requires
        opt_ok(TextFix::Unicode, o),
    ensures
        opt_ok(TextFix::Unicode, opt_fixed(TextFix::Unicode, o)),
        opt_fixed(TextFix::Unicode, opt_fixed(TextFix::Unicode, o)) == opt_fixed(
            TextFix::Unicode,
            o,
        ),
{
    if let Some(t) = o {
        lemma_text_twice(t);
    }
}

proof fn lemma_all_twice(v: Seq<Text>)
    requires
        all_ok(TextFix::Unicode, v),
    ensures
        all_ok(TextFix::Unicode, all_fixed(TextFix::Unicode, v)),
        all_fixed(TextFix::Unicode, all_fixed(TextFix::Unicode, v)) == all_fixed(
            TextFix::Unicode,
            v,
        ),
{
    let m = TextFix::Unicode;
    let w = all_fixed(m, v);
    assert forall|i: int| 0 <= i < w.len() implies text_ok(m, #[trigger] w[i])
        && text_fixed(m, w[i]) == w[i] by {
        assert(text_ok(m, v[i]));
        lemma_text_twice(v[i]);
    }
    assert(all_fixed(m, w) =~= w);
}

proof fn lemma_crossref_twice(c: CrossrefModel)
    requires
        crossref_ok(TextFix::Unicode, c),
    ensures
        crossref_ok(TextFix::Unicode, crossref_texts(TextFix::Unicode, c)),
        crossref_texts(TextFix::Unicode, crossref_texts(TextFix::Unicode, c)) == crossref_texts(
            TextFix::Unicode,
            c,
        ),
{
    if let CrossrefModel::Resolved { editor, publisher, series, .. } = c {
        lemma_all_twice(editor);
        lemma_opt_twice(publisher);
        lemma_opt_twice(series);
    }
}

/// The record-level transliteration fixer, where it succeeds, succeeds again on its own
/// output and changes nothing there.
pub proof fn lemma_unicode_fixer_idempotent(e: Entry)
    requires
        e.texts_ok(TextFix::Unicode),
    ensures
        e.texts_fixed(TextFix::Unicode).texts_ok(TextFix::Unicode),
        e.texts_fixed(TextFix::Unicode).texts_fixed(TextFix::Unicode) == e.texts_fixed(
            TextFix::Unicode,
        ),
{
    match e {
        Entry::Article { author, title, journal, .. } => {
            lemma_all_twice(author);
            lemma_text_twice(title);
            lemma_text_twice(journal);
        },
        Entry::Proceedings { editor, title, series, publisher, .. } => {
            lemma_all_twice(editor);
            lemma_text_twice(title);
            lemma_opt_twice(series);
            lemma_opt_twice(publisher);
        },
        Entry::Inproceedings { author, title, booktitle, crossref, .. } => {
            lemma_all_twice(author);
            lemma_text_twice(title);
            lemma_text_twice(booktitle);
            lemma_crossref_twice(crossref);
        },
        Entry::Book { author, editor, title, series, publisher, .. } => {
            lemma_all_twice(author);
            lemma_all_twice(editor);
            lemma_text_twice(title);
            lemma_opt_twice(series);
            lemma_opt_twice(publisher);
        },
        Entry::Incollection { author, title, booktitle, crossref, .. } => {
            lemma_all_twice(author);
            lemma_text_twice(title);
            lemma_text_twice(booktitle);
            lemma_crossref_twice(crossref);
        },
    }
}

/// How the output of range repair begins.
proof fn lemma_ranges_start(dp: bool, s: Text)
    ensures
        s.len() == 0 ==> ranges(dp, s).len() == 0,
        s.len() > 0 ==> ranges(dp, s).len() > 0 && digit(ranges(dp, s)[0]) == digit(s[0]),
{
}

/// Doubling hyphens between digits a second time changes nothing.
pub proof fn lemma_ranges_idempotent(dp: bool, s: Text)
    ensures
        ranges(dp, ranges(dp, s)) == ranges(dp, s),
    decreases s.len(),
{
    if s.len() > 0 {
        let o = ranges(dp, s);
        let r = s.skip(1);
        if range_hyphen(dp, s) {
            let rr = ranges(false, r);
            lemma_ranges_idempotent(false, r);
            assert(o == seq!['-', '-'] + rr);
            assert(!range_hyphen(dp, o));
            let o1 = o.skip(1);
            assert(o1 =~= seq!['-'] + rr);
            assert(o1.skip(1) =~= rr);
            assert(!range_hyphen(false, o1));
            assert(ranges(false, o1) == seq!['-'] + ranges(false, rr));
            assert(ranges(dp, o) =~= o);
        } else {
            let rr = ranges(digit(s[0]), r);
            lemma_ranges_idempotent(digit(s[0]), r);
            lemma_ranges_start(digit(s[0]), r);
            assert(o == seq![s[0]] + rr);
            assert(o.skip(1) =~= rr);
            if r.len() > 0 {
                assert(r[0] == s[1]);
                assert(o[1] == rr[0]);
            }
            assert(!range_hyphen(dp, o));
            assert(ranges(dp, o) =~= o);
        }
    }
}

/// Stripped names have no number suffix left.
proof fn lemma_num_stripped_clean(s: Text)
    ensures
        !has_num_suffix(num_stripped(s)),
    decreases s.len(),
{
    if has_num_suffix(s) {
        lemma_num_stripped_clean(s.take(s.len() - 5));
    }
}

/// Stripping number suffixes a second time changes nothing.
pub proof fn lemma_num_stripped_idempotent(s: Text)
    ensures
        num_stripped(num_stripped(s)) == num_stripped(s),
{
    lemma_num_stripped_clean(s);
}

/// How the output of date repair begins.
proof fn lemma_dates_start(d2: bool, d1: bool, sp1: bool, s: Text)
    ensures
        s.len() == 0 ==> dates(d2, d1, sp1, s).len() == 0,
        s.len() > 0 ==> dates(d2, d1, sp1, s).len() > 0 && digit(dates(d2, d1, sp1, s)[0])
            == digit(s[0]) && space(dates(d2, d1, sp1, s)[0]) == space(s[0]),
{
}

/// After a character that is neither a digit nor whitespace, the character before it
/// does not matter.
proof fn lemma_dates_forget(x: bool, y: bool, t: Text)
    ensures
        dates(x, false, false, t) == dates(y, false, false, t),
{
}

proof fn lemma_prefix_cons(c: char, x: Text, m: Text)
    requires
        m.len() > 0,
    ensures
        has_prefix(seq![c] + x, m) == (c == m[0] && has_prefix(x, m.skip(1))),
{
    let y = seq![c] + x;
    if has_prefix(y, m) {
        assert(y.take(m.len() as int)[0] == m[0]);
        assert(x.take(m.len() - 1) =~= y.take(m.len() as int).skip(1));
        assert(m.skip(1) =~= m.take(m.len() as int).skip(1));
    }
    if c == m[0] && has_prefix(x, m.skip(1)) {
        assert forall|i: int| 0 <= i < m.len() implies #[trigger] y.take(m.len() as int)[i]
            == m[i] by {
            if i > 0 {
                assert(x.take(m.len() - 1)[i - 1] == m.skip(1)[i - 1]);
            }
        }
        assert(y.take(m.len() as int) =~= m);
    }
}

/// Date repair keeps whether the text starts with a given word without hyphens.
proof fn lemma_dates_prefix(d2: bool, d1: bool, sp1: bool, t: Text, m: Text)
    requires
        forall|i: int| 0 <= i < m.len() ==> #[trigger] m[i] != '-',
    ensures
        has_prefix(dates(d2, d1, sp1, t), m) == has_prefix(t, m),
    decreases m.len(),
{
    if m.len() == 0 {
        assert(dates(d2, d1, sp1, t).take(0) =~= m);
        assert(t.take(0) =~= m);
    } else if t.len() > 0 {
        assert(m[0] != '-');
        let o = dates(d2, d1, sp1, t);
        if t[0] == '-' {
            assert(o[0] == '-');
            assert(has_prefix(o, m) ==> o.take(m.len() as int)[0] == m[0]);
            assert(has_prefix(t, m) ==> t.take(m.len() as int)[0] == m[0]);
        } else {
            let rest = dates(d1, digit(t[0]), space(t[0]), t.skip(1));
            assert(o == seq![t[0]] + rest);
            assert forall|i: int| 0 <= i < m.skip(1).len() implies #[trigger] m.skip(1)[i]
                != '-' by {
                assert(m.skip(1)[i] == m[i + 1]);
            }
            lemma_dates_prefix(d1, digit(t[0]), space(t[0]), t.skip(1), m.skip(1));
            lemma_prefix_cons(t[0], rest, m);
            lemma_prefix_cons(t[0], t.skip(1), m);
            assert(seq![t[0]] + t.skip(1) =~= t);
        }
    }
}

/// Date repair keeps whether the text starts with a month name.
proof fn lemma_dates_month(d2: bool, d1: bool, sp1: bool, t: Text)
    ensures
        month_start(dates(d2, d1, sp1, t)) == month_start(t),
{
    reveal_strlit("January");
    reveal_strlit("February");
    reveal_strlit("March");
    reveal_strlit("April");
    reveal_strlit("May");
    reveal_strlit("June");
    reveal_strlit("July");
    reveal_strlit("August");
    reveal_strlit("September");
    reveal_strlit("October");
    reveal_strlit("November");
    reveal_strlit("December");
    lemma_dates_prefix(d2, d1, sp1, t, "January"@);
    lemma_dates_prefix(d2, d1, sp1, t, "February"@);
    lemma_dates_prefix(d2, d1, sp1, t, "March"@);
    lemma_dates_prefix(d2, d1, sp1, t, "April"@);
    lemma_dates_prefix(d2, d1, sp1, t, "May"@);
    lemma_dates_prefix(d2, d1, sp1, t, "June"@);
    lemma_dates_prefix(d2, d1, sp1, t, "July"@);
    lemma_dates_prefix(d2, d1, sp1, t, "August"@);
    lemma_dates_prefix(d2, d1, sp1, t, "September"@);
    lemma_dates_prefix(d2, d1, sp1, t, "October"@);
    lemma_dates_prefix(d2, d1, sp1, t, "November"@);
    lemma_dates_prefix(d2, d1, sp1, t, "December"@);
}

/// Doubling the hyphens of digit and date ranges a second time changes nothing.
#[verifier::rlimit(100)]
pub proof fn lemma_dates_idempotent(d2: bool, d1: bool, sp1: bool, s: Text)
    ensures
        dates(d2, d1, sp1, dates(d2, d1, sp1, s)) == dates(d2, d1, sp1, s),
    decreases s.len(),
{
    if s.len() > 0 {
        let o = dates(d2, d1, sp1, s);
        let r = s.skip(1);
        if date_hyphen(d2, d1, sp1, s) {
            let rr = dates(d1, false, false, r);
            lemma_dates_idempotent(d1, false, false, r);
            lemma_dates_forget(false, d1, rr);
            assert(o == seq!['-', '-'] + rr);
            assert(!date_hyphen(d2, d1, sp1, o));
            let o1 = o.skip(1);
            assert(o1 =~= seq!['-'] + rr);
            assert(o1.skip(1) =~= rr);
            assert(!date_hyphen(d1, false, false, o1));
            assert(dates(d1, false, false, o1) == seq!['-'] + dates(false, false, false, rr));
            assert(dates(d2, d1, sp1, o) =~= o);
        } else {
            let c = s[0];
            let rr = dates(d1, digit(c), space(c), r);
            lemma_dates_idempotent(d1, digit(c), space(c), r);
            lemma_dates_start(d1, digit(c), space(c), r);
            assert(o == seq![c] + rr);
            assert(o.skip(1) =~= rr);
            if r.len() > 0 {
                assert(r[0] == s[1]);
                assert(o[1] == rr[0]);
                assert(o.skip(2) =~= rr.skip(1));
                assert(r.skip(1) =~= s.skip(2));
                if !date_hyphen(d1, digit(c), space(c), r) {
                    let r2 = dates(digit(c), digit(r[0]), space(r[0]), r.skip(1));
                    assert(rr == seq![r[0]] + r2);
                    assert(rr.skip(1) =~= r2);
                    lemma_dates_month(digit(c), digit(r[0]), space(r[0]), r.skip(1));
                } else {
                    assert(rr[0] == '-');
                }
            }
            assert(!date_hyphen(d2, d1, sp1, o));
            assert(dates(d2, d1, sp1, o) =~= o);
        }
    }
}

/// The record-level page range fixer applied twice is the same as once.
pub proof fn lemma_page_range_fixer_idempotent(e: Entry)
    ensures
        pages_fixed(pages_fixed(e)) == pages_fixed(e),
{
    if let Some(p) = e.pages() {
        lemma_ranges_idempotent(false, p);
    }
}

/// The record-level date range fixer applied twice is the same as once.
pub proof fn lemma_date_ranges_fixer_idempotent(e: Entry)
    ensures
        dates_fixed(dates_fixed(e)) == dates_fixed(e),
{
    match e {
        Entry::Inproceedings { booktitle, .. } => lemma_dates_idempotent(
            false,
            false,
            false,
            booktitle,
        ),
        Entry::Proceedings { title, .. } => lemma_dates_idempotent(false, false, false, title),
        _ => {},
    }
}

proof fn lemma_numbers_twice(v: Seq<Text>)
    ensures
        people_fixed(PersonFix::Number, people_fixed(PersonFix::Number, v)) == people_fixed(
            PersonFix::Number,
            v,
        ),
{
    let w = people_fixed(PersonFix::Number, v);
    assert forall|i: int| 0 <= i < w.len() implies #[trigger] people_fixed(
        PersonFix::Number,
        w,
    )[i] == w[i] by {
        lemma_num_stripped_idempotent(v[i]);
    }
    assert(people_fixed(PersonFix::Number, w) =~= w);
}

/// The record-level number suffix fixer applied twice is the same as once.
pub proof fn lemma_author_num_fixer_idempotent(e: Entry)
    ensures
        e.people_fixed(PersonFix::Number).people_fixed(PersonFix::Number) == e.people_fixed(
            PersonFix::Number,
        ),
{
    match e {
        Entry::Article { author, .. } => lemma_numbers_twice(author),
        Entry::Proceedings { editor, .. } => lemma_numbers_twice(editor),
        Entry::Inproceedings { author, crossref, .. } => {
            lemma_numbers_twice(author);
            if let CrossrefModel::Resolved { editor, .. } = crossref {
                lemma_numbers_twice(editor);
            }
        },
        Entry::Book { author, editor, .. } => {
            lemma_numbers_twice(author);
            lemma_numbers_twice(editor);
        },
        Entry::Incollection { author, crossref, .. } => {
            lemma_numbers_twice(author);
            if let CrossrefModel::Resolved { editor, .. } = crossref {
                lemma_numbers_twice(editor);
            }
        },
    }
}

/// `line` occurs in `text`.
pub open spec fn occurs(line: Text, text: Text) -> bool {
    exists|i: int| 0 <= i <= text.len() - line.len() && #[trigger] text.subrange(i, i + line.len()) == line
}

proof fn lemma_middle(a: Text, b: Text, c: Text)
    ensures
        occurs(b, a + b + c),
{
    assert((a + b + c).subrange(a.len() as int, (a.len() + b.len()) as int) =~= b);
}

/// The title that a document holds.
pub open spec fn raw_title(d: Raw) -> Text {
    match d {
        Raw::Article { title, .. } => title,
        Raw::Inproceedings { title, .. } => title,
        Raw::Incollection { title, .. } => title,
        Raw::Proceedings { title, .. } => title,
        Raw::Book { title, .. } => title,
    }
}

/// The lines before the title line of an entry, and the entry's type.
pub open spec fn before_title(e: Entry) -> (Text, Text) {
    match e {
        Entry::Article { key, author, .. } => ("article"@, header("article"@, key) + people_line(
            "author"@,
            author,
        )),
        Entry::Proceedings { key, editor, .. } => ("proceedings"@, header("proceedings"@, key)
            + people_line("editor"@, editor)),
        Entry::Inproceedings { key, author, .. } => ("inproceedings"@, header(
            "inproceedings"@,
            key,
        ) + people_line("author"@, author)),
        Entry::Book { key, author, editor, .. } => ("book"@, header("book"@, key) + people_line(
            "author"@,
            author,
        ) + people_line("editor"@, editor)),
        Entry::Incollection { key, author, .. } => ("incollection"@, header(
            "incollection"@,
            key,
        ) + people_line("author"@, author)),
    }
}

#[verifier::rlimit(100)]
proof fn lemma_title_line(key: Text, d: Raw)
    ensures
        assembled(key, d, None, None) is Some,
        occurs(kv("title"@, raw_title(d)), bibtex_text(assembled(key, d, None, None)->Some_0)),
        occurs("{DBLP:"@ + key + ",\n"@, bibtex_text(assembled(key, d, None, None)->Some_0)),
{
    let e = assembled(key, d, None, None)->Some_0;
    let t = bibtex_text(e);
    let tl = kv("title"@, raw_title(d));
    let hk = "{DBLP:"@ + key + ",\n"@;
    let (ty, a) = before_title(e);
    let c = t.skip((a.len() + tl.len()) as int);
    assert(t =~= a + tl + c);
    lemma_middle(a, tl, c);
    let a2 = "@"@ + ty;
    let c2 = t.skip((a2.len() + hk.len()) as int);
    assert(t =~= a2 + hk + c2);
    lemma_middle(a2, hk, c2);
}


/// A line of `a` is a line of `a` followed by anything.
pub broadcast proof fn lemma_occurs_left(x: Text, a: Text, b: Text)
    ensures
        #![trigger occurs(x, a + b)]
        occurs(x, a) ==> occurs(x, a + b),
{
    if occurs(x, a) {
        let i = choose|i: int| 0 <= i <= a.len() - x.len() && #[trigger] a.subrange(i, i + x.len()) == x;
        assert((a + b).subrange(i, i + x.len()) =~= a.subrange(i, i + x.len()));
    }
}

/// A line of `b` is a line of anything followed by `b`.
pub broadcast proof fn lemma_occurs_right(x: Text, a: Text, b: Text)
    ensures
        #![trigger occurs(x, a + b)]
        occurs(x, b) ==> occurs(x, a + b),
{
    if occurs(x, b) {
        let i = choose|i: int| 0 <= i <= b.len() - x.len() && #[trigger] b.subrange(i, i + x.len()) == x;
        assert((a + b).subrange(a.len() + i, a.len() + i + x.len()) =~= b.subrange(i, i + x.len()));
    }
}

/// A text occurs in itself.
pub broadcast proof fn lemma_occurs_self(x: Text)
    ensures
        #![trigger occurs(x, x)]
        occurs(x, x),
{
    assert(x.subrange(0, 0 + x.len() as int) =~= x);
}

/// Each link has its line among the link lines.
proof fn lemma_link_occurs(s: Seq<Link>, i: int)
    requires
        0 <= i < s.len(),
    ensures
        occurs(link_line(s[i]), link_lines(s)),
    decreases s.len(),
{
    broadcast use lemma_occurs_left, lemma_occurs_right, lemma_occurs_self;

    if i < s.len() - 1 {
        lemma_link_occurs(s.drop_last(), i);
        assert(s.drop_last()[i] == s[i]);
    }
}

/// Each ISBN has its line among the ISBN lines.
proof fn lemma_isbn_occurs(s: Seq<Text>, i: int)
    requires
        0 <= i < s.len(),
    ensures
        occurs(kv("isbn"@, s[i]), isbn_lines(s)),
    decreases s.len(),
{
    broadcast use lemma_occurs_left, lemma_occurs_right, lemma_occurs_self;

    if i < s.len() - 1 {
        lemma_isbn_occurs(s.drop_last(), i);
        assert(s.drop_last()[i] == s[i]);
    }
}

/// The entry has `line` among its lines.
pub open spec fn shows(line: Text, e: Entry) -> bool {
    occurs(line, bibtex_text(e))
}

/// A present optional field has its line.
pub open spec fn opt_shown(name: Text, o: Option<Text>, e: Entry) -> bool {
    o matches Some(v) ==> shows(kv(name, v), e)
}

/// A list of people, if not empty, has its line, the names joined by ` and `.
pub open spec fn people_shown(name: Text, ps: Seq<Text>, e: Entry) -> bool {
    ps.len() > 0 ==> shows(kv(name, and_joined(ps)), e)
}

/// Every raw link has its line, as a DOI or a URL.
pub open spec fn links_shown(ee: Seq<Text>, e: Entry) -> bool {
    forall|i: int| 0 <= i < ee.len() ==> shows(link_line(link_of(#[trigger] ee[i])), e)
}

/// Every ISBN has its line.
pub open spec fn isbns_shown(isbn: Seq<Text>, e: Entry) -> bool {
    forall|i: int| 0 <= i < isbn.len() ==> shows(kv("isbn"@, #[trigger] isbn[i]), e)
}

/// Every field that the document `d` holds has its line, with the same value, in the entry
/// `e`; for a paper, so does its reference to the volume.
pub open spec fn fields_shown(d: Raw, e: Entry) -> bool {
    match d {
        Raw::Article { author, title, journal, year, pages, volume, ee } => people_shown(
            "author"@,
            author,
            e,
        ) && shows(kv("title"@, title), e) && shows(kv("journal"@, journal), e) && shows(
            kv("year"@, decimal(year as nat)),
            e,
        ) && opt_shown("pages"@, pages, e) && opt_shown("volume"@, volume, e) && links_shown(ee, e),
        Raw::Inproceedings { author, title, booktitle, year, pages, ee, crossref } => people_shown(
            "author"@,
            author,
            e,
        ) && shows(kv("title"@, title), e) && shows(kv("booktitle"@, booktitle), e) && shows(
            kv("year"@, decimal(year as nat)),
            e,
        ) && opt_shown("pages"@, pages, e) && links_shown(ee, e) && shows(
            kv("crossref"@, "DBLP:"@ + crossref),
            e,
        ),
        Raw::Incollection { author, title, booktitle, year, pages, ee, crossref } => people_shown(
            "author"@,
            author,
            e,
        ) && shows(kv("title"@, title), e) && shows(kv("booktitle"@, booktitle), e) && shows(
            kv("year"@, decimal(year as nat)),
            e,
        ) && opt_shown("pages"@, pages, e) && links_shown(ee, e) && shows(
            kv("crossref"@, "DBLP:"@ + crossref),
            e,
        ),
        Raw::Proceedings { editor, title, year, series, volume, publisher, isbn, ee } =>
            people_shown("editor"@, editor, e) && shows(kv("title"@, title), e) && shows(
            kv("year"@, decimal(year as nat)),
            e,
        ) && opt_shown("series"@, series, e) && opt_shown("volume"@, volume, e) && opt_shown(
            "publisher"@,
            publisher,
            e,
        ) && isbns_shown(isbn, e) && links_shown(ee, e),
        Raw::Book { author, editor, title, publisher, year, series, volume, isbn, ee } =>
            people_shown("author"@, author, e) && people_shown("editor"@, editor, e) && shows(
            kv("title"@, title),
            e,
        ) && opt_shown("publisher"@, publisher, e) && shows(kv("year"@, decimal(year as nat)), e)
            && opt_shown("series"@, series, e) && opt_shown("volume"@, volume, e) && isbns_shown(
            isbn,
            e,
        ) && links_shown(ee, e),
    }
}

/// A record built from a document alone and rendered shows every field of the document:
/// each present field has its line with the same value, people joined by ` and `, each
/// link and ISBN has its own line, and the header names the requested key.
#[verifier::rlimit(100)]
pub proof fn lemma_round_trip_fields(key: Text, d: Raw)
    ensures
        assembled(key, d, None, None) is Some,
        fields_shown(d, assembled(key, d, None, None)->Some_0),
        shows("{DBLP:"@ + key + ",\n"@, assembled(key, d, None, None)->Some_0),
{
    broadcast use lemma_occurs_left, lemma_occurs_right, lemma_occurs_self;

    lemma_title_line(key, d);
    let e = assembled(key, d, None, None)->Some_0;
    let ee = match d {
        Raw::Article { ee, .. } => ee,
        Raw::Inproceedings { ee, .. } => ee,
        Raw::Incollection { ee, .. } => ee,
        Raw::Proceedings { ee, .. } => ee,
        Raw::Book { ee, .. } => ee,
    };
    assert(e.external() == raw_links(ee));
    assert forall|i: int| 0 <= i < ee.len() implies shows(link_line(link_of(#[trigger] ee[i])), e) by {
        lemma_link_occurs(raw_links(ee), i);
        assert(raw_links(ee)[i] == link_of(ee[i]));
    }
    match d {
        Raw::Proceedings { isbn, .. } => {
            assert forall|i: int| 0 <= i < isbn.len() implies shows(kv("isbn"@, #[trigger] isbn[i]), e) by {
                lemma_isbn_occurs(isbn, i);
            }
        },
        Raw::Book { isbn, .. } => {
            assert forall|i: int| 0 <= i < isbn.len() implies shows(kv("isbn"@, #[trigger] isbn[i]), e) by {
                lemma_isbn_occurs(isbn, i);
            }
        },
        _ => {},
    }
}

} // verus!
