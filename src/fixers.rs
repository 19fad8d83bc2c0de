//! The normalisation steps that turn a fetched record into its final form.

use vstd::prelude::*;

use crate::acronyms::{acronyms_wrapped, fix_acronyms};
use crate::names::{fix, reordered};
use crate::cli::CommonGetArgs;
use crate::record::{
    links, opt_text, texts, Crossref, CrossrefModel, Entry, External, Link, Record, Text,
};
use crate::text::{has_prefix, starts_with, text_eq, to_chars};
use crate::strings::{
    date_fixed, dashed, escape_chars, escaped, fix_dashes, fix_date, fix_range, num_stripped,
    range_fixed, strip_num,
};
use crate::unicode::{ascii, latex_of, replace, transliterated};

verus! {

/// A rewrite of the names in the author and editor lists.
#[derive(Clone, Copy, Debug, PartialEq, Eq, Structural)]
pub enum PersonFix {
    /// Drop the four-digit suffixes that tell apart people of the same name.
    Number,
    /// Put the last name first.
    Reorder,
}

/// The rewritten form of one name.
pub open spec fn person_fixed(m: PersonFix, t: Text) -> Text {
    match m {
        PersonFix::Number => num_stripped(t),
        PersonFix::Reorder => reordered(t),
    }
}

/// The rewritten forms of a list of names.
pub open spec fn people_fixed(m: PersonFix, v: Seq<Text>) -> Seq<Text> {
    v.map_values(|t: Text| person_fixed(m, t))
}

/// A rewrite of every text field of a record.
#[derive(Clone, Copy, Debug, PartialEq, Eq, Structural)]
pub enum TextFix {
    /// Escape the characters that the output format reserves.
    Escape,
    /// Replace non-ASCII characters by LaTeX commands.
    Unicode,
}

/// The rewrite succeeds on `t`.
pub open spec fn text_ok(m: TextFix, t: Text) -> bool {
    match m {
        TextFix::Escape => true,
        TextFix::Unicode => transliterated(t) is Ok,
    }
}

/// The rewritten form of `t`, where the rewrite succeeds.
pub open spec fn text_fixed(m: TextFix, t: Text) -> Text {
    match m {
        TextFix::Escape => escaped(t),
        TextFix::Unicode => match transliterated(t) {
            Ok(r) => r,
            Err(_) => t,
        },
    }
}

/// The rewrite succeeds on every text of `v`.
pub open spec fn all_ok(m: TextFix, v: Seq<Text>) -> bool {
    forall|i: int| 0 <= i < v.len() ==> text_ok(m, #[trigger] v[i])
}

/// The rewrite succeeds on the optional text.
pub open spec fn opt_ok(m: TextFix, o: Option<Text>) -> bool {
    match o {
        Some(t) => text_ok(m, t),
        None => true,
    }
}

/// An optional text rewritten.
pub open spec fn opt_fixed(m: TextFix, o: Option<Text>) -> Option<Text> {
    match o {
        Some(t) => Some(text_fixed(m, t)),
        None => None,
    }
}

/// A list of texts rewritten.
pub open spec fn all_fixed(m: TextFix, v: Seq<Text>) -> Seq<Text> {
    v.map_values(|t: Text| text_fixed(m, t))
}

/// A character that the transliteration table does not know.
pub open spec fn unmapped(c: char) -> bool {
    !ascii(c) && latex_of(c) is None
}

/// The failure of a rewrite: only transliteration fails, on an unknown character.
pub open spec fn fix_error(m: TextFix, c: char) -> bool {
    m == TextFix::Unicode && unmapped(c)
}

/// A resolved crossref with every name rewritten.
pub open spec fn crossref_people(m: PersonFix, c: CrossrefModel) -> CrossrefModel {
    match c {
        CrossrefModel::Resolved { editor, publisher, series, volume } => CrossrefModel::Resolved {
            editor: people_fixed(m, editor),
            publisher,
            series,
            volume,
        },
        CrossrefModel::Key(k) => CrossrefModel::Key(k),
    }
}

/// The rewrite succeeds on every text of a crossref.
pub open spec fn crossref_ok(m: TextFix, c: CrossrefModel) -> bool {
    match c {
        CrossrefModel::Resolved { editor, publisher, series, .. } => all_ok(m, editor) && opt_ok(
            m,
            publisher,
        ) && opt_ok(m, series),
        CrossrefModel::Key(_) => true,
    }
}

/// A crossref with every text rewritten.
pub open spec fn crossref_texts(m: TextFix, c: CrossrefModel) -> CrossrefModel {
    match c {
        CrossrefModel::Resolved { editor, publisher, series, volume } => CrossrefModel::Resolved {
            editor: all_fixed(m, editor),
            publisher: opt_fixed(m, publisher),
            series: opt_fixed(m, series),
            volume,
        },
        CrossrefModel::Key(k) => CrossrefModel::Key(k),
    }
}

impl Entry {
    /// Every author and editor name rewritten.
    pub open spec fn people_fixed(self, m: PersonFix) -> Entry {
        match self {
            Entry::Article { key, author, title, journal, year, pages, volume, external } =>
                Entry::Article {
                key,
                author: people_fixed(m, author),
                title,
                journal,
                year,
                pages,
                volume,
                external,
            },
            Entry::Proceedings {
                key,
                editor,
                title,
                year,
                series,
                volume,
                publisher,
                external,
                isbn,
            } => Entry::Proceedings {
                key,
                editor: people_fixed(m, editor),
                title,
                year,
                series,
                volume,
                publisher,
                external,
                isbn,
            },
            Entry::Inproceedings {
                key,
                author,
                title,
                booktitle,
                year,
                pages,
                external,
                crossref,
            } => Entry::Inproceedings {
                key,
                author: people_fixed(m, author),
                title,
                booktitle,
                year,
                pages,
                external,
                crossref: crossref_people(m, crossref),
            },
            Entry::Book {
                key,
                author,
                editor,
                title,
                publisher,
                year,
                series,
                volume,
                external,
                isbn,
            } => Entry::Book {
                key,
                author: people_fixed(m, author),
                editor: people_fixed(m, editor),
                title,
                publisher,
                year,
                series,
                volume,
                external,
                isbn,
            },
            Entry::Incollection {
                key,
                author,
                title,
                booktitle,
                year,
                pages,
                external,
                crossref,
            } => Entry::Incollection {
                key,
                author: people_fixed(m, author),
                title,
                booktitle,
                year,
                pages,
                external,
                crossref: crossref_people(m, crossref),
            },
        }
    }

    /// The rewrite succeeds on every text field.
    pub open spec fn texts_ok(self, m: TextFix) -> bool {
        match self {
            Entry::Article { author, title, journal, .. } => all_ok(m, author) && text_ok(m, title)
                && text_ok(m, journal),
            Entry::Proceedings { editor, title, series, publisher, .. } => all_ok(m, editor)
                && text_ok(m, title) && opt_ok(m, series) && opt_ok(m, publisher),
            Entry::Inproceedings { author, title, booktitle, crossref, .. } => all_ok(m, author)
                && text_ok(m, title) && text_ok(m, booktitle) && crossref_ok(m, crossref),
            Entry::Book { author, editor, title, series, publisher, .. } => all_ok(m, author)
                && all_ok(m, editor) && text_ok(m, title) && opt_ok(m, series) && opt_ok(
                m,
                publisher,
            ),
            Entry::Incollection { author, title, booktitle, crossref, .. } => all_ok(m, author)
                && text_ok(m, title) && text_ok(m, booktitle) && crossref_ok(m, crossref),
        }
    }

    /// Every text field rewritten: names, titles, venues, series and publishers.
    pub open spec fn texts_fixed(self, m: TextFix) -> Entry {
        match self {
            Entry::Article { key, author, title, journal, year, pages, volume, external } =>
                Entry::Article {
                key,
                author: all_fixed(m, author),
                title: text_fixed(m, title),
                journal: text_fixed(m, journal),
                year,
                pages,
                volume,
                external,
            },
            Entry::Proceedings {
                key,
                editor,
                title,
                year,
                series,
                volume,
                publisher,
                external,
                isbn,
            } => Entry::Proceedings {
                key,
                editor: all_fixed(m, editor),
                title: text_fixed(m, title),
                year,
                series: opt_fixed(m, series),
                volume,
                publisher: opt_fixed(m, publisher),
                external,
                isbn,
            },
            Entry::Inproceedings {
                key,
                author,
                title,
                booktitle,
                year,
                pages,
                external,
                crossref,
            } => Entry::Inproceedings {
                key,
                author: all_fixed(m, author),
                title: text_fixed(m, title),
                booktitle: text_fixed(m, booktitle),
                year,
                pages,
                external,
                crossref: crossref_texts(m, crossref),
            },
            Entry::Book {
                key,
                author,
                editor,
                title,
                publisher,
                year,
                series,
                volume,
                external,
                isbn,
            } => Entry::Book {
                key,
                author: all_fixed(m, author),
                editor: all_fixed(m, editor),
                title: text_fixed(m, title),
                publisher: opt_fixed(m, publisher),
                year,
                series: opt_fixed(m, series),
                volume,
                external,
                isbn,
            },
            Entry::Incollection {
                key,
                author,
                title,
                booktitle,
                year,
                pages,
                external,
                crossref,
            } => Entry::Incollection {
                key,
                author: all_fixed(m, author),
                title: text_fixed(m, title),
                booktitle: text_fixed(m, booktitle),
                year,
                pages,
                external,
                crossref: crossref_texts(m, crossref),
            },
        }
    }
}

fn fix_person(s: &mut String, m: PersonFix)
    ensures
        final(s)@ == person_fixed(m, old(s)@),
{
    match m {
        PersonFix::Number => {
            *s = strip_num(s.as_str());
        },
        PersonFix::Reorder => {
            fix(s);
        },
    }
}

fn fix_people(v: &mut Vec<String>, m: PersonFix)
    ensures
        texts(final(v)@) == people_fixed(m, texts(old(v)@)),
{
    let n = v.len();
    let mut i: usize = 0;
    while i < n
        invariant
            n == v@.len() == old(v)@.len(),
            i <= n,
            forall|j: int|
                0 <= j < i ==> #[trigger] v@[j]@ == person_fixed(m, old(v)@[j]@),
            forall|j: int| i <= j < n ==> #[trigger] v@[j] == old(v)@[j],
        decreases n - i,
    {
        let mut s = v[i].clone();
        fix_person(&mut s, m);
        v.set(i, s);
        i = i + 1;
    }
    assert(texts(v@) =~= people_fixed(m, texts(old(v)@)));
}

fn fix_text(s: &mut String, m: TextFix) -> (r: Result<(), char>)
    ensures
        r is Ok <==> text_ok(m, old(s)@),
        r is Ok ==> final(s)@ == text_fixed(m, old(s)@),
        r matches Err(c) ==> fix_error(m, c),
{
    match m {
        TextFix::Escape => {
            *s = escape_chars(s.as_str());
            Ok(())
        },
        TextFix::Unicode => {
            let r = replace(s);
            proof {
                if let Err(c) = r {
                    lemma_unmapped(old(s)@);
                }
            }
            r
        },
    }
}

/// The character that stops transliteration is one that the table does not know.
proof fn lemma_unmapped(s: Text)
    ensures
        transliterated(s) matches Err(c) ==> unmapped(c),
    decreases s.len(),
{
    if s.len() > 0 {
        lemma_unmapped(s.drop_last());
    }
}

fn fix_texts(v: &mut Vec<String>, m: TextFix) -> (r: Result<(), char>)
    ensures
        r is Ok <==> all_ok(m, texts(old(v)@)),
        r is Ok ==> texts(final(v)@) == all_fixed(m, texts(old(v)@)),
        r matches Err(c) ==> fix_error(m, c),
{
    let n = v.len();
    let mut i: usize = 0;
    while i < n
        invariant
            n == v@.len() == old(v)@.len(),
            i <= n,
            forall|j: int| 0 <= j < i ==> text_ok(m, #[trigger] texts(old(v)@)[j]),
            forall|j: int|
                0 <= j < i ==> #[trigger] v@[j]@ == text_fixed(m, old(v)@[j]@),
            forall|j: int| i <= j < n ==> #[trigger] v@[j] == old(v)@[j],
        decreases n - i,
    {
        let mut s = v[i].clone();
        match fix_text(&mut s, m) {
            Ok(()) => {},
            Err(c) => {
                assert(!text_ok(m, texts(old(v)@)[i as int]));
                return Err(c);
            },
        }
        assert(text_ok(m, texts(old(v)@)[i as int]));
        v.set(i, s);
        i = i + 1;
    }
    assert(texts(v@) =~= all_fixed(m, texts(old(v)@)));
    Ok(())
}

fn fix_opt(o: &mut Option<String>, m: TextFix) -> (r: Result<(), char>)
    ensures
        r is Ok <==> opt_ok(m, opt_text(*old(o))),
        r is Ok ==> opt_text(*final(o)) == opt_fixed(m, opt_text(*old(o))),
        r matches Err(c) ==> fix_error(m, c),
{
    match o {
        Some(s) => fix_text(s, m),
        None => Ok(()),
    }
}

fn crossref_fix_people(c: &mut Crossref, m: PersonFix)
    ensures
        final(c)@ == crossref_people(m, old(c)@),
{
    match c {
        Crossref::Resolved { editor, .. } => fix_people(editor, m),
        Crossref::Key(_) => {},
    }
}

fn people(rec: &mut Record, m: PersonFix)
    ensures
        final(rec)@ == old(rec)@.people_fixed(m),
{
    match rec {
        Record::Article { author, .. } => fix_people(author, m),
        Record::Proceedings { editor, .. } => fix_people(editor, m),
        Record::Inproceedings { author, crossref, .. } => {
            fix_people(author, m);
            crossref_fix_people(crossref, m);
        },
        Record::Book { author, editor, .. } => {
            fix_people(author, m);
            fix_people(editor, m);
        },
        Record::Incollection { author, crossref, .. } => {
            fix_people(author, m);
            crossref_fix_people(crossref, m);
        },
    }
}

/// Removes every four-digit suffix that the database appends to names shared by several
/// people, from every author and editor.
pub fn author_num(rec: &mut Record)
    ensures
        final(rec)@ == old(rec)@.people_fixed(PersonFix::Number),
{
    people(rec, PersonFix::Number)
}

/// Puts every author and editor name into `<last>, <first> <middle>` form.
pub fn names(rec: &mut Record)
    ensures
        final(rec)@ == old(rec)@.people_fixed(PersonFix::Reorder),
{
    people(rec, PersonFix::Reorder)
}

fn crossref_strings(c: &mut Crossref, m: TextFix) -> (r: Result<(), char>)
    ensures
        r is Ok <==> crossref_ok(m, old(c)@),
        r is Ok ==> final(c)@ == crossref_texts(m, old(c)@),
        r matches Err(ch) ==> fix_error(m, ch),
{
    match c {
        Crossref::Resolved { editor, series, publisher, .. } => {
            fix_texts(editor, m)?;
            fix_opt(series, m)?;
            fix_opt(publisher, m)
        },
        Crossref::Key(_) => Ok(()),
    }
}

/// Applies a text rewrite to every text field of the record, stopping at the first
/// failure.
fn all_strings(rec: &mut Record, m: TextFix) -> (r: Result<(), char>)
    ensures
        r is Ok <==> old(rec)@.texts_ok(m),
        r is Ok ==> final(rec)@ == old(rec)@.texts_fixed(m),
        r matches Err(c) ==> fix_error(m, c),
{
    match rec {
        Record::Article { author, title, journal, .. } => {
            fix_texts(author, m)?;
            fix_text(title, m)?;
            fix_text(journal, m)
        },
        Record::Proceedings { editor, title, series, publisher, .. } => {
            fix_texts(editor, m)?;
            fix_text(title, m)?;
            fix_opt(series, m)?;
            fix_opt(publisher, m)
        },
        Record::Inproceedings { author, title, booktitle, crossref, .. } => {
            fix_texts(author, m)?;
            fix_text(title, m)?;
            fix_text(booktitle, m)?;
            crossref_strings(crossref, m)
        },
        Record::Book { author, editor, title, series, publisher, .. } => {
            fix_texts(author, m)?;
            fix_texts(editor, m)?;
            fix_text(title, m)?;
            fix_opt(series, m)?;
            fix_opt(publisher, m)
        },
        Record::Incollection { author, title, booktitle, crossref, .. } => {
            fix_texts(author, m)?;
            fix_text(title, m)?;
            fix_text(booktitle, m)?;
            crossref_strings(crossref, m)
        },
    }
}

/// Escapes the reserved characters of the output format in every text field.
pub fn escape_latex(rec: &mut Record)
    ensures
        final(rec)@ == old(rec)@.texts_fixed(TextFix::Escape),
{
    let r = all_strings(rec, TextFix::Escape);
}

/// Replaces every non-ASCII character of every text field by its LaTeX command. A
/// character that the table does not know is returned as the error.
pub fn unicode(rec: &mut Record) -> (r: Result<(), char>)
    ensures
        r is Ok <==> old(rec)@.texts_ok(TextFix::Unicode),
        r is Ok ==> final(rec)@ == old(rec)@.texts_fixed(TextFix::Unicode),
        r matches Err(c) ==> unmapped(c),
{
    all_strings(rec, TextFix::Unicode)
}

/// The entry with its page range repaired.
pub open spec fn pages_fixed(e: Entry) -> Entry {
    match e.pages() {
        Some(p) => e.with_pages(Some(range_fixed(p))),
        None => e,
    }
}

/// Writes every hyphen between two digits of the page range as `--`.
pub fn page_range(rec: &mut Record)
    ensures
        final(rec)@ == pages_fixed(old(rec)@),
{
    match rec {
        Record::Article { pages: Some(p), .. } => {
            *p = fix_range(p.as_str());
        },
        Record::Inproceedings { pages: Some(p), .. } => {
            *p = fix_range(p.as_str());
        },
        Record::Incollection { pages: Some(p), .. } => {
            *p = fix_range(p.as_str());
        },
        _ => {},
    }
}

/// The entry with the acronyms of its titles wrapped in braces.
pub open spec fn acronyms_fixed(e: Entry) -> Entry {
    let t = e.with_title(acronyms_wrapped(e.title()));
    match e.booktitle() {
        Some(b) => t.with_booktitle(acronyms_wrapped(b)),
        None => t,
    }
}

/// Wraps the acronyms of the title, and of the volume title of a paper, in braces.
pub fn acronyms(rec: &mut Record)
    ensures
        final(rec)@ == acronyms_fixed(old(rec)@),
{
    match rec {
        Record::Article { title, .. } => fix_acronyms(title),
        Record::Proceedings { title, .. } => fix_acronyms(title),
        Record::Inproceedings { title, booktitle, .. } => {
            fix_acronyms(title);
            fix_acronyms(booktitle);
        },
        Record::Book { title, .. } => fix_acronyms(title),
        Record::Incollection { title, booktitle, .. } => {
            fix_acronyms(title);
            fix_acronyms(booktitle);
        },
    }
}

/// The entry with the spaced hyphens of its title and venue replaced.
pub open spec fn dashes_fixed(e: Entry) -> Entry {
    let t = e.with_title(dashed(e.title()));
    match e {
        Entry::Article { journal, .. } => t.with_journal(dashed(journal)),
        Entry::Inproceedings { booktitle, .. } => t.with_booktitle(dashed(booktitle)),
        Entry::Incollection { booktitle, .. } => t.with_booktitle(dashed(booktitle)),
        _ => t,
    }
}

/// Replaces each spaced hyphen ` - ` of the title and of the venue by `--`.
pub fn dashes(rec: &mut Record)
    ensures
        final(rec)@ == dashes_fixed(old(rec)@),
{
    match rec {
        Record::Article { title, journal, .. } => {
            *title = fix_dashes(title.as_str());
            *journal = fix_dashes(journal.as_str());
        },
        Record::Proceedings { title, .. } => {
            *title = fix_dashes(title.as_str());
        },
        Record::Inproceedings { title, booktitle, .. } => {
            *title = fix_dashes(title.as_str());
            *booktitle = fix_dashes(booktitle.as_str());
        },
        Record::Book { title, .. } => {
            *title = fix_dashes(title.as_str());
        },
        Record::Incollection { title, booktitle, .. } => {
            *title = fix_dashes(title.as_str());
            *booktitle = fix_dashes(booktitle.as_str());
        },
    }
}

/// The entry with every digit and date range of its event title repaired.
pub open spec fn dates_fixed(e: Entry) -> Entry {
    match e {
        Entry::Inproceedings { booktitle, .. } => e.with_booktitle(date_fixed(booktitle)),
        Entry::Proceedings { title, .. } => e.with_title(date_fixed(title)),
        _ => e,
    }
}

/// Writes the hyphen of every digit range and date range of the event title of a
/// paper or a proceedings volume as `--`.
pub fn date_ranges(rec: &mut Record)
    ensures
        final(rec)@ == dates_fixed(old(rec)@),
{
    match rec {
        Record::Inproceedings { booktitle, .. } => {
            *booktitle = fix_date(booktitle.as_str());
        },
        Record::Proceedings { title, .. } => {
            *title = fix_date(title.as_str());
        },
        _ => {},
    }
}

/// A link to a host whose pages are no canonical reference.
pub open spec fn weird(l: Link) -> bool {
    match l {
        Link::Url(s) => has_prefix(s, "https://www.wikidata.org"@) || has_prefix(
            s,
            "https://ojs.aaai.org"@,
        ),
        Link::Doi(_) => false,
    }
}

/// The links of `s` that are not weird, in order.
pub open spec fn kept(s: Seq<Link>) -> Seq<Link>
    decreases s.len(),
{
    if s.len() == 0 {
        s
    } else if weird(s.last()) {
        kept(s.drop_last())
    } else {
        kept(s.drop_last()).push(s.last())
    }
}

fn is_weird(e: &External) -> (r: bool)
    ensures
        r == weird(e@),
{
    match e {
        External::Url(s) => {
            let v = to_chars(s.as_str());
            starts_with(&v, to_chars("https://www.wikidata.org").as_slice()) || starts_with(
                &v,
                to_chars("https://ojs.aaai.org").as_slice(),
            )
        },
        External::Doi(_) => false,
    }
}

fn external_mut(rec: &mut Record) -> (r: &mut Vec<External>)
    ensures
        links(r@) == old(rec)@.external(),
        final(rec)@ == old(rec)@.with_external(links(final(r)@)),
{
    match rec {
        Record::Article { external, .. } => external,
        Record::Proceedings { external, .. } => external,
        Record::Inproceedings { external, .. } => external,
        Record::Book { external, .. } => external,
        Record::Incollection { external, .. } => external,
    }
}

/// Removes the links to hosts whose pages are no canonical reference.
pub fn weird_urls(rec: &mut Record)
    ensures
        final(rec)@ == old(rec)@.with_external(kept(old(rec)@.external())),
{
    let external = external_mut(rec);
    let ghost orig = external@;
    let mut out: Vec<External> = Vec::new();
    let mut i: usize = 0;
    while i < external.len()
        invariant
            i <= external@.len(),
            external@ == orig,
            links(out@) == kept(links(external@).take(i as int)),
        decreases external@.len() - i,
    {
        let ghost l = links(external@);
        assert(l.take(i as int + 1).drop_last() =~= l.take(i as int));
        if !is_weird(&external[i]) {
            let e = external[i].copy();
            out.push(e);
            assert(links(out@) =~= kept(l.take(i as int)).push(l[i as int]));
        }
        i = i + 1;
    }
    assert(links(external@).take(external@.len() as int) =~= links(external@));
    *external = out;
}

/// The first DOI from position `i` on.
pub open spec fn first_doi(s: Seq<Link>, i: int) -> Option<int>
    decreases s.len() - i,
{
    if i < 0 || i >= s.len() {
        None
    } else if s[i] is Doi {
        Some(i)
    } else {
        first_doi(s, i + 1)
    }
}

/// The one link that is kept: the first DOI, else the first link; none if there is none.
pub open spec fn single(s: Seq<Link>) -> Seq<Link> {
    if s.len() == 0 {
        s
    } else {
        match first_doi(s, 0) {
            Some(j) => seq![s[j]],
            None => seq![s[0]],
        }
    }
}

fn find_doi(v: &Vec<External>) -> (r: Option<usize>)
    ensures
        r matches Some(j) ==> first_doi(links(v@), 0) == Some(j as int) && j < v@.len(),
        r is None ==> first_doi(links(v@), 0) is None,
{
    let ghost l = links(v@);
    let mut i: usize = 0;
    while i < v.len()
        invariant
            i <= v@.len(),
            l == links(v@),
            first_doi(l, 0) == first_doi(l, i as int),
        decreases v@.len() - i,
    {
        if let External::Doi(_) = &v[i] {
            return Some(i);
        }
        i = i + 1;
    }
    None
}

/// Keeps a single external link, preferring the first DOI over the first URL.
pub fn single_external(rec: &mut Record)
    ensures
        final(rec)@ == old(rec)@.with_external(single(old(rec)@.external())),
{
    let external = external_mut(rec);
    if external.len() == 0 {
        assert(links(external@) =~= single(links(external@)));
        return;
    }
    let ghost l = links(external@);
    let chosen = match find_doi(external) {
        Some(j) => j,
        None => 0,
    };
    let e = external[chosen].copy();
    let mut out: Vec<External> = Vec::new();
    out.push(e);
    assert(links(out@) =~= single(l));
    *external = out;
}

/// Replaces the volume title of a paper by the title of the volume it refers to.
pub fn expand_booktitle(rec: &mut Record, crossref: &Record)
    requires
        old(rec)@.crossref_key() is Some,
    ensures
        final(rec)@ == old(rec)@.with_booktitle(crossref@.title()),
{
    match rec {
        Record::Inproceedings { booktitle, .. } => {
            *booktitle = crossref.title().to_owned();
        },
        Record::Incollection { booktitle, .. } => {
            *booktitle = crossref.title().to_owned();
        },
        _ => {},
    }
}

/// The key of a record whose title the database holds wrongly.
pub open spec fn corrected_key() -> Text {
    "conf/tacas/JabsBBJ25"@
}

/// The title that the record under [`corrected_key`] should have.
pub open spec fn corrected_title() -> Text {
    "Certifying Pareto Optimality in Multi-objective Maximum Satisfiability"@
}

/// The entry with the known mistakes of the database corrected.
pub open spec fn corrected(e: Entry) -> Entry {
    if e is Inproceedings && e.key() == corrected_key() {
        e.with_title(corrected_title())
    } else {
        e
    }
}

/// Corrects known mistakes in the database's records.
pub fn manually_correct(rec: &mut Record)
    ensures
        final(rec)@ == corrected(old(rec)@),
{
    let known = text_eq(rec.key(), "conf/tacas/JabsBBJ25");
    if known {
        if let Record::Inproceedings { title, .. } = rec {
            *title = "Certifying Pareto Optimality in Multi-objective Maximum Satisfiability".to_owned();
        }
    }
}

/// The steps before transliteration, in order: number suffixes, escaping, page ranges,
/// name order, acronyms, weird links, date ranges, dashes and manual corrections.
pub open spec fn prepared(e: Entry) -> Entry {
    let e1 = e.people_fixed(PersonFix::Number);
    let e2 = e1.texts_fixed(TextFix::Escape);
    let e3 = pages_fixed(e2);
    let e4 = e3.people_fixed(PersonFix::Reorder);
    let e5 = acronyms_fixed(e4);
    let e6 = e5.with_external(kept(e5.external()));
    let e7 = dates_fixed(e6);
    let e8 = dashes_fixed(e7);
    corrected(e8)
}

/// The last step: a single external link, unless all are kept.
pub open spec fn finished(e: Entry, all_externals: bool) -> Entry {
    if all_externals {
        e
    } else {
        e.with_external(single(e.external()))
    }
}

/// Runs the whole normalisation pipeline over a fetched record. Transliteration is left
/// out when non-ASCII output was asked for; a character it does not know is the error.
pub fn fixup(rec: &mut Record, args: &CommonGetArgs) -> (r: Result<(), char>)
    ensures
        args.unicode ==> r is Ok && final(rec)@ == finished(prepared(old(rec)@), args.all_externals),
        !args.unicode ==> (r is Ok <==> prepared(old(rec)@).texts_ok(TextFix::Unicode)),
        !args.unicode && r is Ok ==> final(rec)@ == finished(
            prepared(old(rec)@).texts_fixed(TextFix::Unicode),
            args.all_externals,
        ),
        r matches Err(c) ==> unmapped(c),
{
    author_num(rec);
    escape_latex(rec);
    page_range(rec);
    names(rec);
    acronyms(rec);
    weird_urls(rec);
    date_ranges(rec);
    dashes(rec);
    manually_correct(rec);
    if !args.unicode {
        unicode(rec)?;
    }
    if !args.all_externals {
        single_external(rec);
    }
    Ok(())
}

} // verus!
