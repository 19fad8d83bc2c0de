//! Rendering of records as BibTeX entries.

use vstd::prelude::*;

use crate::record::{links, opt_text, texts, Crossref, CrossrefModel, Entry, External, Link, Record, Text};
use crate::text::push_char;

verus! {

/// `n` spaces.
pub open spec fn spaces(n: int) -> Text {
    Seq::new(n as nat, |i: int| ' ')
}

/// A field name padded with spaces to twelve characters.
pub open spec fn padded(k: Text) -> Text {
    if k.len() < 12 {
        k + spaces(12 - k.len())
    } else {
        k
    }
}

/// The line of a field: `  <name padded> = {<value>},`.
pub open spec fn kv(k: Text, v: Text) -> Text {
    "  "@ + padded(k) + " = {"@ + v + "},\n"@
}

/// Names joined by ` and `.
pub open spec fn and_joined(ps: Seq<Text>) -> Text
    decreases ps.len(),
{
    if ps.len() == 0 {
        Seq::empty()
    } else if ps.len() == 1 {
        ps[0]
    } else {
        and_joined(ps.drop_last()) + " and "@ + ps.last()
    }
}

/// The line of a list of people, or nothing for an empty list.
pub open spec fn people_line(k: Text, ps: Seq<Text>) -> Text {
    if ps.len() == 0 {
        Seq::empty()
    } else {
        kv(k, and_joined(ps))
    }
}

/// The line of an optional field, or nothing.
pub open spec fn opt_kv(k: Text, o: Option<Text>) -> Text {
    match o {
        Some(v) => kv(k, v),
        None => Seq::empty(),
    }
}

/// One `isbn` line per ISBN.
pub open spec fn isbn_lines(s: Seq<Text>) -> Text
    decreases s.len(),
{
    if s.len() == 0 {
        Seq::empty()
    } else {
        isbn_lines(s.drop_last()) + kv("isbn"@, s.last())
    }
}

/// The line of a link: `url` or `doi`.
pub open spec fn link_line(l: Link) -> Text {
    match l {
        Link::Url(u) => kv("url"@, u),
        Link::Doi(d) => kv("doi"@, d),
    }
}

/// One line per link.
pub open spec fn link_lines(s: Seq<Link>) -> Text
    decreases s.len(),
{
    if s.len() == 0 {
        Seq::empty()
    } else {
        link_lines(s.drop_last()) + link_line(s.last())
    }
}

/// The decimal digit for `d < 10`.
pub open spec fn digit_char(d: nat) -> char {
    if d == 0 {
        '0'
    } else if d == 1 {
        '1'
    } else if d == 2 {
        '2'
    } else if d == 3 {
        '3'
    } else if d == 4 {
        '4'
    } else if d == 5 {
        '5'
    } else if d == 6 {
        '6'
    } else if d == 7 {
        '7'
    } else if d == 8 {
        '8'
    } else {
        '9'
    }
}

/// The decimal form of `n`.
pub open spec fn decimal(n: nat) -> Text
    decreases n,
{
    if n < 10 {
        seq![digit_char(n)]
    } else {
        decimal(n / 10) + seq![digit_char(n % 10)]
    }
}

/// The first line of an entry: its type and its key in the database's namespace.
pub open spec fn header(ty: Text, key: Text) -> Text {
    "@"@ + ty + "{DBLP:"@ + key + ",\n"@
}

/// The lines that a paper's crossref contributes.
pub open spec fn crossref_lines(c: CrossrefModel) -> Text {
    match c {
        CrossrefModel::Key(k) => kv("crossref"@, "DBLP:"@ + k),
        CrossrefModel::Resolved { editor, publisher, series, volume } => people_line(
            "editor"@,
            editor,
        ) + opt_kv("series"@, series) + opt_kv("volume"@, volume) + opt_kv("publisher"@, publisher),
    }
}

/// The BibTeX entry of a record: its fields in a fixed order per kind, then a closing
/// brace.
pub open spec fn bibtex_text(e: Entry) -> Text {
    match e {
        Entry::Article { key, author, title, journal, year, pages, volume, external } => header(
            "article"@,
            key,
        ) + people_line("author"@, author) + kv("title"@, title) + kv("journal"@, journal) + kv(
            "year"@,
            decimal(year as nat),
        ) + opt_kv("pages"@, pages) + opt_kv("volume"@, volume) + link_lines(external) + "}"@,
        Entry::Proceedings {
            key,
            editor,
            title,
            year,
            series,
            volume,
            publisher,
            external,
            isbn,
        } => header("proceedings"@, key) + people_line("editor"@, editor) + kv("title"@, title)
            + kv("year"@, decimal(year as nat)) + opt_kv("series"@, series) + opt_kv(
            "volume"@,
            volume,
        ) + opt_kv("publisher"@, publisher) + isbn_lines(isbn) + link_lines(external) + "}"@,
        Entry::Inproceedings { key, author, title, booktitle, year, pages, external, crossref } =>
            header("inproceedings"@, key) + people_line("author"@, author) + kv("title"@, title)
            + kv("booktitle"@, booktitle) + kv("year"@, decimal(year as nat)) + opt_kv(
            "pages"@,
            pages,
        ) + link_lines(external) + crossref_lines(crossref) + "}"@,
        Entry::Book {
            key,
            author,
            editor,
            title,
            publisher,
            year,
            series,
            volume,
            external,
            isbn,
        } => header("book"@, key) + people_line("author"@, author) + people_line("editor"@, editor)
            + kv("title"@, title) + opt_kv("publisher"@, publisher) + kv(
            "year"@,
            decimal(year as nat),
        ) + opt_kv("series"@, series) + opt_kv("volume"@, volume) + isbn_lines(isbn) + link_lines(
            external,
        ) + "}"@,
        Entry::Incollection { key, author, title, booktitle, year, pages, external, crossref } =>
            header("incollection"@, key) + people_line("author"@, author) + kv("title"@, title)
            + kv("booktitle"@, booktitle) + kv("year"@, decimal(year as nat)) + opt_kv(
            "pages"@,
            pages,
        ) + link_lines(external) + crossref_lines(crossref) + "}"@,
    }
}

fn push_padded(out: &mut String, k: &str)
    ensures
        final(out)@ == old(out)@ + padded(k@),
{
    out.append(k);
    let n = k.unicode_len();
    if n < 12 {
        let mut j: usize = n;
        while j < 12
            invariant
                n <= j <= 12,
                n == k@.len(),
                out@ == old(out)@ + k@ + spaces(j - n),
            decreases 12 - j,
        {
            push_char(out, ' ');
            j = j + 1;
            assert(out@ =~= old(out)@ + k@ + spaces(j - n));
        }
    } else {
        assert(out@ =~= old(out)@ + padded(k@));
    }
}

fn push_kv(out: &mut String, k: &str, v: &str)
    ensures
        final(out)@ == old(out)@ + kv(k@, v@),
{
    out.append("  ");
    push_padded(out, k);
    out.append(" = {");
    out.append(v);
    out.append("},\n");
    assert(out@ =~= old(out)@ + kv(k@, v@));
}

fn push_people(out: &mut String, k: &str, ps: &Vec<String>)
    ensures
        final(out)@ == old(out)@ + people_line(k@, texts(ps@)),
{
    if ps.len() == 0 {
        assert(out@ =~= old(out)@ + people_line(k@, texts(ps@)));
        return;
    }
    let ghost t = texts(ps@);
    let mut joined = String::new();
    let mut i: usize = 0;
    while i < ps.len()
        invariant
            i <= ps@.len(),
            t == texts(ps@),
            joined@ == and_joined(t.take(i as int)),
        decreases ps@.len() - i,
    {
        if i > 0 {
            joined.append(" and ");
        }
        joined.append(ps[i].as_str());
        assert(t.take(i as int + 1).drop_last() =~= t.take(i as int));
        assert(t[i as int] == ps@[i as int]@);
        i = i + 1;
    }
    assert(t.take(ps@.len() as int) =~= t);
    push_kv(out, k, joined.as_str());
}

fn push_opt(out: &mut String, k: &str, o: &Option<String>)
    ensures
        final(out)@ == old(out)@ + opt_kv(k@, opt_text(*o)),
{
    match o {
        Some(v) => push_kv(out, k, v.as_str()),
        None => {
            assert(out@ =~= old(out)@ + opt_kv(k@, opt_text(*o)));
        },
    }
}

fn push_isbns(out: &mut String, v: &Vec<String>)
    ensures
        final(out)@ == old(out)@ + isbn_lines(texts(v@)),
{
    let ghost t = texts(v@);
    let mut i: usize = 0;
    assert(isbn_lines(t.take(0)) =~= Seq::<char>::empty());
    assert(out@ =~= old(out)@ + isbn_lines(t.take(0)));
    while i < v.len()
        invariant
            i <= v@.len(),
            t == texts(v@),
            out@ == old(out)@ + isbn_lines(t.take(i as int)),
        decreases v@.len() - i,
    {
        let ghost before = out@;
        push_kv(out, "isbn", v[i].as_str());
        assert(t.take(i as int + 1).drop_last() =~= t.take(i as int));
        assert(t[i as int] == v@[i as int]@);
        assert(out@ =~= old(out)@ + isbn_lines(t.take(i as int + 1)));
        i = i + 1;
    }
    assert(t.take(v@.len() as int) =~= t);
}

fn push_links(out: &mut String, v: &Vec<External>)
    ensures
        final(out)@ == old(out)@ + link_lines(links(v@)),
{
    let ghost t = links(v@);
    let mut i: usize = 0;
    assert(link_lines(t.take(0)) =~= Seq::<char>::empty());
    assert(out@ =~= old(out)@ + link_lines(t.take(0)));
    while i < v.len()
        invariant
            i <= v@.len(),
            t == links(v@),
            out@ == old(out)@ + link_lines(t.take(i as int)),
        decreases v@.len() - i,
    {
        match &v[i] {
            External::Url(u) => push_kv(out, "url", u.as_str()),
            External::Doi(d) => push_kv(out, "doi", d.as_str()),
        }
        assert(t.take(i as int + 1).drop_last() =~= t.take(i as int));
        assert(t[i as int] == v@[i as int]@);
        assert(out@ =~= old(out)@ + link_lines(t.take(i as int + 1)));
        i = i + 1;
    }
    assert(t.take(v@.len() as int) =~= t);
}

fn digit(d: u32) -> (c: char)
    requires
        d < 10,
    ensures
        c == digit_char(d as nat),
{
    if d == 0 {
        '0'
    } else if d == 1 {
        '1'
    } else if d == 2 {
        '2'
    } else if d == 3 {
        '3'
    } else if d == 4 {
        '4'
    } else if d == 5 {
        '5'
    } else if d == 6 {
        '6'
    } else if d == 7 {
        '7'
    } else if d == 8 {
        '8'
    } else {
        '9'
    }
}

pub(crate) fn push_decimal(out: &mut String, n: u32)
    ensures
        final(out)@ == old(out)@ + decimal(n as nat),
    decreases n,
{
    if n >= 10 {
        push_decimal(out, n / 10);
    }
    push_char(out, digit(n % 10));
    assert(out@ =~= old(out)@ + decimal(n as nat));
}

fn push_year(out: &mut String, year: u32)
    ensures
        final(out)@ == old(out)@ + kv("year"@, decimal(year as nat)),
{
    let mut v = String::new();
    push_decimal(&mut v, year);
    assert(v@ =~= decimal(year as nat));
    push_kv(out, "year", v.as_str());
}

fn push_header(out: &mut String, ty: &str, key: &str)
    ensures
        final(out)@ == old(out)@ + header(ty@, key@),
{
    out.append("@");
    out.append(ty);
    out.append("{DBLP:");
    out.append(key);
    out.append(",\n");
    assert(out@ =~= old(out)@ + header(ty@, key@));
}

fn push_crossref(out: &mut String, c: &Crossref)
    ensures
        final(out)@ == old(out)@ + crossref_lines(c@),
{
    match c {
        Crossref::Key(k) => {
            let mut v = String::new();
            v.append("DBLP:");
            v.append(k.as_str());
            assert(v@ =~= "DBLP:"@ + k@);
            push_kv(out, "crossref", v.as_str());
        },
        Crossref::Resolved { editor, publisher, series, volume } => {
            push_people(out, "editor", editor);
            push_opt(out, "series", series);
            push_opt(out, "volume", volume);
            push_opt(out, "publisher", publisher);
            assert(out@ =~= old(out)@ + crossref_lines(c@));
        },
    }
}

/// Renders a record as a BibTeX entry: a header line with its type and its key in the
/// database's namespace, one line per field present, in a fixed order per kind, and a
/// closing brace.
pub fn render(rec: &Record) -> (r: String)
    ensures
        r@ == bibtex_text(rec@),
{
    let mut out = String::new();
    match rec {
        Record::Article { key, author, title, journal, year, pages, volume, external } => {
            push_header(&mut out, "article", key.as_str());
            push_people(&mut out, "author", author);
            push_kv(&mut out, "title", title.as_str());
            push_kv(&mut out, "journal", journal.as_str());
            push_year(&mut out, *year);
            push_opt(&mut out, "pages", pages);
            push_opt(&mut out, "volume", volume);
            push_links(&mut out, external);
            out.append("}");
        },
        Record::Proceedings {
            key,
            editor,
            title,
            year,
            series,
            volume,
            publisher,
            external,
            isbn,
        } => {
            push_header(&mut out, "proceedings", key.as_str());
            push_people(&mut out, "editor", editor);
            push_kv(&mut out, "title", title.as_str());
            push_year(&mut out, *year);
            push_opt(&mut out, "series", series);
            push_opt(&mut out, "volume", volume);
            push_opt(&mut out, "publisher", publisher);
            push_isbns(&mut out, isbn);
            push_links(&mut out, external);
            out.append("}");
        },
        Record::Inproceedings { key, author, title, booktitle, year, pages, external, crossref } => {
            push_header(&mut out, "inproceedings", key.as_str());
            push_people(&mut out, "author", author);
            push_kv(&mut out, "title", title.as_str());
            push_kv(&mut out, "booktitle", booktitle.as_str());
            push_year(&mut out, *year);
            push_opt(&mut out, "pages", pages);
            push_links(&mut out, external);
            push_crossref(&mut out, crossref);
            out.append("}");
        },
        Record::Book {
            key,
            author,
            editor,
            title,
            publisher,
            year,
            series,
            volume,
            external,
            isbn,
        } => {
            push_header(&mut out, "book", key.as_str());
            push_people(&mut out, "author", author);
            push_people(&mut out, "editor", editor);
            push_kv(&mut out, "title", title.as_str());
            push_opt(&mut out, "publisher", publisher);
            push_year(&mut out, *year);
            push_opt(&mut out, "series", series);
            push_opt(&mut out, "volume", volume);
            push_isbns(&mut out, isbn);
            push_links(&mut out, external);
            out.append("}");
        },
        Record::Incollection { key, author, title, booktitle, year, pages, external, crossref } => {
            push_header(&mut out, "incollection", key.as_str());
            push_people(&mut out, "author", author);
            push_kv(&mut out, "title", title.as_str());
            push_kv(&mut out, "booktitle", booktitle.as_str());
            push_year(&mut out, *year);
            push_opt(&mut out, "pages", pages);
            push_links(&mut out, external);
            push_crossref(&mut out, crossref);
            out.append("}");
        },
    }
    assert(out@ =~= bibtex_text(rec@));
    out
}

impl Record {
    /// The record as a BibTeX entry.
    pub fn bibtex(&self) -> (r: String)
        ensures
            r@ == bibtex_text(self@),
    {
        render(self)
    }
}

} // verus!
