//! Assembly of records from the database's documents, and the decisions of a fetch.

use vstd::prelude::*;

use crate::aux::{find, find_char, tail};
use crate::batch::namespace;
use crate::cli::{domain, domain_of, DblpServerArgs};
use crate::record::{link_of, opt_text, texts, Crossref, CrossrefModel, Entry, External, Link, Record, Text};
use crate::text::{has_prefix, is_space, push_sub, space, starts_with, to_chars};

verus! {

/// Why a record could not be fetched.
#[derive(Debug)]
pub enum Error {
    /// The request did not reach the server or its answer could not be read.
    Transport(String),
    /// The server's document could not be decoded.
    Xml(String),
    /// The server answered with an unsuccessful status other than "not found".
    Http(u16),
    /// The server does not know the key.
    UnknownKey(String),
    /// The volume a paper refers to is unknown to the server, so its data is inconsistent.
    DanglingCrossref(String),
    /// The volume a paper refers to is of the wrong kind.
    CrossrefMismatch(String),
}

/// A record as the database's document holds it, before assembly.
#[derive(Debug)]
pub enum Data {
    Article {
        author: Vec<String>,
        title: String,
        journal: String,
        year: u32,
        pages: Option<String>,
        volume: Option<String>,
        ee: Vec<String>,
    },
    Inproceedings {
        author: Vec<String>,
        title: String,
        booktitle: String,
        year: u32,
        pages: Option<String>,
        ee: Vec<String>,
        crossref: String,
    },
    Incollection {
        author: Vec<String>,
        title: String,
        booktitle: String,
        year: u32,
        pages: Option<String>,
        ee: Vec<String>,
        crossref: String,
    },
    Proceedings {
        editor: Vec<String>,
        title: String,
        year: u32,
        series: Option<String>,
        volume: Option<String>,
        publisher: Option<String>,
        isbn: Vec<String>,
        ee: Vec<String>,
    },
    Book {
        author: Vec<String>,
        editor: Vec<String>,
        title: String,
        publisher: Option<String>,
        year: u32,
        series: Option<String>,
        volume: Option<String>,
        isbn: Vec<String>,
        ee: Vec<String>,
    },
}

/// The model of a [`Data`].
pub enum Raw {
    Article {
        author: Seq<Text>,
        title: Text,
        journal: Text,
        year: u32,
        pages: Option<Text>,
        volume: Option<Text>,
        ee: Seq<Text>,
    },
    Inproceedings {
        author: Seq<Text>,
        title: Text,
        booktitle: Text,
        year: u32,
        pages: Option<Text>,
        ee: Seq<Text>,
        crossref: Text,
    },
    Incollection {
        author: Seq<Text>,
        title: Text,
        booktitle: Text,
        year: u32,
        pages: Option<Text>,
        ee: Seq<Text>,
        crossref: Text,
    },
    Proceedings {
        editor: Seq<Text>,
        title: Text,
        year: u32,
        series: Option<Text>,
        volume: Option<Text>,
        publisher: Option<Text>,
        isbn: Seq<Text>,
        ee: Seq<Text>,
    },
    Book {
        author: Seq<Text>,
        editor: Seq<Text>,
        title: Text,
        publisher: Option<Text>,
        year: u32,
        series: Option<Text>,
        volume: Option<Text>,
        isbn: Seq<Text>,
        ee: Seq<Text>,
    },
}

impl View for Data {
    type V = Raw;

    open spec fn view(&self) -> Raw {
        match self {
            Data::Article { author, title, journal, year, pages, volume, ee } => Raw::Article {
                author: texts(author@),
                title: title@,
                journal: journal@,
                year: *year,
                pages: opt_text(*pages),
                volume: opt_text(*volume),
                ee: texts(ee@),
            },
            Data::Inproceedings { author, title, booktitle, year, pages, ee, crossref } => Raw::Inproceedings {
                author: texts(author@),
                title: title@,
                booktitle: booktitle@,
                year: *year,
                pages: opt_text(*pages),
                ee: texts(ee@),
                crossref: crossref@,
            },
            Data::Incollection { author, title, booktitle, year, pages, ee, crossref } => Raw::Incollection {
                author: texts(author@),
                title: title@,
                booktitle: booktitle@,
                year: *year,
                pages: opt_text(*pages),
                ee: texts(ee@),
                crossref: crossref@,
            },
            Data::Proceedings { editor, title, year, series, volume, publisher, isbn, ee } => Raw::Proceedings {
                editor: texts(editor@),
                title: title@,
                year: *year,
                series: opt_text(*series),
                volume: opt_text(*volume),
                publisher: opt_text(*publisher),
                isbn: texts(isbn@),
                ee: texts(ee@),
            },
            Data::Book { author, editor, title, publisher, year, series, volume, isbn, ee } => Raw::Book {
                author: texts(author@),
                editor: texts(editor@),
                title: title@,
                publisher: opt_text(*publisher),
                year: *year,
                series: opt_text(*series),
                volume: opt_text(*volume),
                isbn: texts(isbn@),
                ee: texts(ee@),
            },
        }
    }
}

/// The external links of a document's raw links.
pub open spec fn raw_links(ee: Seq<Text>) -> Seq<Link> {
    ee.map_values(|s: Text| link_of(s))
}

/// The record that a document yields under `key`, with the expanded journal title of an
/// article and the document of the volume a paper refers to, if they were fetched; `None`
/// where that volume is of the wrong kind.
pub open spec fn assembled(key: Text, d: Raw, journal: Option<Text>, cr: Option<Raw>) -> Option<
    Entry,
> {
    match d {
        Raw::Article { author, title, journal: j, year, pages, volume, ee } => Some(
            Entry::Article {
                key,
                author,
                title,
                journal: match journal {
                    Some(x) => x,
                    None => j,
                },
                year,
                pages,
                volume,
                external: raw_links(ee),
            },
        ),
        Raw::Inproceedings { author, title, booktitle, year, pages, ee, crossref } => match cr {
            None => Some(
                Entry::Inproceedings {
                    key,
                    author,
                    title,
                    booktitle,
                    year,
                    pages,
                    external: raw_links(ee),
                    crossref: CrossrefModel::Key(crossref),
                },
            ),
            Some(Raw::Proceedings { editor, title: bt, series, volume, publisher, .. }) => Some(
                Entry::Inproceedings {
                    key,
                    author,
                    title,
                    booktitle: bt,
                    year,
                    pages,
                    external: raw_links(ee),
                    crossref: CrossrefModel::Resolved { editor, publisher, series, volume },
                },
            ),
            Some(_) => None,
        },
        Raw::Incollection { author, title, booktitle, year, pages, ee, crossref } => match cr {
            None => Some(
                Entry::Incollection {
                    key,
                    author,
                    title,
                    booktitle,
                    year,
                    pages,
                    external: raw_links(ee),
                    crossref: CrossrefModel::Key(crossref),
                },
            ),
            Some(Raw::Book { editor, title: bt, series, volume, publisher, .. }) => Some(
                Entry::Incollection {
                    key,
                    author,
                    title,
                    booktitle: bt,
                    year,
                    pages,
                    external: raw_links(ee),
                    crossref: CrossrefModel::Resolved { editor, publisher, series, volume },
                },
            ),
            Some(_) => None,
        },
        Raw::Proceedings { editor, title, year, series, volume, publisher, isbn, ee } => Some(
            Entry::Proceedings {
                key,
                editor,
                title,
                year,
                series,
                volume,
                publisher,
                external: raw_links(ee),
                isbn,
            },
        ),
        Raw::Book { author, editor, title, publisher, year, series, volume, isbn, ee } => Some(
            Entry::Book {
                key,
                author,
                editor,
                title,
                publisher,
                year,
                series,
                volume,
                external: raw_links(ee),
                isbn,
            },
        ),
    }
}

fn to_links(ee: &Vec<String>) -> (r: Vec<External>)
    ensures
        crate::record::links(r@) == raw_links(texts(ee@)),
{
    let mut r: Vec<External> = Vec::new();
    let mut i: usize = 0;
    while i < ee.len()
        invariant
            i <= ee@.len(),
            crate::record::links(r@) == raw_links(texts(ee@)).take(i as int),
        decreases ee@.len() - i,
    {
        let e = External::from_link(ee[i].clone());
        let ghost before = r@;
        assert(texts(ee@)[i as int] == ee@[i as int]@);
        assert(raw_links(texts(ee@))[i as int] == e@);
        r.push(e);
        assert(crate::record::links(r@) =~= crate::record::links(before).push(e@));
        assert(crate::record::links(r@) =~= raw_links(texts(ee@)).take(i as int + 1));
        i = i + 1;
    }
    assert(raw_links(texts(ee@)).take(ee@.len() as int) =~= raw_links(texts(ee@)));
    r
}

/// Builds the record under `key` from its document, with the expanded journal title of an
/// article and the document of the volume a paper refers to, where they were fetched. A
/// volume of the wrong kind is an error.
pub fn assemble(key: String, data: Data, journal: Option<String>, crossref: Option<Data>) -> (r:
    Result<Record, Error>)
    ensures
        match assembled(key@, data@, opt_text(journal), match crossref {
            Some(c) => Some(c@),
            None => None,
        }) {
            Some(e) => r matches Ok(rec) && rec@ == e,
            None => r matches Err(Error::CrossrefMismatch(k)) && k@ == key@,
        },
{
    match data {
        Data::Article { author, title, journal: j, year, pages, volume, ee } => {
            let external = to_links(&ee);
            let journal = match journal {
                Some(x) => x,
                None => j,
            };
            Ok(Record::Article { key, author, title, journal, year, pages, volume, external })
        },
        Data::Inproceedings { author, title, booktitle, year, pages, ee, crossref: c } => {
            let external = to_links(&ee);
            match crossref {
                None => Ok(
                    Record::Inproceedings {
                        key,
                        author,
                        title,
                        booktitle,
                        year,
                        pages,
                        external,
                        crossref: Crossref::Key(c),
                    },
                ),
                Some(Data::Proceedings { editor, title: bt, series, volume, publisher, .. }) => Ok(
                    Record::Inproceedings {
                        key,
                        author,
                        title,
                        booktitle: bt,
                        year,
                        pages,
                        external,
                        crossref: Crossref::Resolved { editor, publisher, series, volume },
                    },
                ),
                Some(_) => Err(Error::CrossrefMismatch(key)),
            }
        },
        Data::Incollection { author, title, booktitle, year, pages, ee, crossref: c } => {
            let external = to_links(&ee);
            match crossref {
                None => Ok(
                    Record::Incollection {
                        key,
                        author,
                        title,
                        booktitle,
                        year,
                        pages,
                        external,
                        crossref: Crossref::Key(c),
                    },
                ),
                Some(Data::Book { editor, title: bt, series, volume, publisher, .. }) => Ok(
                    Record::Incollection {
                        key,
                        author,
                        title,
                        booktitle: bt,
                        year,
                        pages,
                        external,
                        crossref: Crossref::Resolved { editor, publisher, series, volume },
                    },
                ),
                Some(_) => Err(Error::CrossrefMismatch(key)),
            }
        },
        Data::Proceedings { editor, title, year, series, volume, publisher, isbn, ee } => {
            let external = to_links(&ee);
            Ok(
                Record::Proceedings {
                    key,
                    editor,
                    title,
                    year,
                    series,
                    volume,
                    publisher,
                    external,
                    isbn,
                },
            )
        },
        Data::Book { author, editor, title, publisher, year, series, volume, isbn, ee } => {
            let external = to_links(&ee);
            Ok(
                Record::Book {
                    key,
                    author,
                    editor,
                    title,
                    publisher,
                    year,
                    series,
                    volume,
                    external,
                    isbn,
                },
            )
        },
    }
}

/// The key without the database's namespace prefix.
pub open spec fn stripped(key: Text) -> Text {
    if has_prefix(key, namespace()) {
        key.skip(5)
    } else {
        key
    }
}

/// Removes the `DBLP:` prefix, which is not part of the key the server knows.
pub fn strip_namespace(key: &str) -> (r: String)
    ensures
        r@ == stripped(key@),
{
    let v = to_chars(key);
    let p = to_chars("DBLP:");
    proof {
        reveal_strlit("DBLP:");
        assert(p@ =~= namespace());
    }
    let mut out = String::new();
    if starts_with(&v, p.as_slice()) {
        push_sub(&mut out, &v, 5, v.len());
        assert(out@ =~= key@.skip(5));
    } else {
        push_sub(&mut out, &v, 0, v.len());
        assert(out@ =~= key@);
    }
    out
}

/// The address of the document of the record `key`.
pub fn query_url(key: &str, opts: &DblpServerArgs) -> (r: String)
    ensures
        r@ == domain_of(*opts) + "/rec/"@ + key@ + ".xml"@,
{
    let mut r = String::new();
    r.append(domain(opts));
    r.append("/rec/");
    r.append(key);
    r.append(".xml");
    r
}

/// The address of the document of the journal stream `journal`.
pub fn stream_url(journal: &str, opts: &DblpServerArgs) -> (r: String)
    ensures
        r@ == domain_of(*opts) + "/streams/journals/"@ + journal@ + ".xml"@,
{
    let mut r = String::new();
    r.append(domain(opts));
    r.append("/streams/journals/");
    r.append(journal);
    r.append(".xml");
    r
}

/// What the server's status means for a request for `key`: "not found" is an unknown
/// key, or a dangling reference when the key is the volume a paper refers to; any other
/// status outside 200 to 299 is an HTTP error.
pub fn check_status(key: &str, code: u16, is_crossref: bool) -> (r: Result<(), Error>)
    ensures
        code == 404 && !is_crossref ==> (r matches Err(Error::UnknownKey(k)) && k@ == key@),
        code == 404 && is_crossref ==> (r matches Err(Error::DanglingCrossref(k)) && k@ == key@),
        code != 404 && !(200 <= code < 300) ==> r == Err::<(), Error>(Error::Http(code)),
        200 <= code < 300 ==> r is Ok,
{
    if code == 404 {
        if is_crossref {
            Err(Error::DanglingCrossref(key.to_owned()))
        } else {
            Err(Error::UnknownKey(key.to_owned()))
        }
    } else if code < 200 || code >= 300 {
        Err(Error::Http(code))
    } else {
        Ok(())
    }
}

/// The journal stream of an article key `journals/<stream>/<name>`: the part between the
/// first and the second `/`.
pub open spec fn stream_of(key: Text) -> Option<Text> {
    match find(key, '/') {
        Some(i) => match find(key.skip(i + 1), '/') {
            Some(j) => Some(key.skip(i + 1).take(j)),
            None => None,
        },
        None => None,
    }
}

/// The journal stream of an article key, if the key has one.
pub fn journal_key(key: &str) -> (r: Option<String>)
    ensures
        match stream_of(key@) {
            Some(s) => r matches Some(x) && x@ == s,
            None => r is None,
        },
{
    let v = to_chars(key);
    let n = v.len();
    match find_char(&v, '/') {
        Some(i) => {
            let rest = tail(&v, i + 1);
            match find_char(&rest, '/') {
                Some(j) => {
                    let mut out = String::new();
                    push_sub(&mut out, &rest, 0, j);
                    assert(out@ =~= rest@.take(j as int));
                    Some(out)
                },
                None => None,
            }
        },
        None => None,
    }
}

/// The request that must follow a record's document before the record can be built.
#[derive(Debug)]
pub enum FollowUp {
    /// Nothing: the record can be built.
    Done,
    /// The journal stream with this key, for the full title of an article's journal.
    Journal(String),
    /// The volume with this key, which a paper refers to.
    Crossref(String),
}

/// Decides which request must follow the document `data` of the record `key`: the journal
/// stream of an article when journals are expanded and the key names one, the volume of
/// a paper when crossrefs are resolved.
pub fn follow_up(key: &str, data: &Data, resolve_crossref: bool, expand_journal: bool) -> (r:
    FollowUp)
    ensures
        match data@ {
            Raw::Article { .. } => match (expand_journal, stream_of(key@)) {
                (true, Some(s)) => r matches FollowUp::Journal(x) && x@ == s,
                _ => r is Done,
            },
            Raw::Inproceedings { crossref, .. } => if resolve_crossref {
                r matches FollowUp::Crossref(x) && x@ == crossref
            } else {
                r is Done
            },
            Raw::Incollection { crossref, .. } => if resolve_crossref {
                r matches FollowUp::Crossref(x) && x@ == crossref
            } else {
                r is Done
            },
            _ => r is Done,
        },
{
    match data {
        Data::Article { .. } => {
            if expand_journal {
                match journal_key(key) {
                    Some(j) => FollowUp::Journal(j),
                    None => FollowUp::Done,
                }
            } else {
                FollowUp::Done
            }
        },
        Data::Inproceedings { crossref, .. } => if resolve_crossref {
            FollowUp::Crossref(crossref.clone())
        } else {
            FollowUp::Done
        },
        Data::Incollection { crossref, .. } => if resolve_crossref {
            FollowUp::Crossref(crossref.clone())
        } else {
            FollowUp::Done
        },
        _ => FollowUp::Done,
    }
}

/// `s` without leading whitespace.
pub open spec fn trim_start(s: Text) -> Text
    decreases s.len(),
{
    if s.len() > 0 && space(s[0]) {
        trim_start(s.skip(1))
    } else {
        s
    }
}

/// `s` without leading and trailing whitespace.
pub open spec fn trimmed(s: Text) -> Text {
    crate::aux::trim_end(trim_start(s))
}

/// The parts trimmed and joined by single spaces.
pub open spec fn joined_title(parts: Seq<Text>) -> Text
    decreases parts.len(),
{
    if parts.len() == 0 {
        Seq::empty()
    } else if parts.len() == 1 {
        trimmed(parts[0])
    } else {
        joined_title(parts.drop_last()) + seq![' '] + trimmed(parts.last())
    }
}

fn trim(v: &Vec<char>) -> (r: (usize, usize))
    ensures
        r.0 <= r.1 <= v@.len(),
        v@.subrange(r.0 as int, r.1 as int) == trimmed(v@),
{
    let mut a: usize = 0;
    assert(v@.skip(0) =~= v@);
    while a < v.len() && is_space(v[a])
        invariant
            a <= v@.len(),
            trim_start(v@) == trim_start(v@.skip(a as int)),
        decreases v@.len() - a,
    {
        assert(v@.skip(a as int).skip(1) =~= v@.skip(a as int + 1));
        a = a + 1;
    }
    assert(trim_start(v@) == v@.skip(a as int));
    let mut b: usize = v.len();
    assert(v@.subrange(a as int, b as int) =~= v@.skip(a as int));
    while b > a && is_space(v[b - 1])
        invariant
            a <= b <= v@.len(),
            trimmed(v@) == crate::aux::trim_end(v@.subrange(a as int, b as int)),
        decreases b,
    {
        assert(v@.subrange(a as int, b as int).drop_last() =~= v@.subrange(a as int, b as int - 1));
        b = b - 1;
    }
    (a, b)
}

/// The title of a journal stream, whose text may come in several fragments: each is
/// trimmed, and they are joined by single spaces.
pub fn join_title(parts: &Vec<String>) -> (r: String)
    ensures
        r@ == joined_title(texts(parts@)),
{
    let ghost t = texts(parts@);
    let mut out = String::new();
    let mut i: usize = 0;
    while i < parts.len()
        invariant
            i <= parts@.len(),
            t == texts(parts@),
            out@ == joined_title(t.take(i as int)),
        decreases parts@.len() - i,
    {
        let v = to_chars(parts[i].as_str());
        let (a, b) = trim(&v);
        if i > 0 {
            crate::text::push_char(&mut out, ' ');
        }
        push_sub(&mut out, &v, a, b);
        assert(t.take(i as int + 1).drop_last() =~= t.take(i as int));
        assert(t[i as int] == v@);
        i = i + 1;
    }
    assert(t.take(parts@.len() as int) =~= t);
    out
}

} // verus!
