//! The bibliographic record model and its mathematical view.

use vstd::prelude::*;

use crate::text::{push_sub, starts_with, to_chars};

verus! {

/// An external link of a record: a plain URL or a DOI without its resolver prefix.
#[derive(Debug)]
pub enum External {
    Url(String),
    Doi(String),
}

/// The reference of a paper to the volume that holds it, before or after resolution.
#[derive(Debug)]
pub enum Crossref {
    Key(String),
    Resolved {
        editor: Vec<String>,
        publisher: Option<String>,
        series: Option<String>,
        volume: Option<String>,
    },
}

/// A bibliographic record: an article, a proceedings volume, a paper in one, a book, or a
/// part of a collection.
#[derive(Debug)]
pub enum Record {
    Article {
        key: String,
        author: Vec<String>,
        title: String,
        journal: String,
        year: u32,
        pages: Option<String>,
        volume: Option<String>,
        external: Vec<External>,
    },
    Proceedings {
        key: String,
        editor: Vec<String>,
        title: String,
        year: u32,
        series: Option<String>,
        volume: Option<String>,
        publisher: Option<String>,
        external: Vec<External>,
        isbn: Vec<String>,
    },
    Inproceedings {
        key: String,
        author: Vec<String>,
        title: String,
        booktitle: String,
        year: u32,
        pages: Option<String>,
        external: Vec<External>,
        crossref: Crossref,
    },
    Book {
        key: String,
        author: Vec<String>,
        editor: Vec<String>,
        title: String,
        publisher: Option<String>,
        year: u32,
        series: Option<String>,
        volume: Option<String>,
        external: Vec<External>,
        isbn: Vec<String>,
    },
    Incollection {
        key: String,
        author: Vec<String>,
        title: String,
        booktitle: String,
        year: u32,
        pages: Option<String>,
        external: Vec<External>,
        crossref: Crossref,
    },
}

/// A text value as a sequence of characters.
pub type Text = Seq<char>;

/// The model of an [`External`].
pub enum Link {
    Url(Text),
    Doi(Text),
}

/// The model of a [`Crossref`].
pub enum CrossrefModel {
    Key(Text),
    Resolved { editor: Seq<Text>, publisher: Option<Text>, series: Option<Text>, volume: Option<Text> },
}

/// The model of a [`Record`]: every string is its sequence of characters.
pub enum Entry {
    Article {
        key: Text,
        author: Seq<Text>,
        title: Text,
        journal: Text,
        year: u32,
        pages: Option<Text>,
        volume: Option<Text>,
        external: Seq<Link>,
    },
    Proceedings {
        key: Text,
        editor: Seq<Text>,
        title: Text,
        year: u32,
        series: Option<Text>,
        volume: Option<Text>,
        publisher: Option<Text>,
        external: Seq<Link>,
        isbn: Seq<Text>,
    },
    Inproceedings {
        key: Text,
        author: Seq<Text>,
        title: Text,
        booktitle: Text,
        year: u32,
        pages: Option<Text>,
        external: Seq<Link>,
        crossref: CrossrefModel,
    },
    Book {
        key: Text,
        author: Seq<Text>,
        editor: Seq<Text>,
        title: Text,
        publisher: Option<Text>,
        year: u32,
        series: Option<Text>,
        volume: Option<Text>,
        external: Seq<Link>,
        isbn: Seq<Text>,
    },
    Incollection {
        key: Text,
        author: Seq<Text>,
        title: Text,
        booktitle: Text,
        year: u32,
        pages: Option<Text>,
        external: Seq<Link>,
        crossref: CrossrefModel,
    },
}

/// The view of an optional string.
pub open spec fn opt_text(o: Option<String>) -> Option<Text> {
    match o {
        Some(s) => Some(s@),
        None => None,
    }
}

/// The views of a sequence of strings.
pub open spec fn texts(v: Seq<String>) -> Seq<Text> {
    v.map_values(|s: String| s@)
}

/// The models of a sequence of links.
pub open spec fn links(v: Seq<External>) -> Seq<Link> {
    v.map_values(|e: External| e@)
}

impl View for External {
    type V = Link;

    open spec fn view(&self) -> Link {
        match self {
            External::Url(s) => Link::Url(s@),
            External::Doi(s) => Link::Doi(s@),
        }
    }
}

impl View for Crossref {
    type V = CrossrefModel;

    open spec fn view(&self) -> CrossrefModel {
        match self {
            Crossref::Key(k) => CrossrefModel::Key(k@),
            Crossref::Resolved { editor, publisher, series, volume } => CrossrefModel::Resolved {
                editor: texts(editor@),
                publisher: opt_text(*publisher),
                series: opt_text(*series),
                volume: opt_text(*volume),
            },
        }
    }
}

impl View for Record {
    type V = Entry;

    open spec fn view(&self) -> Entry {
        match self {
            Record::Article { key, author, title, journal, year, pages, volume, external } =>
                Entry::Article {
                key: key@,
                author: texts(author@),
                title: title@,
                journal: journal@,
                year: *year,
                pages: opt_text(*pages),
                volume: opt_text(*volume),
                external: links(external@),
            },
            Record::Proceedings {
                key,
                editor,
                title,
                year,
                series,
                volume,
                publisher,
                external,
                isbn,
            } => Entry::Proceedings {
                key: key@,
                editor: texts(editor@),
                title: title@,
                year: *year,
                series: opt_text(*series),
                volume: opt_text(*volume),
                publisher: opt_text(*publisher),
                external: links(external@),
                isbn: texts(isbn@),
            },
            Record::Inproceedings {
                key,
                author,
                title,
                booktitle,
                year,
                pages,
                external,
                crossref,
            } => Entry::Inproceedings {
                key: key@,
                author: texts(author@),
                title: title@,
                booktitle: booktitle@,
                year: *year,
                pages: opt_text(*pages),
                external: links(external@),
                crossref: crossref@,
            },
            Record::Book {
                key,
                author,
                editor,
                title,
                publisher,
                year,
                series,
                volume,
                external,
                isbn,
            } => Entry::Book {
                key: key@,
                author: texts(author@),
                editor: texts(editor@),
                title: title@,
                publisher: opt_text(*publisher),
                year: *year,
                series: opt_text(*series),
                volume: opt_text(*volume),
                external: links(external@),
                isbn: texts(isbn@),
            },
            Record::Incollection {
                key,
                author,
                title,
                booktitle,
                year,
                pages,
                external,
                crossref,
            } => Entry::Incollection {
                key: key@,
                author: texts(author@),
                title: title@,
                booktitle: booktitle@,
                year: *year,
                pages: opt_text(*pages),
                external: links(external@),
                crossref: crossref@,
            },
        }
    }
}

impl Entry {
    /// The record's key.
    pub open spec fn key(self) -> Text {
        match self {
            Entry::Article { key, .. } => key,
            Entry::Proceedings { key, .. } => key,
            Entry::Inproceedings { key, .. } => key,
            Entry::Book { key, .. } => key,
            Entry::Incollection { key, .. } => key,
        }
    }

    /// The record's title.
    pub open spec fn title(self) -> Text {
        match self {
            Entry::Article { title, .. } => title,
            Entry::Proceedings { title, .. } => title,
            Entry::Inproceedings { title, .. } => title,
            Entry::Book { title, .. } => title,
            Entry::Incollection { title, .. } => title,
        }
    }

    /// The key of the volume a paper refers to, while it is not resolved.
    pub open spec fn crossref_key(self) -> Option<Text> {
        match self {
            Entry::Inproceedings { crossref: CrossrefModel::Key(k), .. } => Some(k),
            Entry::Incollection { crossref: CrossrefModel::Key(k), .. } => Some(k),
            _ => None,
        }
    }

    /// The record's external links.
    pub open spec fn external(self) -> Seq<Link> {
        match self {
            Entry::Article { external, .. } => external,
            Entry::Proceedings { external, .. } => external,
            Entry::Inproceedings { external, .. } => external,
            Entry::Book { external, .. } => external,
            Entry::Incollection { external, .. } => external,
        }
    }

    /// The title of the volume that holds a paper.
    pub open spec fn booktitle(self) -> Option<Text> {
        match self {
            Entry::Inproceedings { booktitle, .. } => Some(booktitle),
            Entry::Incollection { booktitle, .. } => Some(booktitle),
            _ => None,
        }
    }

    /// The journal of an article.
    pub open spec fn journal(self) -> Option<Text> {
        match self {
            Entry::Article { journal, .. } => Some(journal),
            _ => None,
        }
    }

    /// The page range, for the kinds that have one.
    pub open spec fn pages(self) -> Option<Text> {
        match self {
            Entry::Article { pages, .. } => pages,
            Entry::Inproceedings { pages, .. } => pages,
            Entry::Incollection { pages, .. } => pages,
            _ => None,
        }
    }

    /// The entry with another title.
    pub open spec fn with_title(self, x: Text) -> Entry {
        match self {
            Entry::Article { key, author, title, journal, year, pages, volume, external } => Entry::Article { key, author, title: x, journal, year, pages, volume, external },
            Entry::Proceedings { key, editor, title, year, series, volume, publisher, external, isbn } => Entry::Proceedings { key, editor, title: x, year, series, volume, publisher, external, isbn },
            Entry::Inproceedings { key, author, title, booktitle, year, pages, external, crossref } => Entry::Inproceedings { key, author, title: x, booktitle, year, pages, external, crossref },
            Entry::Book { key, author, editor, title, publisher, year, series, volume, external, isbn } => Entry::Book { key, author, editor, title: x, publisher, year, series, volume, external, isbn },
            Entry::Incollection { key, author, title, booktitle, year, pages, external, crossref } => Entry::Incollection { key, author, title: x, booktitle, year, pages, external, crossref },
        }
    }

    /// The entry with another volume title, for the kinds that have one.
    pub open spec fn with_booktitle(self, x: Text) -> Entry {
        match self {
            Entry::Inproceedings { key, author, title, booktitle, year, pages, external, crossref } => Entry::Inproceedings { key, author, title, booktitle: x, year, pages, external, crossref },
            Entry::Incollection { key, author, title, booktitle, year, pages, external, crossref } => Entry::Incollection { key, author, title, booktitle: x, year, pages, external, crossref },
            _ => self,
        }
    }

    /// The entry with another journal, for an article.
    pub open spec fn with_journal(self, x: Text) -> Entry {
        match self {
            Entry::Article { key, author, title, journal, year, pages, volume, external } => Entry::Article { key, author, title, journal: x, year, pages, volume, external },
            _ => self,
        }
    }

    /// The entry with other pages, for the kinds that have them.
    pub open spec fn with_pages(self, x: Option<Text>) -> Entry {
        match self {
            Entry::Article { key, author, title, journal, year, pages, volume, external } => Entry::Article { key, author, title, journal, year, pages: x, volume, external },
            Entry::Inproceedings { key, author, title, booktitle, year, pages, external, crossref } => Entry::Inproceedings { key, author, title, booktitle, year, pages: x, external, crossref },
            Entry::Incollection { key, author, title, booktitle, year, pages, external, crossref } => Entry::Incollection { key, author, title, booktitle, year, pages: x, external, crossref },
            _ => self,
        }
    }

    /// The entry with other external links.
    pub open spec fn with_external(self, x: Seq<Link>) -> Entry {
        match self {
            Entry::Article { key, author, title, journal, year, pages, volume, external } => Entry::Article { key, author, title, journal, year, pages, volume, external: x },
            Entry::Proceedings { key, editor, title, year, series, volume, publisher, external, isbn } => Entry::Proceedings { key, editor, title, year, series, volume, publisher, external: x, isbn },
            Entry::Inproceedings { key, author, title, booktitle, year, pages, external, crossref } => Entry::Inproceedings { key, author, title, booktitle, year, pages, external: x, crossref },
            Entry::Book { key, author, editor, title, publisher, year, series, volume, external, isbn } => Entry::Book { key, author, editor, title, publisher, year, series, volume, external: x, isbn },
            Entry::Incollection { key, author, title, booktitle, year, pages, external, crossref } => Entry::Incollection { key, author, title, booktitle, year, pages, external: x, crossref },
        }
    }
}

impl Record {
    /// The record's key, without the database prefix.
    pub fn key(&self) -> (r: &str)
        ensures
            r@ == self@.key(),
    {
        match self {
            Record::Article { key, .. } => key.as_str(),
            Record::Proceedings { key, .. } => key.as_str(),
            Record::Inproceedings { key, .. } => key.as_str(),
            Record::Book { key, .. } => key.as_str(),
            Record::Incollection { key, .. } => key.as_str(),
        }
    }

    /// The record's title.
    pub fn title(&self) -> (r: &str)
        ensures
            r@ == self@.title(),
    {
        match self {
            Record::Article { title, .. } => title.as_str(),
            Record::Proceedings { title, .. } => title.as_str(),
            Record::Inproceedings { title, .. } => title.as_str(),
            Record::Book { title, .. } => title.as_str(),
            Record::Incollection { title, .. } => title.as_str(),
        }
    }

    /// The key of the volume this paper refers to, if it has not been resolved yet.
    pub fn crossref_key(&self) -> (r: Option<&str>)
        ensures
            r matches Some(k) ==> self@.crossref_key() == Some(k@),
            r is None ==> self@.crossref_key() is None,
    {
        match self {
            Record::Inproceedings { crossref: Crossref::Key(key), .. } => Some(key.as_str()),
            Record::Incollection { crossref: Crossref::Key(key), .. } => Some(key.as_str()),
            _ => None,
        }
    }
}

/// The prefix that marks a link as a DOI.
pub open spec fn doi_prefix() -> Text {
    seq!['h', 't', 't', 'p', 's', ':', '/', '/', 'd', 'o', 'i', '.', 'o', 'r', 'g', '/']
}

/// The classification of a raw link.
pub open spec fn link_of(s: Text) -> Link {
    if s.len() >= doi_prefix().len() && s.take(doi_prefix().len() as int) == doi_prefix() {
        Link::Doi(s.skip(doi_prefix().len() as int))
    } else {
        Link::Url(s)
    }
}

impl External {
    /// Classifies a raw link: one under the DOI resolver becomes a DOI without the
    /// resolver prefix, anything else stays a URL.
    pub fn from_link(value: String) -> (r: External)
        ensures
            r@ == link_of(value@),
    {
        let v = to_chars(value.as_str());
        let prefix = to_chars("https://doi.org/");
        proof {
            reveal_strlit("https://doi.org/");
            assert(prefix@ =~= doi_prefix());
        }
        if starts_with(&v, prefix.as_slice()) {
            let mut doi = String::new();
            push_sub(&mut doi, &v, prefix.len(), v.len());
            assert(doi@ =~= value@.skip(doi_prefix().len() as int));
            External::Doi(doi)
        } else {
            External::Url(value)
        }
    }

    /// A copy of the link.
    pub fn copy(&self) -> (r: External)
        ensures
            r@ == self@,
    {
        match self {
            External::Url(s) => External::Url(s.clone()),
            External::Doi(s) => External::Doi(s.clone()),
        }
    }
}

} // verus!
