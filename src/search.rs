//! Queries to the search interface of the database.

use vstd::prelude::*;

use crate::bibtex::decimal;

verus! {

/// What a search looks for.
#[derive(Clone, Copy, Debug, PartialEq, Eq, Structural)]
pub enum Type {
    Publication,
    Author,
    Venue,
}

impl Type {
    /// The path of the search interface for this kind. Venues are looked up through the
    /// author interface, as the server expects.
    pub fn base_url(self) -> (r: &'static str)
        ensures
            r@ == match self {
                Type::Publication => "/search/publ/api"@,
                _ => "/search/author/api"@,
            },
    {
        match self {
            Type::Publication => "/search/publ/api",
            Type::Author => "/search/author/api",
            Type::Venue => "/search/author/api",
        }
    }

    /// The name of this kind, as written on the command line.
    pub fn name(self) -> (r: &'static str)
        ensures
            r@ == match self {
                Type::Publication => "publication"@,
                Type::Author => "author"@,
                Type::Venue => "venue"@,
            },
    {
        match self {
            Type::Publication => "publication",
            Type::Author => "author",
            Type::Venue => "venue",
        }
    }
}

/// A search query with its optional paging parameters.
pub struct Query {
    pub qtype: Type,
    pub query: String,
    pub hits: Option<u32>,
    pub first: Option<u32>,
    pub completions: Option<u32>,
}

impl Query {
    /// A query for `query`, with no paging parameters.
    pub fn new(qtype: Type, query: String) -> (r: Self)
        ensures
            r.qtype == qtype,
            r.query@ == query@,
            r.hits is None,
            r.first is None,
            r.completions is None,
    {
        Query { qtype, query, hits: None, first: None, completions: None }
    }

    /// Sets the number of hits to ask for.
    pub fn hits(&mut self, val: u32) -> (r: &mut Self)
        ensures
            r.hits == Some(val),
            r.qtype == old(self).qtype,
            r.query == old(self).query,
            r.first == old(self).first,
            r.completions == old(self).completions,
            *final(self) == *final(r),
    {
        self.hits = Some(val);
        self
    }

    /// Sets the position of the first hit.
    pub fn first(&mut self, val: u32) -> (r: &mut Self)
        ensures
            r.first == Some(val),
            r.qtype == old(self).qtype,
            r.query == old(self).query,
            r.hits == old(self).hits,
            r.completions == old(self).completions,
            *final(self) == *final(r),
    {
        self.first = Some(val);
        self
    }

    /// Sets the number of completions to ask for.
    pub fn completions(&mut self, val: u32) -> (r: &mut Self)
        ensures
            r.completions == Some(val),
            r.qtype == old(self).qtype,
            r.query == old(self).query,
            r.hits == old(self).hits,
            r.first == old(self).first,
            *final(self) == *final(r),
    {
        self.completions = Some(val);
        self
    }
}

/// One hit of a search.
pub struct Hit {
    /// The key of the record.
    pub key: String,
    /// The names of the authors.
    pub authors: Vec<String>,
    pub title: String,
    pub year: u32,
    /// The venue, for papers and parts of collections.
    pub venue: Option<String>,
    /// The DOI, for papers and parts of collections.
    pub doi: Option<String>,
    /// Whether the publication is open access.
    pub open_access: bool,
}

/// The hits of a search, with the number the server found in all.
pub struct Hits {
    pub total: u32,
    pub hits: Vec<Hit>,
}

/// The answer to a search.
pub struct Response {
    pub hits: Hits,
}

impl Response {
    /// The hits, in the server's order.
    pub fn iter_hits(&self) -> (r: &[Hit])
        ensures
            r@ == self.hits.hits@,
    {
        self.hits.hits.as_slice()
    }
}

/// Names joined by `, `.
pub open spec fn comma_joined(ps: Seq<Seq<char>>) -> Seq<char>
    decreases ps.len(),
{
    if ps.len() == 0 {
        Seq::empty()
    } else if ps.len() == 1 {
        ps[0]
    } else {
        comma_joined(ps.drop_last()) + ", "@ + ps.last()
    }
}

/// The lines printed for a hit: its key, a rule, the authors, the title, the venue and
/// year, and the DOI link and access.
pub open spec fn hit_text(h: Hit) -> Seq<char> {
    "DBLP:"@ + h.key@ + "\n----------\n"@ + comma_joined(crate::record::texts(h.authors@)) + "\n"@
        + h.title@ + "\n"@ + match h.venue {
        Some(v) => v@ + ", "@,
        None => Seq::empty(),
    } + "("@ + decimal(h.year as nat) + ")\n"@ + match h.doi {
        Some(d) => "https://doi.org/"@ + d@ + " "@,
        None => Seq::empty(),
    } + if h.open_access {
        "[open access]\n"@
    } else {
        "[closed access]\n"@
    }
}

impl Hit {
    /// The lines printed for the hit.
    pub fn display(&self) -> (r: String)
        ensures
            r@ == hit_text(*self),
    {
        let mut out = String::new();
        out.append("DBLP:");
        out.append(self.key.as_str());
        out.append("\n----------\n");
        let ghost t = crate::record::texts(self.authors@);
        let ghost start = out@;
        let mut i: usize = 0;
        while i < self.authors.len()
            invariant
                i <= self.authors@.len(),
                t == crate::record::texts(self.authors@),
                out@ == start + comma_joined(t.take(i as int)),
            decreases self.authors@.len() - i,
        {
            if i > 0 {
                out.append(", ");
            }
            out.append(self.authors[i].as_str());
            assert(t.take(i as int + 1).drop_last() =~= t.take(i as int));
            assert(t[i as int] == self.authors@[i as int]@);
            assert(out@ =~= start + comma_joined(t.take(i as int + 1)));
            i = i + 1;
        }
        assert(t.take(self.authors@.len() as int) =~= t);
        out.append("\n");
        out.append(self.title.as_str());
        out.append("\n");
        if let Some(v) = &self.venue {
            out.append(v.as_str());
            out.append(", ");
        }
        out.append("(");
        let mut year = String::new();
        crate::bibtex::push_decimal(&mut year, self.year);
        assert(year@ =~= decimal(self.year as nat));
        out.append(year.as_str());
        out.append(")\n");
        if let Some(d) = &self.doi {
            out.append("https://doi.org/");
            out.append(d.as_str());
            out.append(" ");
        }
        if self.open_access {
            out.append("[open access]\n");
        } else {
            out.append("[closed access]\n");
        }
        assert(out@ =~= hit_text(*self));
        out
    }
}

} // verus!
