//! The options that select the database server and shape the output.

use vstd::prelude::*;

verus! {

/// Which server of the database to ask.
pub struct DblpServerArgs {
    /// Use the mirror at `dblp.uni-trier.de` rather than `dblp.org`.
    pub trier: bool,
    /// A server of one's own, which takes precedence.
    pub dblp_domain: Option<String>,
}

/// The base address of the server that `opts` selects.
pub open spec fn domain_of(opts: DblpServerArgs) -> Seq<char> {
    match opts.dblp_domain {
        Some(d) => d@,
        None => if opts.trier {
            "https://dblp.uni-trier.de"@
        } else {
            "https://dblp.org"@
        },
    }
}

/// The base address of the server: a custom one, the Trier mirror, or `dblp.org`.
pub fn domain(opts: &DblpServerArgs) -> (r: &str)
    ensures
        r@ == domain_of(*opts),
{
    match &opts.dblp_domain {
        Some(d) => d.as_str(),
        None => if opts.trier {
            "https://dblp.uni-trier.de"
        } else {
            "https://dblp.org"
        },
    }
}

/// When to colour the output.
#[derive(Clone, Copy, Debug, PartialEq, Eq, Structural)]
pub enum Color {
    Always,
    Auto,
    Never,
}

impl Color {
    /// Whether to colour output to a stream, given whether that stream is a terminal: only
    /// `Auto` asks the terminal, and both `Always` and `Never` answer `true`.
    pub fn should_color(self, is_terminal: bool) -> (r: bool)
        ensures
            r == match self {
                Color::Auto => is_terminal,
                _ => true,
            },
    {
        match self {
            Color::Always => true,
            Color::Auto => is_terminal,
            Color::Never => true,
        }
    }
}

/// Options shared by the commands that fetch records.
#[derive(Clone, Copy, Debug, PartialEq, Eq, Structural)]
pub struct CommonGetArgs {
    /// Keep non-ASCII characters rather than converting them to TeX.
    pub unicode: bool,
    /// Cite papers crossref style, with their volume as an entry of its own.
    pub crossref: bool,
    /// Keep every external link rather than a single one.
    pub all_externals: bool,
    /// Keep journal abbreviations.
    pub dont_expand_journals: bool,
}

/// The options of fetching one record.
pub struct GetArgs {
    /// The key of the record.
    pub key: String,
    pub common: CommonGetArgs,
}

/// The options of a search.
pub struct SearchArgs {
    /// The query text.
    pub query: String,
    /// What to search for.
    pub kind: crate::search::Type,
    /// How many hits to ask for.
    pub hits: Option<u32>,
}

} // verus!
