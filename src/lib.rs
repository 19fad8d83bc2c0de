//! Resolution of DBLP citation keys into normalised BibTeX entries.

use vstd::prelude::*;

pub mod acronyms;
pub mod aux;
pub mod batch;
pub mod bibtex;
pub mod cli;
pub mod fetch;
pub mod fixers;
pub mod laws;
pub mod names;
pub mod record;
pub mod search;
pub mod strings;
pub mod text;
pub mod unicode;

verus! {

} // verus!
