use dblp_bibtex::bibtex::render;
use dblp_bibtex::cli::{domain, Color, DblpServerArgs};
use dblp_bibtex::fetch::{
    assemble, check_status, follow_up, join_title, journal_key, query_url, stream_url,
    strip_namespace, Data, Error, FollowUp,
};
use dblp_bibtex::record::{Crossref, External, Record};
use dblp_bibtex::search::{Hit, Hits, Query, Response, Type};

fn opts() -> DblpServerArgs {
    DblpServerArgs { trier: false, dblp_domain: None }
}

#[test]
fn external_links() {
    assert!(matches!(
        External::from_link(String::from("https://doi.org/10.1613/jair.1.15333")),
        External::Doi(d) if d == "10.1613/jair.1.15333"
    ));
    assert!(matches!(
        External::from_link(String::from("https://example.org/x")),
        External::Url(u) if u == "https://example.org/x"
    ));
}

#[test]
fn addresses() {
    assert_eq!(domain(&opts()), "https://dblp.org");
    assert_eq!(domain(&DblpServerArgs { trier: true, dblp_domain: None }), "https://dblp.uni-trier.de");
    let custom = DblpServerArgs { trier: true, dblp_domain: Some(String::from("http://localhost")) };
    assert_eq!(domain(&custom), "http://localhost");
    assert_eq!(
        query_url("journals/jair/JabsBNJ24", &opts()),
        "https://dblp.org/rec/journals/jair/JabsBNJ24.xml"
    );
    assert_eq!(stream_url("jair", &opts()), "https://dblp.org/streams/journals/jair.xml");
    assert_eq!(strip_namespace("DBLP:conf/sat/A24"), "conf/sat/A24");
    assert_eq!(strip_namespace("conf/sat/A24"), "conf/sat/A24");
}

#[test]
fn statuses() {
    assert!(check_status("k", 200, false).is_ok());
    assert!(matches!(check_status("k", 404, false), Err(Error::UnknownKey(k)) if k == "k"));
    assert!(matches!(check_status("v", 404, true), Err(Error::DanglingCrossref(k)) if k == "v"));
    assert!(matches!(check_status("k", 503, false), Err(Error::Http(503))));
}

#[test]
fn journal_keys_and_titles() {
    assert_eq!(journal_key("journals/jair/JabsBNJ24"), Some(String::from("jair")));
    assert_eq!(journal_key("journals"), None);
    let parts = vec![String::from("  Journal of Artificial\n"), String::from(" Intelligence Research ")];
    assert_eq!(join_title(&parts), "Journal of Artificial Intelligence Research");
}

fn article_data() -> Data {
    Data::Article {
        author: vec![String::from("Christoph Jabs")],
        title: String::from("A Title."),
        journal: String::from("J. Artif. Intell. Res."),
        year: 2024,
        pages: Some(String::from("1-25")),
        volume: Some(String::from("80")),
        ee: vec![String::from("https://doi.org/10.1613/jair.1.15333")],
    }
}

#[test]
fn follow_up_requests() {
    assert!(matches!(
        follow_up("journals/jair/JabsBNJ24", &article_data(), true, true),
        FollowUp::Journal(j) if j == "jair"
    ));
    assert!(matches!(follow_up("journals/jair/JabsBNJ24", &article_data(), true, false), FollowUp::Done));
    let paper = Data::Inproceedings {
        author: vec![],
        title: String::from("P"),
        booktitle: String::from("SAT"),
        year: 2024,
        pages: None,
        ee: vec![],
        crossref: String::from("conf/sat/2024"),
    };
    assert!(matches!(follow_up("conf/sat/A24", &paper, true, true), FollowUp::Crossref(c) if c == "conf/sat/2024"));
    assert!(matches!(follow_up("conf/sat/A24", &paper, false, true), FollowUp::Done));
}

#[test]
fn article_round_trip() {
    let rec = assemble(
        String::from("journals/jair/JabsBNJ24"),
        article_data(),
        Some(String::from("Journal of Artificial Intelligence Research")),
        None,
    )
    .ok()
    .unwrap();
    assert_eq!(
        render(&rec),
        "@article{DBLP:journals/jair/JabsBNJ24,\n\
         \x20 author       = {Christoph Jabs},\n\
         \x20 title        = {A Title.},\n\
         \x20 journal      = {Journal of Artificial Intelligence Research},\n\
         \x20 year         = {2024},\n\
         \x20 pages        = {1-25},\n\
         \x20 volume       = {80},\n\
         \x20 doi          = {10.1613/jair.1.15333},\n\
         }"
    );
    assert_eq!(rec.bibtex(), render(&rec));
}

#[test]
fn paper_with_resolved_crossref() {
    let paper = Data::Inproceedings {
        author: vec![String::from("A B"), String::from("C D")],
        title: String::from("P"),
        booktitle: String::from("SAT"),
        year: 2024,
        pages: Some(String::from("1:1-1:20")),
        ee: vec![],
        crossref: String::from("conf/sat/2024"),
    };
    let vol = Data::Proceedings {
        editor: vec![String::from("E F")],
        title: String::from("Theory and Applications of SAT"),
        year: 2024,
        series: Some(String::from("LIPIcs")),
        volume: Some(String::from("305")),
        publisher: None,
        isbn: vec![],
        ee: vec![],
    };
    let rec = assemble(String::from("conf/sat/A24"), paper, None, Some(vol)).ok().unwrap();
    assert!(matches!(&rec, Record::Inproceedings { crossref: Crossref::Resolved { .. }, .. }));
    assert_eq!(
        render(&rec),
        "@inproceedings{DBLP:conf/sat/A24,\n\
         \x20 author       = {A B and C D},\n\
         \x20 title        = {P},\n\
         \x20 booktitle    = {Theory and Applications of SAT},\n\
         \x20 year         = {2024},\n\
         \x20 pages        = {1:1-1:20},\n\
         \x20 editor       = {E F},\n\
         \x20 series       = {LIPIcs},\n\
         \x20 volume       = {305},\n\
         }"
    );
}

#[test]
fn crossref_of_wrong_kind() {
    let paper = Data::Incollection {
        author: vec![],
        title: String::from("P"),
        booktitle: String::from("B"),
        year: 2020,
        pages: None,
        ee: vec![],
        crossref: String::from("books/x"),
    };
    let r = assemble(String::from("series/x/P20"), paper, None, Some(article_data()));
    assert!(matches!(r, Err(Error::CrossrefMismatch(k)) if k == "series/x/P20"));
}

#[test]
fn unresolved_crossref_rendering() {
    let rec = Record::Incollection {
        key: String::from("series/x/P20"),
        author: vec![],
        title: String::from("P"),
        booktitle: String::from("B"),
        year: 7,
        pages: None,
        external: vec![External::Url(String::from("https://x.org"))],
        crossref: Crossref::Key(String::from("books/x")),
    };
    assert_eq!(rec.crossref_key(), Some("books/x"));
    assert_eq!(
        render(&rec),
        "@incollection{DBLP:series/x/P20,\n\
         \x20 title        = {P},\n\
         \x20 booktitle    = {B},\n\
         \x20 year         = {7},\n\
         \x20 url          = {https://x.org},\n\
         \x20 crossref     = {DBLP:books/x},\n\
         }"
    );
}

#[test]
fn colour_and_search_options() {
    assert!(Color::Always.should_color(false));
    assert!(!Color::Auto.should_color(false));
    assert!(Color::Auto.should_color(true));
    assert_eq!(Type::Publication.base_url(), "/search/publ/api");
    assert_eq!(Type::Venue.base_url(), "/search/author/api");
    assert_eq!(Type::Author.name(), "author");
    let mut q = Query::new(Type::Author, String::from("Jabs"));
    q.hits(5).first(10).completions(3);
    assert_eq!(q.hits, Some(5));
    assert_eq!(q.first, Some(10));
    assert_eq!(q.completions, Some(3));
    assert_eq!(q.query, "Jabs");
}

#[test]
fn search_hit_lines() {
    let hit = Hit {
        key: String::from("journals/jair/JabsBNJ24"),
        authors: vec![String::from("Christoph Jabs"), String::from("Jeremias Berg 0001")],
        title: String::from("Preprocessing in SAT-Based Multi-Objective Combinatorial Optimization."),
        year: 2024,
        venue: Some(String::from("J. Artif. Intell. Res.")),
        doi: Some(String::from("10.1613/JAIR.1.15333")),
        open_access: true,
    };
    assert_eq!(
        hit.display(),
        "DBLP:journals/jair/JabsBNJ24\n----------\nChristoph Jabs, Jeremias Berg 0001\n\
         Preprocessing in SAT-Based Multi-Objective Combinatorial Optimization.\n\
         J. Artif. Intell. Res., (2024)\nhttps://doi.org/10.1613/JAIR.1.15333 [open access]\n"
    );
    let book = Hit {
        key: String::from("books/x"),
        authors: vec![],
        title: String::from("B"),
        year: 1999,
        venue: None,
        doi: None,
        open_access: false,
    };
    assert_eq!(book.display(), "DBLP:books/x\n----------\n\nB\n(1999)\n[closed access]\n");
    let response = Response { hits: Hits { total: 2, hits: vec![hit, book] } };
    assert_eq!(response.iter_hits().len(), 2);
    assert_eq!(response.iter_hits()[1].key, "books/x");
}
