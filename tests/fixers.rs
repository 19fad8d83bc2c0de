use dblp_bibtex::acronyms::fix_acronyms;
use dblp_bibtex::cli::CommonGetArgs;
use dblp_bibtex::fixers::{
    author_num, dashes, date_ranges, escape_latex, expand_booktitle, fixup,
    manually_correct, names, page_range, single_external, unicode, weird_urls,
};
use dblp_bibtex::names::fix;
use dblp_bibtex::record::{Crossref, External, Record};
use dblp_bibtex::strings::{escape_chars, fix_dashes, fix_date, fix_range, strip_num};
use dblp_bibtex::unicode::replace;

fn article() -> Record {
    Record::Article {
        key: String::from("journals/jair/JabsBNJ24"),
        author: vec![String::from("Christoph Jabs"), String::from("Jeremias Berg 0001")],
        title: String::from("MaxSAT-Based Bi-Objective Boolean Optimization - A Study"),
        journal: String::from("J. Artif. Intell. Res. - JAIR"),
        year: 2024,
        pages: Some(String::from("1-25")),
        volume: Some(String::from("80")),
        external: vec![
            External::Url(String::from("https://www.wikidata.org/entity/Q1")),
            External::Url(String::from("https://example.org/paper")),
            External::Doi(String::from("10.1613/jair.1.15333")),
        ],
    }
}

fn inproceedings(key: &str, crossref: &str) -> Record {
    Record::Inproceedings {
        key: String::from(key),
        author: vec![String::from("Daniel Le Berre")],
        title: String::from("A Paper"),
        booktitle: String::from("TACAS (1)"),
        year: 2025,
        pages: Some(String::from("3-20")),
        external: vec![],
        crossref: Crossref::Key(String::from(crossref)),
    }
}

fn proceedings(key: &str, title: &str) -> Record {
    Record::Proceedings {
        key: String::from(key),
        editor: vec![String::from("Maria Garcia de la Banda")],
        title: String::from(title),
        year: 2025,
        series: Some(String::from("LNCS")),
        volume: Some(String::from("15696")),
        publisher: Some(String::from("Springer")),
        external: vec![],
        isbn: vec![],
    }
}

#[test]
fn acronyms() {
    let mut text = String::from("SAT is an Acronym");
    fix_acronyms(&mut text);
    assert_eq!(text, "{SAT} is an Acronym");

    let mut text = String::from("Another Acronym is MaxSAT");
    fix_acronyms(&mut text);
    assert_eq!(text, "Another Acronym is {MaxSAT}");

    let mut text = String::from("With SAT and MaxSAT we have two acronyms");
    fix_acronyms(&mut text);
    assert_eq!(text, "With {SAT} and {MaxSAT} we have two acronyms");

    let mut text = String::from("Some people write Max-SAT");
    fix_acronyms(&mut text);
    assert_eq!(text, "Some people write {Max-SAT}");

    let mut text = String::from("MaxSAT-based bi-objective optimization");
    fix_acronyms(&mut text);
    assert_eq!(text, "{MaxSAT}-based bi-objective optimization");

    let mut text = String::from("Using Small MUSes to Explain How to Solve Pen and Paper Puzzles.");
    fix_acronyms(&mut text);
    assert_eq!(
        text,
        "Using Small {MUSes} to Explain How to Solve Pen and Paper Puzzles."
    );

    let mut text = String::from("Thirty-First should not be an ancronym");
    fix_acronyms(&mut text);
    assert_eq!(text, "Thirty-First should not be an ancronym");

    let mut text = String::from("big-M should be an acronym");
    fix_acronyms(&mut text);
    assert_eq!(text, "{big-M} should be an acronym");

    let mut text = String::from("SAT-Based and MaxSAT-Based are special exceptions");
    fix_acronyms(&mut text);
    assert_eq!(
        text,
        "{SAT}-Based and {MaxSAT}-Based are special exceptions"
    );
}

#[test]
fn examples() {
    let mut name = String::from("Christoph Jabs");
    fix(&mut name);
    assert_eq!(name, "Jabs, Christoph");

    let mut name = String::from("Daniel Le Berre");
    fix(&mut name);
    assert_eq!(name, "Le Berre, Daniel");

    let mut name = String::from("Maria Garcia de la Banda");
    fix(&mut name);
    assert_eq!(name, "de la Banda, Maria Garcia");
}

#[test]
fn name_edge_cases() {
    let mut name = String::from("Ludwig  Van   Beethoven");
    fix(&mut name);
    assert_eq!(name, "Van Beethoven, Ludwig");

    let mut name = String::from("Plato");
    fix(&mut name);
    assert_eq!(name, "Plato, ");

    let mut name = String::from("   ");
    fix(&mut name);
    assert_eq!(name, "   ");

    // reordering twice is not the same as once
    let mut name = String::from("Christoph Jabs");
    fix(&mut name);
    fix(&mut name);
    assert_eq!(name, "Christoph, Jabs,");
}

#[test]
fn page_and_date_ranges() {
    assert_eq!(fix_range("1-25"), "1--25");
    assert_eq!(fix_range("1-2-3"), "1--2--3");
    assert_eq!(fix_range("1--2"), "1--2");
    assert_eq!(fix_date("1-2 3-4"), "1--2 3--4");
    assert_eq!(fix_date("1 - May, 2 - June"), "1 -- May, 2 -- June");
    assert_eq!(fix_range("e1-"), "e1-");
    assert_eq!(fix_date("Paris, France, 30 - May 3"), "Paris, France, 30 -- May 3");
    assert_eq!(fix_date("ICTAI 2024, 28-30 October"), "ICTAI 2024, 28--30 October");
    assert_eq!(fix_date("1 - Monday"), "1 - Monday");
}

#[test]
fn number_suffix_and_dashes() {
    assert_eq!(strip_num("Jeremias Berg 0001"), "Jeremias Berg");
    assert_eq!(strip_num("Jeremias Berg 001"), "Jeremias Berg 001");
    assert_eq!(strip_num("A 0001 0002"), "A");
    assert_eq!(fix_dashes("A - B - C"), "A--B--C");
    assert_eq!(fix_dashes("a - - b"), "a--- b");
    assert_eq!(fix_dashes("no-dash"), "no-dash");
}

#[test]
fn escaping() {
    assert_eq!(escape_chars("50% of #1 & $x_i$"), r"50\% of \#1 \& \$x\_i\$");
    assert_eq!(
        escape_chars(r"a<b>c\d^e{f}~"),
        r"a\ensuremath{<}b\ensuremath{>}c\textbackslash{}d\textasciicircum{}e\{f\}\textasciitilde{}"
    );
}

#[test]
fn transliteration() {
    let mut s = String::from("Matti Järvisalo");
    assert_eq!(replace(&mut s), Ok(()));
    assert_eq!(s, "Matti J{\\\"a}rvisalo");

    let mut s = String::from("plain ASCII");
    assert_eq!(replace(&mut s), Ok(()));
    assert_eq!(s, "plain ASCII");
}

#[test]
fn unmapped_character_is_an_error() {
    let mut s = String::from("Title with \u{4E2D}");
    assert_eq!(replace(&mut s), Err('\u{4E2D}'));
    assert_eq!(s, "Title with \u{4E2D}");

    let mut rec = article();
    if let Record::Article { title, .. } = &mut rec {
        *title = String::from("\u{1F600} emoji");
    }
    assert_eq!(unicode(&mut rec), Err('\u{1F600}'));
}

#[test]
fn record_fixers() {
    let mut rec = article();
    author_num(&mut rec);
    names(&mut rec);
    page_range(&mut rec);
    dashes(&mut rec);
    dblp_bibtex::fixers::acronyms(&mut rec);
    weird_urls(&mut rec);
    match &rec {
        Record::Article { author, title, journal, pages, external, .. } => {
            assert_eq!(author, &vec![String::from("Jabs, Christoph"), String::from("Berg, Jeremias")]);
            assert_eq!(title, "{MaxSAT}-Based Bi-Objective Boolean Optimization--A Study");
            assert_eq!(journal, "J. Artif. Intell. Res.--JAIR");
            assert_eq!(pages.as_deref(), Some("1--25"));
            assert_eq!(external.len(), 2);
            assert!(matches!(&external[0], External::Url(u) if u == "https://example.org/paper"));
        }
        _ => panic!("kind changed"),
    }
    single_external(&mut rec);
    match &rec {
        Record::Article { external, .. } => {
            assert_eq!(external.len(), 1);
            assert!(matches!(&external[0], External::Doi(d) if d == "10.1613/jair.1.15333"));
        }
        _ => panic!("kind changed"),
    }
}

#[test]
fn single_external_without_doi_keeps_first() {
    let mut rec = proceedings("conf/x/2025", "X");
    if let Record::Proceedings { external, .. } = &mut rec {
        external.push(External::Url(String::from("https://a.org")));
        external.push(External::Url(String::from("https://b.org")));
    }
    single_external(&mut rec);
    if let Record::Proceedings { external, .. } = &rec {
        assert_eq!(external.len(), 1);
        assert!(matches!(&external[0], External::Url(u) if u == "https://a.org"));
    }
    let mut empty = proceedings("conf/y/2025", "Y");
    single_external(&mut empty);
    if let Record::Proceedings { external, .. } = &empty {
        assert!(external.is_empty());
    }
}

#[test]
fn escape_record_fields() {
    let mut rec = proceedings("conf/x/2025", "Tools & Algorithms");
    escape_latex(&mut rec);
    assert_eq!(rec.title(), r"Tools \& Algorithms");
}

#[test]
fn date_range_of_proceedings_title() {
    let mut rec = proceedings("conf/x/2025", "Proc. 7-9 June 2025");
    date_ranges(&mut rec);
    assert_eq!(rec.title(), "Proc. 7--9 June 2025");
}

#[test]
fn crossref_booktitle_and_correction() {
    let mut paper = inproceedings("conf/tacas/JabsBBJ25", "conf/tacas/2025-1");
    let volume = proceedings("conf/tacas/2025-1", "Tools and Algorithms, TACAS 2025");
    expand_booktitle(&mut paper, &volume);
    if let Record::Inproceedings { booktitle, .. } = &paper {
        assert_eq!(booktitle, "Tools and Algorithms, TACAS 2025");
    }
    manually_correct(&mut paper);
    assert_eq!(
        paper.title(),
        "Certifying Pareto Optimality in Multi-objective Maximum Satisfiability"
    );
    let mut other = inproceedings("conf/x/Other", "conf/x/2025");
    manually_correct(&mut other);
    assert_eq!(other.title(), "A Paper");
}

#[test]
fn fixers_applied_twice() {
    let mut once = article();
    weird_urls(&mut once);
    single_external(&mut once);
    let mut twice = article();
    weird_urls(&mut twice);
    weird_urls(&mut twice);
    single_external(&mut twice);
    single_external(&mut twice);
    assert_eq!(once.bibtex(), twice.bibtex());

    let once = fix_dashes("A - B -  - C");
    assert_eq!(fix_dashes(&once), once);
    let once = fix_range("1-2-3");
    assert_eq!(fix_range(&once), once);
    let once = fix_date("7-9 June, 30 - May 3-4");
    assert_eq!(once, "7--9 June, 30 -- May 3--4");
    assert_eq!(fix_date(&once), once);
    let once = strip_num("A 0001 0002");
    assert_eq!(strip_num(&once), once);

    let mut s = String::from("Järvisalo");
    replace(&mut s).unwrap();
    let first = s.clone();
    replace(&mut s).unwrap();
    assert_eq!(s, first);
}

#[test]
fn whole_pipeline() {
    let args = CommonGetArgs {
        unicode: false,
        crossref: false,
        all_externals: false,
        dont_expand_journals: false,
    };
    let mut rec = inproceedings("conf/tacas/JabsBBJ25", "conf/tacas/2025-1");
    if let Record::Inproceedings { author, .. } = &mut rec {
        author.push(String::from("Matti Järvisalo 0002"));
    }
    assert_eq!(fixup(&mut rec, &args), Ok(()));
    if let Record::Inproceedings { author, title, pages, .. } = &rec {
        assert_eq!(author, &vec![String::from("Le Berre, Daniel"), String::from("J{\\\"a}rvisalo, Matti")]);
        assert_eq!(title, "Certifying Pareto Optimality in Multi-objective Maximum Satisfiability");
        assert_eq!(pages.as_deref(), Some("3--20"));
    }
}

#[test]
fn particles_can_be_given() {
    let mut name = String::from("Ludwig Van Beethoven");
    dblp_bibtex::names::fix_with(&mut name, &vec![String::from("Ter")]);
    assert_eq!(name, "Beethoven, Ludwig Van");
    let mut name = String::from("Gerard Ter Borch");
    dblp_bibtex::names::fix_with(&mut name, &vec![String::from("Ter")]);
    assert_eq!(name, "Ter Borch, Gerard");
}

#[test]
fn empty_texts() {
    assert_eq!(fix_range(""), "");
    assert_eq!(fix_date(""), "");
    assert_eq!(fix_dashes(""), "");
    assert_eq!(escape_chars(""), "");
    assert_eq!(strip_num(""), "");
    let mut s = String::new();
    fix_acronyms(&mut s);
    assert_eq!(s, "");
    assert_eq!(replace(&mut s), Ok(()));
    assert_eq!(s, "");
}

#[test]
fn whitespace_matches_std() {
    for code in 0u32..=0x10FFFF {
        if let Some(c) = char::from_u32(code) {
            assert_eq!(dblp_bibtex::text::is_space(c), c.is_whitespace(), "U+{code:04X}");
        }
    }
}
