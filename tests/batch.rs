use dblp_bibtex::batch::{
    classify, expand_all, plan_crossrefs, sort_by_key, split_outcomes, FetchRes,
};
use dblp_bibtex::fetch::Error;
use dblp_bibtex::record::{Crossref, Record};

fn paper(key: &str, crossref: &str) -> Record {
    Record::Inproceedings {
        key: String::from(key),
        author: vec![String::from("Christoph Jabs")],
        title: String::from("Paper"),
        booktitle: String::from("SAT"),
        year: 2024,
        pages: None,
        external: vec![],
        crossref: Crossref::Key(String::from(crossref)),
    }
}

fn volume(key: &str, title: &str) -> Record {
    Record::Proceedings {
        key: String::from(key),
        editor: vec![],
        title: String::from(title),
        year: 2024,
        series: None,
        volume: None,
        publisher: None,
        external: vec![],
        isbn: vec![],
    }
}

#[test]
fn one_unknown_key_does_not_abort() {
    let fetched: Vec<Result<Record, Error>> = vec![
        Ok(paper("conf/sat/A24", "conf/sat/2024")),
        Err(Error::UnknownKey(String::from("conf/sat/Nope"))),
        Ok(volume("conf/sat/2024", "SAT 2024")),
    ];
    let outcomes: Vec<FetchRes> = fetched
        .into_iter()
        .map(|r| classify(r).ok().unwrap())
        .collect();
    let split = split_outcomes(outcomes);
    assert_eq!(split.records.len(), 2);
    assert_eq!(split.unknown, vec![String::from("conf/sat/Nope")]);
    assert_eq!(split.crossref_keys, vec![String::from("conf/sat/2024")]);
}

#[test]
fn transport_errors_are_passed_on() {
    assert!(matches!(classify(Err(Error::Http(500))), Err(Error::Http(500))));
    assert!(matches!(
        classify(Err(Error::Transport(String::from("timeout")))),
        Err(Error::Transport(_))
    ));
}

#[test]
fn crossref_targets_already_fetched_are_reused() {
    let records = vec![
        paper("conf/sat/A24", "conf/sat/2024"),
        volume("conf/sat/2024", "SAT 2024"),
        paper("conf/cp/B24", "conf/cp/2024"),
    ];
    let cks = vec![
        String::from("conf/sat/2024"),
        String::from("conf/cp/2024"),
        String::from("conf/sat/2024"),
    ];
    let plan = plan_crossrefs(records, &cks);
    assert_eq!(plan.to_fetch, vec![String::from("conf/cp/2024")]);
    assert_eq!(plan.reused.len(), 1);
    assert_eq!(plan.reused[0].key(), "conf/sat/2024");
    let kept: Vec<&str> = plan.kept.iter().map(|r| r.key()).collect();
    assert_eq!(kept, vec!["conf/sat/A24", "conf/cp/B24"]);
}

#[test]
fn booktitles_from_crossrefs() {
    let records = vec![paper("conf/sat/A24", "conf/sat/2024"), volume("conf/x/1", "X")];
    let crs = vec![volume("conf/sat/2024", "Theory and Applications of SAT 2024")];
    let out = expand_all(records, &crs).ok().unwrap();
    match &out[0] {
        Record::Inproceedings { booktitle, .. } => {
            assert_eq!(booktitle, "Theory and Applications of SAT 2024")
        }
        _ => panic!("kind changed"),
    }
    assert_eq!(out[1].title(), "X");

    let missing = expand_all(vec![paper("conf/sat/A24", "conf/sat/2023")], &crs);
    assert_eq!(missing.err(), Some(String::from("conf/sat/2023")));
}

#[test]
fn records_sorted_by_key() {
    let sorted = sort_by_key(vec![
        volume("conf/b", "B"),
        volume("conf/a", "A1"),
        volume("conf/c", "C"),
        volume("conf/a", "A2"),
    ]);
    let keys: Vec<&str> = sorted.iter().map(|r| r.key()).collect();
    assert_eq!(keys, vec!["conf/a", "conf/a", "conf/b", "conf/c"]);
}
