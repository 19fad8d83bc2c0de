use dblp_bibtex::aux::{AuxFileInfo, AuxFileIter, CiteKeyIter, CiteStep, MalformedLine};
use dblp_bibtex::batch::citation_keys;
use dblp_bibtex::fetch::strip_namespace;

fn lines(text: &str) -> Vec<String> {
    text.split_inclusive('\n').map(String::from).collect()
}

/// Walks the files as the application does, with `files` standing in for the disk.
fn walk(root: &str, files: &[(&str, &str)], follow: bool) -> Result<Vec<String>, MalformedLine> {
    let mut iter = CiteKeyIter::new(lines(root), follow);
    let mut keys = vec![];
    loop {
        match iter.next_step() {
            CiteStep::Key(k) => keys.push(k),
            CiteStep::Open(path) => {
                if let Some((_, text)) = files.iter().find(|(name, _)| *name == path) {
                    iter.push_file(lines(text));
                }
            }
            CiteStep::Skip => {}
            CiteStep::Failed(e) => return Err(e),
            CiteStep::Done => return Ok(keys),
        }
    }
}

#[test]
fn includes_followed_or_not() {
    let root = "\\relax\n\\citation{DBLP:a,DBLP:b}\n\\@input{sub.aux}\n";
    let files = [("sub.aux", "\\citation{DBLP:c}\n")];
    let keys = walk(root, &files, true).unwrap();
    let stripped: Vec<String> = keys.iter().map(|k| strip_namespace(k)).collect();
    assert_eq!(stripped, vec!["a", "b", "c"]);
    let keys = walk(root, &files, false).unwrap();
    let stripped: Vec<String> = keys.iter().map(|k| strip_namespace(k)).collect();
    assert_eq!(stripped, vec!["a", "b"]);
}

#[test]
fn nested_files_come_depth_first() {
    let root = "\\citation{DBLP:a}\n\\@input{one.aux}\n\\citation{DBLP:d}\n";
    let files = [
        ("one.aux", "\\citation{DBLP:b}\n\\@input{two.aux}\n"),
        ("two.aux", "\\citation{DBLP:c}\n"),
    ];
    assert_eq!(walk(root, &files, true).unwrap(), vec!["DBLP:a", "DBLP:b", "DBLP:c", "DBLP:d"]);
}

#[test]
fn missing_include_is_skipped() {
    let root = "\\citation{DBLP:a}\n\\@input{gone.aux}\n\\citation{DBLP:b}\n";
    assert_eq!(walk(root, &[], true).unwrap(), vec!["DBLP:a", "DBLP:b"]);
}

#[test]
fn biblatex_citations_and_other_lines() {
    let mut it = AuxFileIter::new(lines(
        "\\abx@aux@cite{0}{DBLP:x,other}\n\\bibstyle{plain}\n\\citation{k}\n",
    ));
    let mut got = vec![];
    while let Some(r) = it.next() {
        match r.unwrap() {
            AuxFileInfo::CiteKey(k) => got.push(k),
            AuxFileInfo::Input(p) => panic!("unexpected input {p}"),
        }
    }
    assert_eq!(got, vec!["DBLP:x", "other", "k"]);
}

#[test]
fn input_path_is_trimmed() {
    let mut it = AuxFileIter::new(lines("\\@input{chapters/one.aux}  \n"));
    match it.next() {
        Some(Ok(AuxFileInfo::Input(p))) => assert_eq!(p, "chapters/one.aux"),
        _ => panic!("expected an input"),
    }
    assert!(it.next().is_none());
}

#[test]
fn malformed_citation_line() {
    let mut it = AuxFileIter::new(lines("\\citation{DBLP:a,DBLP:b}\n\\citation{broken\n"));
    assert!(matches!(it.next(), Some(Ok(AuxFileInfo::CiteKey(k))) if k == "DBLP:a"));
    assert!(matches!(it.next(), Some(Ok(AuxFileInfo::CiteKey(k))) if k == "DBLP:b"));
    assert!(matches!(it.next(), Some(Err(MalformedLine))));
    let mut it = AuxFileIter::new(lines("\\abx@aux@cite{nobrace\n"));
    assert!(matches!(it.next(), Some(Err(MalformedLine))));
}

#[test]
fn key_set_is_sorted_and_deduplicated() {
    let raw: Vec<String> = ["DBLP:b", "other", "DBLP:a", "DBLP:b", "DBLP:Z"]
        .iter()
        .map(|s| s.to_string())
        .collect();
    assert_eq!(citation_keys(&raw), vec!["DBLP:Z", "DBLP:a", "DBLP:b"]);
    assert!(citation_keys(&vec![]).is_empty());
}
