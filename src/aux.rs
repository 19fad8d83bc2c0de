//! Extraction of citation keys from the auxiliary files that LaTeX writes.

use vstd::prelude::*;

use crate::names::views;
use crate::text::{from_chars, has_prefix, is_space, space, starts_with, to_chars};

verus! {

/// What a line of an auxiliary file announces.
#[derive(Debug)]
pub enum AuxFileInfo {
    /// A cited key.
    CiteKey(String),
    /// An included auxiliary file, by its path relative to the root file.
    Input(String),
}

/// The model of an [`AuxFileInfo`].
pub enum AuxEvent {
    CiteKey(Seq<char>),
    Input(Seq<char>),
}

impl View for AuxFileInfo {
    type V = AuxEvent;

    open spec fn view(&self) -> AuxEvent {
        match self {
            AuxFileInfo::CiteKey(k) => AuxEvent::CiteKey(k@),
            AuxFileInfo::Input(p) => AuxEvent::Input(p@),
        }
    }
}

/// A citation line that holds no `,` or `}` to end a key, or a biblatex citation line
/// without its second brace group.
#[derive(Debug, PartialEq, Eq, Structural)]
pub struct MalformedLine;

/// Every character of `s` is whitespace.
pub open spec fn blank(s: Seq<char>) -> bool {
    forall|i: int| 0 <= i < s.len() ==> space(#[trigger] s[i])
}

/// The first position of `c` in `s`.
pub open spec fn find(s: Seq<char>, c: char) -> Option<int> {
    if exists|i: int| 0 <= i < s.len() && s[i] == c {
        Some(choose|i: int| 0 <= i < s.len() && s[i] == c && forall|j: int| 0 <= j < i ==> s[j] != c)
    } else {
        None
    }
}

/// Where the key at the start of `s` ends: the first `,`, or failing that the first `}`.
pub open spec fn key_end(s: Seq<char>) -> Option<int> {
    match find(s, ',') {
        Some(i) => Some(i),
        None => find(s, '}'),
    }
}

/// `s` without its trailing whitespace.
pub open spec fn trim_end(s: Seq<char>) -> Seq<char>
    decreases s.len(),
{
    if s.len() > 0 && space(s.last()) {
        trim_end(s.drop_last())
    } else {
        s
    }
}

/// The path of an `\@input{path}` line, given what follows `\@input{`.
pub open spec fn input_path(rest: Seq<char>) -> Seq<char> {
    let t = trim_end(rest);
    if t.len() > 0 {
        t.drop_last()
    } else {
        t
    }
}

/// `\citation{`
pub open spec fn cite_prefix() -> Seq<char> {
    seq!['\\', 'c', 'i', 't', 'a', 't', 'i', 'o', 'n', '{']
}

/// `\abx@aux@cite{`
pub open spec fn abx_prefix() -> Seq<char> {
    seq!['\\', 'a', 'b', 'x', '@', 'a', 'u', 'x', '@', 'c', 'i', 't', 'e', '{']
}

/// `\@input{`
pub open spec fn input_prefix() -> Seq<char> {
    seq!['\\', '@', 'i', 'n', 'p', 'u', 't', '{']
}

/// The events still to come from the unread keys `buf` and the unread `lines`, and
/// whether a malformed line ends them. With `force`, `buf` holds at least one key.
pub open spec fn events_from(buf: Seq<char>, lines: Seq<Seq<char>>, force: bool) -> (
    Seq<AuxEvent>,
    bool,
)
    decreases lines.len(), buf.len(),
{
    if force || !blank(buf) {
        match key_end(buf) {
            None => (Seq::empty(), true),
            Some(i) => if 0 <= i < buf.len() {
                let after = events_from(buf.skip(i + 1), lines, false);
                (seq![AuxEvent::CiteKey(buf.take(i))] + after.0, after.1)
            } else {
                (Seq::empty(), true)
            },
        }
    } else if lines.len() == 0 {
        (Seq::empty(), false)
    } else {
        let l = lines[0];
        let rest = lines.skip(1);
        if has_prefix(l, cite_prefix()) {
            events_from(l.skip(10), rest, true)
        } else if has_prefix(l, abx_prefix()) {
            let r = l.skip(14);
            match find(r, '{') {
                None => (Seq::empty(), true),
                Some(j) => events_from(r.skip(j + 1), rest, true),
            }
        } else if has_prefix(l, input_prefix()) {
            let after = events_from(Seq::empty(), rest, false);
            (seq![AuxEvent::Input(input_path(l.skip(8)))] + after.0, after.1)
        } else {
            events_from(Seq::empty(), rest, false)
        }
    }
}

/// The events of a whole file given by its lines, and whether a malformed line ends them.
pub open spec fn file_events(lines: Seq<Seq<char>>) -> (Seq<AuxEvent>, bool) {
    events_from(Seq::empty(), lines, false)
}

/// A reader of the lines of one auxiliary file that yields what they announce.
pub struct AuxFileIter {
    lines: Vec<String>,
    next_line: usize,
    buffer: Vec<char>,
}

impl AuxFileIter {
    /// The events that are still to come, and whether a malformed line ends them.
    pub closed spec fn pending(&self) -> (Seq<AuxEvent>, bool) {
        events_from(self.buffer@, self.unread(), false)
    }

    /// The lines not read yet.
    pub closed spec fn unread(&self) -> Seq<Seq<char>> {
        views_of(self.lines@).skip(self.next_line as int)
    }

    /// The reader's position lies within its lines.
    pub closed spec fn wf(&self) -> bool {
        self.next_line <= self.lines@.len()
    }

    /// A reader of the given lines, each with its line end as read.
    pub fn new(lines: Vec<String>) -> (r: Self)
        ensures
            r.wf(),
            r.pending() == file_events(views_of(lines@)),
    {
        let r = AuxFileIter { lines, next_line: 0, buffer: Vec::new() };
        assert(r.unread() =~= views_of(r.lines@));
        r
    }

    /// Takes the next key off the buffer: up to the first `,`, or failing that the first
    /// `}`.
    fn yield_citekey(&mut self) -> (r: Result<String, MalformedLine>)
        requires
            old(self).wf(),
        ensures
            final(self).wf(),
            final(self).lines == old(self).lines,
            final(self).next_line == old(self).next_line,
            match events_from(old(self).buffer@, old(self).unread(), true) {
                (e, f) => if e.len() > 0 {
                    r matches Ok(k) && AuxEvent::CiteKey(k@) == e[0] && final(self).pending() == (
                    e.skip(1), f)
                } else {
                    r is Err && f
                },
            },
    {
        let ghost buf = self.buffer@;
        let ghost lines = self.unread();
        let sep = match find_char(&self.buffer, ',') {
            Some(i) => i,
            None => match find_char(&self.buffer, '}') {
                Some(i) => i,
                None => {
                    return Err(MalformedLine);
                },
            },
        };
        let mut key: Vec<char> = Vec::new();
        let mut rest: Vec<char> = Vec::new();
        let mut i: usize = 0;
        while i < self.buffer.len()
            invariant
                sep < self.buffer@.len(),
                i <= self.buffer@.len(),
                self.buffer@ == buf,
                i <= sep ==> key@ == buf.take(i as int) && rest@.len() == 0,
                i > sep ==> key@ == buf.take(sep as int) && rest@ == buf.subrange(
                    sep as int + 1,
                    i as int,
                ),
            decreases self.buffer@.len() - i,
        {
            if i < sep {
                key.push(self.buffer[i]);
            } else if i > sep {
                rest.push(self.buffer[i]);
            }
            i = i + 1;
            assert(key@ =~= buf.take(if i <= sep { i as int } else { sep as int }));
            if i > sep {
                assert(rest@ =~= buf.subrange(sep as int + 1, i as int));
            }
        }
        assert(rest@ =~= buf.skip(sep as int + 1));
        self.buffer = rest;
        Ok(from_chars(key.as_slice()))
    }

    /// The next event of the file: `None` at its end, an error at a malformed line.
    #[verifier::rlimit(60)]
    pub fn next(&mut self) -> (r: Option<Result<AuxFileInfo, MalformedLine>>)
        requires
            old(self).wf(),
        ensures
            final(self).wf(),
            match old(self).pending() {
                (e, f) => if e.len() > 0 {
                    r matches Some(Ok(x)) && x@ == e[0] && final(self).pending() == (e.skip(1), f)
                } else if f {
                    r matches Some(Err(_))
                } else {
                    r is None
                },
            },
    {
        if !all_space(&self.buffer) {
            let r = self.yield_citekey();
            return match r {
                Ok(k) => Some(Ok(AuxFileInfo::CiteKey(k))),
                Err(e) => Some(Err(e)),
            };
        }
        self.buffer = Vec::new();
        let ghost goal = old(self).pending();
        assert(goal == events_from(Seq::empty(), self.unread(), false));
        while self.next_line < self.lines.len()
            invariant
                self.wf(),
                self.buffer@.len() == 0,
                goal == events_from(Seq::empty(), self.unread(), false),
                goal == old(self).pending(),
            decreases self.lines@.len() - self.next_line,
        {
            let ghost u = self.unread();
            let l = to_chars(self.lines[self.next_line].as_str());
            self.next_line = self.next_line + 1;
            assert(self.unread() =~= u.skip(1));
            assert(u[0] == l@);
            assert(blank(Seq::<char>::empty()));
            if starts_with(&l, &['\\', 'c', 'i', 't', 'a', 't', 'i', 'o', 'n', '{']) {
                assert(has_prefix(l@, cite_prefix()));
                assert(goal == events_from(l@.skip(10), self.unread(), true));
                self.buffer = tail(&l, 10);
                let r = self.yield_citekey();
                return match r {
                    Ok(k) => Some(Ok(AuxFileInfo::CiteKey(k))),
                    Err(e) => Some(Err(e)),
                };
            }
            if starts_with(
                &l,
                &['\\', 'a', 'b', 'x', '@', 'a', 'u', 'x', '@', 'c', 'i', 't', 'e', '{'],
            ) {
                assert(has_prefix(l@, abx_prefix()));
                assert(!has_prefix(l@, cite_prefix())) by {
                    assert(l@[1] == 'a' && cite_prefix()[1] == 'c');
                    assert(l@.take(10)[1] != cite_prefix()[1]);
                }
                let r = tail(&l, 14);
                let rl = r.len();
                match find_char(&r, '{') {
                    None => {
                        return Some(Err(MalformedLine));
                    },
                    Some(j) => {
                        assert(goal == events_from(r@.skip(j + 1), self.unread(), true));
                        self.buffer = tail(&r, j + 1);
                        let y = self.yield_citekey();
                        return match y {
                            Ok(k) => Some(Ok(AuxFileInfo::CiteKey(k))),
                            Err(e) => Some(Err(e)),
                        };
                    },
                }
            }
            if starts_with(&l, &['\\', '@', 'i', 'n', 'p', 'u', 't', '{']) {
                assert(has_prefix(l@, input_prefix()));
                let path = path_of(&tail(&l, 8));
                assert(goal.0.skip(1) =~= events_from(Seq::empty(), self.unread(), false).0);
                return Some(Ok(AuxFileInfo::Input(path)));
            }
            assert(!has_prefix(l@, cite_prefix()));
        }
        assert(self.unread().len() == 0);
        None
    }
}

/// One step of the walk over an auxiliary file and the files it includes.
#[derive(Debug)]
pub enum CiteStep {
    /// A cited key.
    Key(String),
    /// An included file to read next, by its path relative to the root file; its lines
    /// go to [`CiteKeyIter::push_file`]. A file that cannot be read is left out.
    Open(String),
    /// An exhausted file was closed, or an include was passed over.
    Skip,
    /// A malformed line.
    Failed(MalformedLine),
    /// Every file is exhausted.
    Done,
}

/// A depth-first walk over an auxiliary file and the files it includes, kept as a stack
/// of readers with the innermost file on top.
pub struct CiteKeyIter {
    aux_stack: Vec<AuxFileIter>,
    follow_inputs: bool,
}

impl CiteKeyIter {
    /// The readers are within their lines.
    pub closed spec fn wf(&self) -> bool {
        forall|i: int| 0 <= i < self.aux_stack@.len() ==> (#[trigger] self.aux_stack@[i]).wf()
    }

    /// What is pending in each open file, the innermost last.
    pub closed spec fn stack(&self) -> Seq<(Seq<AuxEvent>, bool)> {
        self.aux_stack@.map_values(|a: AuxFileIter| a.pending())
    }

    /// Whether includes are followed.
    pub closed spec fn follows(&self) -> bool {
        self.follow_inputs
    }

    /// A walk that starts with the root file's lines.
    pub fn new(lines: Vec<String>, follow_inputs: bool) -> (r: Self)
        ensures
            r.wf(),
            r.follows() == follow_inputs,
            r.stack() == seq![file_events(views_of(lines@))],
    {
        let mut aux_stack: Vec<AuxFileIter> = Vec::new();
        aux_stack.push(AuxFileIter::new(lines));
        let r = CiteKeyIter { aux_stack, follow_inputs };
        assert(r.stack() =~= seq![file_events(views_of(lines@))]);
        r
    }

    /// Opens an included file, whose events come before the rest of the current file.
    pub fn push_file(&mut self, lines: Vec<String>)
        requires
            old(self).wf(),
        ensures
            final(self).wf(),
            final(self).follows() == old(self).follows(),
            final(self).stack() == old(self).stack().push(file_events(views_of(lines@))),
    {
        self.aux_stack.push(AuxFileIter::new(lines));
        assert(self.stack() =~= old(self).stack().push(file_events(views_of(lines@))));
    }

    /// Takes one step: yields the next key of the innermost file, asks for an included
    /// file to be opened (or passes over it when includes are not followed), closes an
    /// exhausted file, or reports a malformed line.
    pub fn next_step(&mut self) -> (r: CiteStep)
        requires
            old(self).wf(),
        ensures
            final(self).wf(),
            final(self).follows() == old(self).follows(),
            old(self).stack().len() == 0 ==> r is Done,
            old(self).stack().len() > 0 ==> ({
                let n = old(self).stack().len();
                let (e, f) = old(self).stack().last();
                if e.len() > 0 {
                    &&& final(self).stack() == old(self).stack().update(n - 1, (e.skip(1), f))
                    &&& match e[0] {
                        AuxEvent::CiteKey(k) => r matches CiteStep::Key(x) && x@ == k,
                        AuxEvent::Input(p) => if old(self).follows() {
                            r matches CiteStep::Open(x) && x@ == p
                        } else {
                            r is Skip
                        },
                    }
                } else if f {
                    r is Failed
                } else {
                    r is Skip && final(self).stack() == old(self).stack().drop_last()
                }
            }),
    {
        let ghost before = self.stack();
        match self.aux_stack.pop() {
            None => CiteStep::Done,
            Some(mut top) => {
                assert(self.aux_stack@ =~= old(self).aux_stack@.drop_last());
                assert(top.wf());
                let n = top.next();
                match n {
                    None => {
                        assert(self.stack() =~= before.drop_last());
                        CiteStep::Skip
                    },
                    Some(Err(e)) => {
                        self.aux_stack.push(top);
                        CiteStep::Failed(e)
                    },
                    Some(Ok(info)) => {
                        self.aux_stack.push(top);
                        assert(self.stack() =~= before.update(
                            before.len() - 1,
                            (old(self).stack().last().0.skip(1), old(self).stack().last().1),
                        ));
                        match info {
                            AuxFileInfo::CiteKey(k) => CiteStep::Key(k),
                            AuxFileInfo::Input(p) => if self.follow_inputs {
                                CiteStep::Open(p)
                            } else {
                                CiteStep::Skip
                            },
                        }
                    },
                }
            },
        }
    }
}

/// The views of a sequence of strings.
pub open spec fn views_of(v: Seq<String>) -> Seq<Seq<char>> {
    v.map_values(|s: String| s@)
}

fn all_space(v: &Vec<char>) -> (r: bool)
    ensures
        r == blank(v@),
{
    let mut i: usize = 0;
    while i < v.len()
        invariant
            i <= v@.len(),
            forall|j: int| 0 <= j < i ==> space(#[trigger] v@[j]),
        decreases v@.len() - i,
    {
        if !is_space(v[i]) {
            return false;
        }
        i = i + 1;
    }
    true
}

pub(crate) fn find_char(v: &Vec<char>, c: char) -> (r: Option<usize>)
    ensures
        r matches Some(i) ==> find(v@, c) == Some(i as int) && i < v@.len(),
        r is None ==> find(v@, c) is None,
{
    let mut i: usize = 0;
    while i < v.len()
        invariant
            i <= v@.len(),
            forall|j: int| 0 <= j < i ==> v@[j] != c,
        decreases v@.len() - i,
    {
        if v[i] == c {
            let ghost k = choose|k: int|
                0 <= k < v@.len() && v@[k] == c && forall|j: int| 0 <= j < k ==> v@[j] != c;
            assert(k == i as int) by {
                if k < i {
                    assert(v@[k] != c);
                }
                if k > i {
                    assert(v@[i as int] != c);
                }
            }
            return Some(i);
        }
        i = i + 1;
    }
    None
}

pub(crate) fn tail(v: &Vec<char>, from: usize) -> (r: Vec<char>)
    requires
        from <= v@.len(),
    ensures
        r@ == v@.skip(from as int),
{
    let mut r: Vec<char> = Vec::new();
    let mut i: usize = from;
    while i < v.len()
        invariant
            from <= i <= v@.len(),
            r@ == v@.subrange(from as int, i as int),
        decreases v@.len() - i,
    {
        r.push(v[i]);
        i = i + 1;
        assert(r@ =~= v@.subrange(from as int, i as int));
    }
    assert(r@ =~= v@.skip(from as int));
    r
}

fn path_of(rest: &Vec<char>) -> (r: String)
    ensures
        r@ == input_path(rest@),
{
    let mut n: usize = rest.len();
    assert(rest@.take(n as int) =~= rest@);
    while n > 0 && is_space(rest[n - 1])
        invariant
            n <= rest@.len(),
            trim_end(rest@) == trim_end(rest@.take(n as int)),
        decreases n,
    {
        assert(rest@.take(n as int).drop_last() =~= rest@.take(n as int - 1));
        n = n - 1;
    }
    let mut out = String::new();
    if n > 0 {
        crate::text::push_sub(&mut out, rest, 0, n - 1);
        assert(out@ =~= rest@.take(n as int).drop_last());
    } else {
        assert(rest@.take(0) =~= Seq::<char>::empty());
        assert(out@ =~= rest@.take(0));
    }
    out
}

} // verus!
