use vstd::prelude::*;

verus! {

/// What `str::trim` leaves of a text: the text without its leading and
/// trailing white space.
pub uninterp spec fn trimmed(s: Seq<char>) -> Seq<char>;

/// Relies on `str::trim`: the result is the text without surrounding white
/// space, and depends on the characters alone.
#[verifier::external_body]
fn trim_text(s: &str) -> (r: String)
    ensures
        r@ == trimmed(s@),
{
    s.trim().to_string()
}

/// A line is a comment when it starts with `#`.
pub open spec fn is_comment(t: Seq<char>) -> bool {
    t.len() > 0 && t[0] == '#'
}

/// Whether a trimmed line is kept: it is not blank (when blanks are
/// filtered) and not a comment (ever).
pub open spec fn is_kept(t: Seq<char>, filter_blanks: bool) -> bool {
    !(filter_blanks && t.len() == 0) && !is_comment(t)
}

/// What one raw line becomes: trimmed, then dropped unless it is kept.
pub open spec fn normalized(s: Seq<char>, filter_blanks: bool) -> Option<Seq<char>> {
    let t = trimmed(s);
    if is_kept(t, filter_blanks) {
        Some(t)
    } else {
        None
    }
}

pub open spec fn opt_view(o: Option<String>) -> Option<Seq<char>> {
    match o {
        Some(s) => Some(s@),
        None => None,
    }
}

/// Decides whether an already trimmed line is kept as a target.
pub fn keep_line(t: &str, filter_blanks: bool) -> (r: bool)
    ensures
        r == is_kept(t@, filter_blanks),
{
    let n = t.unicode_len();
    if filter_blanks && n == 0 {
        false
    } else if n > 0 && t.get_char(0) == '#' {
        false
    } else {
        true
    }
}

/// Trims a raw line and decides whether it is kept as a target.
pub fn normalize_target(s: &str, filter_blanks: bool) -> (r: Option<String>)
    ensures
        opt_view(r) == normalized(s@, filter_blanks),
{
    let t = trim_text(s);
    if keep_line(t.as_str(), filter_blanks) {
        Some(t)
    } else {
        None
    }
}

/// What the reader asks its driver to do next.
pub enum Request {
    /// Read one more line of standard input.
    StdinLine,
    /// Try to open this path as a list of targets.
    Open(String),
    /// Read one more line of the file opened last.
    FileLine,
    /// Nothing is left to read.
    Finished,
}

/// What the driver reports back after doing what was requested.
pub enum Event {
    /// A line was read (without its line ending, or with it: it is trimmed).
    Line(String),
    /// The requested path was opened.
    Opened,
    /// The requested path could not be opened.
    OpenFailed,
    /// Reading failed.
    ReadFailed,
    /// The stream ended.
    End,
}

/// The abstract form of an [`Event`].
pub enum Ev {
    Line(Seq<char>),
    Opened,
    OpenFailed,
    ReadFailed,
    End,
}

impl View for Event {
    type V = Ev;

    open spec fn view(&self) -> Ev {
        match self {
            Event::Line(s) => Ev::Line(s@),
            Event::Opened => Ev::Opened,
            Event::OpenFailed => Ev::OpenFailed,
            Event::ReadFailed => Ev::ReadFailed,
            Event::End => Ev::End,
        }
    }
}

/// The abstract form of a [`Request`].
pub enum Req {
    StdinLine,
    Open(Seq<char>),
    FileLine,
    Finished,
}

impl View for Request {
    type V = Req;

    open spec fn view(&self) -> Req {
        match self {
            Request::StdinLine => Req::StdinLine,
            Request::Open(p) => Req::Open(p@),
            Request::FileLine => Req::FileLine,
            Request::Finished => Req::Finished,
        }
    }
}

/// The state of an input reader.
pub struct ReaderModel {
    /// Lines come from standard input rather than from the explicit items.
    pub stdin: bool,
    /// Standard input has ended (meaningful only when `stdin`).
    pub stdin_done: bool,
    /// The explicit items, in the order given.
    pub items: Seq<Seq<char>>,
    /// How many of the items have been taken.
    pub next: nat,
    /// The path of the file being read, if one is open.
    pub current: Option<Seq<char>>,
    /// Blank lines are dropped.
    pub filter_blanks: bool,
}

/// The state right after [`read_inputs`].
pub open spec fn initial_model(
    items: Seq<Seq<char>>,
    use_stdin: bool,
    filter_blanks: bool,
) -> ReaderModel {
    ReaderModel {
        stdin: items.len() == 0 && use_stdin,
        stdin_done: false,
        items,
        next: 0,
        current: None,
        filter_blanks,
    }
}

/// What a reader in state `m` asks for.
pub open spec fn request_of(m: ReaderModel) -> Req {
    if m.stdin {
        if m.stdin_done {
            Req::Finished
        } else {
            Req::StdinLine
        }
    } else if m.current is Some {
        Req::FileLine
    } else if m.next < m.items.len() {
        Req::Open(m.items[m.next as int])
    } else {
        Req::Finished
    }
}

/// One transition: the next state, and the target yielded, if any.
/// An event that does not answer the current request changes nothing.
pub open spec fn step(m: ReaderModel, ev: Ev) -> (ReaderModel, Option<Seq<char>>) {
    if m.stdin {
        if m.stdin_done {
            (m, None)
        } else {
            match ev {
                Ev::Line(s) => (m, normalized(s, m.filter_blanks)),
                _ => (ReaderModel { stdin_done: true, ..m }, None),
            }
        }
    } else if m.current is Some {
        match ev {
            Ev::Line(s) => (m, normalized(s, m.filter_blanks)),
            Ev::End => (ReaderModel { current: None, ..m }, None),
            Ev::ReadFailed => (
                ReaderModel { current: None, ..m },
                normalized(m.current->0, m.filter_blanks),
            ),
            _ => (m, None),
        }
    } else if m.next < m.items.len() {
        match ev {
            Ev::Opened => (
                ReaderModel { current: Some(m.items[m.next as int]), next: m.next + 1, ..m },
                None,
            ),
            Ev::OpenFailed => (
                ReaderModel { next: m.next + 1, ..m },
                normalized(m.items[m.next as int], m.filter_blanks),
            ),
            _ => (m, None),
        }
    } else {
        (m, None)
    }
}

/// The state after a run of events, and the targets yielded on the way.
pub open spec fn run(m: ReaderModel, evs: Seq<Ev>) -> (ReaderModel, Seq<Seq<char>>)
    decreases evs.len(),
{
    if evs.len() == 0 {
        (m, Seq::empty())
    } else {
        let (m1, out) = run(m, evs.drop_last());
        let (m2, y) = step(m1, evs.last());
        match y {
            Some(t) => (m2, out.push(t)),
            None => (m2, out),
        }
    }
}

/// The targets kept from a sequence of raw lines, in order.
pub open spec fn kept(lines: Seq<Seq<char>>, filter_blanks: bool) -> Seq<Seq<char>>
    decreases lines.len(),
{
    if lines.len() == 0 {
        Seq::empty()
    } else {
        let k = kept(lines.drop_last(), filter_blanks);
        match normalized(lines.last(), filter_blanks) {
            Some(t) => k.push(t),
            None => k,
        }
    }
}

/// The events of a file that opens, yields `lines`, and ends.
pub open spec fn file_events(lines: Seq<Seq<char>>) -> Seq<Ev> {
    seq![Ev::Opened] + lines.map_values(|l: Seq<char>| Ev::Line(l)) + seq![Ev::End]
}

/// With a non-empty list of explicit items, the reader is never fed from
/// standard input: whatever events it receives, it never asks for a line of it.
pub proof fn lemma_explicit_items_never_read_stdin(
    items: Seq<Seq<char>>,
    use_stdin: bool,
    filter_blanks: bool,
    evs: Seq<Ev>,
)
    requires
        items.len() > 0,
    ensures
        !run(initial_model(items, use_stdin, filter_blanks), evs).0.stdin,
        !(request_of(run(initial_model(items, use_stdin, filter_blanks), evs).0) is StdinLine),
    decreases evs.len(),
{
    if evs.len() > 0 {
        lemma_explicit_items_never_read_stdin(items, use_stdin, filter_blanks, evs.drop_last());
    }
}

/// No target that the reader yields is a comment, whatever the flags and the
/// events.
pub proof fn lemma_comments_never_yielded(m: ReaderModel, evs: Seq<Ev>)
    ensures
        forall|i: int| 0 <= i < run(m, evs).1.len() ==> !is_comment(#[trigger] run(m, evs).1[i]),
    decreases evs.len(),
{
    if evs.len() > 0 {
        lemma_comments_never_yielded(m, evs.drop_last());
        let (m1, out) = run(m, evs.drop_last());
        let y = step(m1, evs.last()).1;
        assert(y is Some ==> !is_comment(y->0));
        assert forall|i: int| 0 <= i < run(m, evs).1.len() implies !is_comment(
            #[trigger] run(m, evs).1[i],
        ) by {
            if i < out.len() {
                assert(run(m, evs).1[i] == out[i]);
            }
        }
    }
}

proof fn lemma_file_prefix(m: ReaderModel, lines: Seq<Seq<char>>, k: int)
    requires
        !m.stdin,
        m.current is None,
        m.next < m.items.len(),
        0 <= k <= lines.len(),
    ensures
        run(m, seq![Ev::Opened] + lines.take(k).map_values(|l: Seq<char>| Ev::Line(l))) == (
            ReaderModel { current: Some(m.items[m.next as int]), next: m.next + 1, ..m },
            kept(lines.take(k), m.filter_blanks),
        ),
    decreases k,
{
    let evs = seq![Ev::Opened] + lines.take(k).map_values(|l: Seq<char>| Ev::Line(l));
    if k == 0 {
        assert(evs.drop_last() =~= Seq::empty());
        assert(lines.take(0) =~= Seq::empty());
        assert(run(m, Seq::empty()) == (m, Seq::<Seq<char>>::empty()));
        assert(evs.last() == Ev::Opened);
    } else {
        lemma_file_prefix(m, lines, k - 1);
        let prev = seq![Ev::Opened] + lines.take(k - 1).map_values(|l: Seq<char>| Ev::Line(l));
        assert(evs.drop_last() =~= prev);
        assert(lines.take(k).drop_last() =~= lines.take(k - 1));
        assert(evs.last() == Ev::Line(lines[k - 1]));
    }
}

/// A path that opens is replaced by its file's kept lines, and the reader
/// moves on to the next item; a path that does not open is yielded itself.
pub proof fn lemma_paths_and_files(m: ReaderModel, lines: Seq<Seq<char>>)
    requires
        !m.stdin,
        m.current is None,
        m.next < m.items.len(),
    ensures
        run(m, file_events(lines)) == (
            ReaderModel { next: m.next + 1, ..m },
            kept(lines, m.filter_blanks),
        ),
        run(m, seq![Ev::OpenFailed]) == (
            ReaderModel { next: m.next + 1, ..m },
            match normalized(m.items[m.next as int], m.filter_blanks) {
                Some(t) => seq![t],
                None => Seq::empty(),
            },
        ),
{
    let n = lines.len() as int;
    lemma_file_prefix(m, lines, n);
    assert(lines.take(n) =~= lines);
    let evs = file_events(lines);
    assert(evs.drop_last() =~= seq![Ev::Opened] + lines.take(n).map_values(|l: Seq<char>| Ev::Line(l)));
    let one = seq![Ev::OpenFailed];
    assert(one.drop_last() =~= Seq::<Ev>::empty());
    assert(run(m, one.drop_last()) == (m, Seq::<Seq<char>>::empty()));
    assert(one.last() == Ev::OpenFailed);
    let y = normalized(m.items[m.next as int], m.filter_blanks);
    if y is Some {
        assert(Seq::<Seq<char>>::empty().push(y->0) =~= seq![y->0]);
    }
}

/// Reads standard input line by line until it ends or fails.
pub struct StdinIter {
    done: bool,
}

impl StdinIter {
    pub closed spec fn is_done(&self) -> bool {
        self.done
    }

    pub fn new() -> (r: Self)
        ensures
            !r.is_done(),
    {
        StdinIter { done: false }
    }
}

/// Walks a list of items that may name files: the lines of each file that
/// opens, else the item itself.
pub struct FileStringIter {
    items: Vec<String>,
    next: usize,
    current: Option<String>,
}

impl FileStringIter {
    pub closed spec fn items(&self) -> Seq<Seq<char>> {
        self.items@.map_values(|s: String| s@)
    }

    pub closed spec fn taken(&self) -> nat {
        self.next as nat
    }

    pub closed spec fn current(&self) -> Option<Seq<char>> {
        opt_view(self.current)
    }

    pub fn new(items: Vec<String>) -> (r: Self)
        ensures
            r.items() == items@.map_values(|s: String| s@),
            r.taken() == 0,
            r.current() is None,
    {
        FileStringIter { items, next: 0, current: None }
    }
}

pub enum InputSource {
    Stdin(StdinIter),
    Files(FileStringIter),
}

/// A lazy, single-pass source of normalized targets, driven from outside:
/// the driver asks [`InputReader::request`], performs it, and reports the
/// outcome to [`InputReader::feed`].
pub struct InputReader {
    source: InputSource,
    filter_blanks: bool,
}

impl View for InputReader {
    type V = ReaderModel;

    closed spec fn view(&self) -> ReaderModel {
        match self.source {
            InputSource::Stdin(s) => ReaderModel {
                stdin: true,
                stdin_done: s.done,
                items: Seq::empty(),
                next: 0,
                current: None,
                filter_blanks: self.filter_blanks,
            },
            InputSource::Files(f) => ReaderModel {
                stdin: false,
                stdin_done: false,
                items: f.items(),
                next: f.next as nat,
                current: opt_view(f.current),
                filter_blanks: self.filter_blanks,
            },
        }
    }
}

impl InputReader {
    pub closed spec fn wf(&self) -> bool {
        match self.source {
            InputSource::Stdin(_) => true,
            InputSource::Files(f) => f.next <= f.items.len(),
        }
    }

    /// What the driver has to do next.
    pub fn request(&self) -> (r: Request)
        requires
            self.wf(),
        ensures
            r@ == request_of(self@),
    {
        match &self.source {
            InputSource::Stdin(s) => {
                if s.done {
                    Request::Finished
                } else {
                    Request::StdinLine
                }
            },
            InputSource::Files(f) => {
                if f.current.is_some() {
                    Request::FileLine
                } else if f.next < f.items.len() {
                    Request::Open(f.items[f.next].clone())
                } else {
                    Request::Finished
                }
            },
        }
    }

    /// Takes the outcome of the last request; returns the target it yields.
    pub fn feed(&mut self, ev: Event) -> (r: Option<String>)
        requires
            old(self).wf(),
        ensures
            final(self).wf(),
            final(self)@ == step(old(self)@, ev@).0,
            opt_view(r) == step(old(self)@, ev@).1,
    {
        let fb = self.filter_blanks;
        match &mut self.source {
            InputSource::Stdin(s) => {
                if s.done {
                    None
                } else {
                    match ev {
                        Event::Line(line) => normalize_target(line.as_str(), fb),
                        _ => {
                            s.done = true;
                            None
                        },
                    }
                }
            },
            InputSource::Files(f) => {
                if f.current.is_some() {
                    match ev {
                        Event::Line(line) => normalize_target(line.as_str(), fb),
                        Event::End => {
                            f.current = None;
                            None
                        },
                        Event::ReadFailed => {
                            let path = f.current.take();
                            match path {
                                Some(p) => normalize_target(p.as_str(), fb),
                                None => None,
                            }
                        },
                        _ => None,
                    }
                } else if f.next < f.items.len() {
                    match ev {
                        Event::Opened => {
                            f.current = Some(f.items[f.next].clone());
                            f.next = f.next + 1;
                            None
                        },
                        Event::OpenFailed => {
                            let r = normalize_target(f.items[f.next].as_str(), fb);
                            f.next = f.next + 1;
                            r
                        },
                        _ => None,
                    }
                } else {
                    None
                }
            },
        }
    }
}

/// Builds the reader of a list of explicit items (paths or literal targets),
/// falling back to standard input when the list is empty and `use_stdin` holds.
pub fn read_inputs(inputs: Vec<String>, use_stdin: bool, filter_blanks: bool) -> (r: InputReader)
    ensures
        r.wf(),
        r@ == initial_model(inputs@.map_values(|s: String| s@), use_stdin, filter_blanks),
{
    let source = if inputs.len() == 0 && use_stdin {
        assert(inputs@.map_values(|s: String| s@) =~= Seq::empty());
        InputSource::Stdin(StdinIter::new())
    } else {
        InputSource::Files(FileStringIter::new(inputs))
    };
    InputReader { source, filter_blanks }
}

} // verus!
