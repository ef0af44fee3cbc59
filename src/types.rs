use vstd::prelude::*;

verus! {

/// An opaque document identifier, compared by its text.
#[derive(Debug)]
pub struct Uri {
    pub text: String,
}

impl View for Uri {
    type V = Seq<char>;

    open spec fn view(&self) -> Seq<char> {
        self.text@
    }
}

impl Uri {
    pub fn new(text: &str) -> (r: Uri)
        ensures
            r@ == text@,
    {
        Uri { text: text.to_owned() }
    }

    pub fn duplicate(&self) -> (r: Uri)
        ensures
            r@ == self@,
    {
        Uri { text: self.text.clone() }
    }

    pub fn same(&self, other: &Uri) -> (r: bool)
        ensures
            r == (self@ == other@),
    {
        self.text == other.text
    }
}

/// Who owns a document.
#[derive(Debug, Clone, Copy, PartialEq, Eq, Structural)]
pub enum Owner {
    /// Open in the editor and editable by the user.
    Client,
    /// Managed by the server itself.
    Server,
    /// Shipped with the installed distribution; never analyzed.
    Distro,
}

#[derive(Debug, Clone, Copy, PartialEq, Eq, Structural)]
pub struct Position {
    pub line: u32,
    pub character: u32,
}

#[derive(Debug, Clone, Copy, PartialEq, Eq, Structural)]
pub struct Range {
    pub start: Position,
    pub end: Position,
}

pub open spec fn position_le(a: Position, b: Position) -> bool {
    a.line < b.line || (a.line == b.line && a.character <= b.character)
}

impl Position {
    pub fn new(line: u32, character: u32) -> (r: Position)
        ensures
            r.line == line,
            r.character == character,
    {
        Position { line, character }
    }

    pub fn le(&self, other: &Position) -> (r: bool)
        ensures
            r == position_le(*self, *other),
    {
        self.line < other.line || (self.line == other.line && self.character <= other.character)
    }
}

impl Range {
    pub fn new(start: Position, end: Position) -> (r: Range)
        ensures
            r.start == start,
            r.end == end,
    {
        Range { start, end }
    }

    pub open spec fn spec_contains(self, p: Position) -> bool {
        position_le(self.start, p) && position_le(p, self.end)
    }

    /// Whether the position lies within the range, both ends included.
    pub fn contains(&self, p: Position) -> (r: bool)
        ensures
            r == self.spec_contains(p),
    {
        self.start.le(&p) && p.le(&self.end)
    }
}

#[derive(Debug, Clone, Copy, PartialEq, Eq, Structural)]
pub enum Severity {
    Error,
    Warning,
    Information,
    Hint,
}

/// The analysis or tool a diagnostic comes from.
#[derive(Debug, Clone, Copy, PartialEq, Eq, Structural)]
pub enum DiagnosticSource {
    Grammar,
    Chktex,
    Build,
    Citation,
    Label,
}

/// A place in another (or the same) document that a diagnostic points to.
#[derive(Debug)]
pub struct Related {
    pub uri: Uri,
    pub range: Range,
}

impl Related {
    pub open spec fn view(self) -> (Seq<char>, Range) {
        (self.uri@, self.range)
    }

    pub fn duplicate(&self) -> (r: Related)
        ensures
            r.view() == self.view(),
    {
        Related { uri: self.uri.duplicate(), range: self.range }
    }
}

#[derive(Debug)]
pub struct Diagnostic {
    pub range: Range,
    pub severity: Severity,
    pub source: DiagnosticSource,
    pub message: String,
    pub related: Vec<Related>,
}

/// The mathematical value of a diagnostic.
pub struct DiagnosticView {
    pub range: Range,
    pub severity: Severity,
    pub source: DiagnosticSource,
    pub message: Seq<char>,
    pub related: Seq<(Seq<char>, Range)>,
}

pub open spec fn related_view(r: Seq<Related>) -> Seq<(Seq<char>, Range)> {
    r.map_values(|x: Related| x.view())
}

impl View for Diagnostic {
    type V = DiagnosticView;

    open spec fn view(&self) -> DiagnosticView {
        DiagnosticView {
            range: self.range,
            severity: self.severity,
            source: self.source,
            message: self.message@,
            related: related_view(self.related@),
        }
    }
}

pub fn duplicate_related(v: &Vec<Related>) -> (r: Vec<Related>)
    ensures
        related_view(r@) == related_view(v@),
{
    let mut r: Vec<Related> = Vec::new();
    let mut i: usize = 0;
    while i < v.len()
        invariant
            i <= v@.len(),
            related_view(r@) == related_view(v@.take(i as int)),
        decreases v@.len() - i,
    {
        let ghost before = r@;
        r.push(v[i].duplicate());
        proof {
            assert(v@.take(i + 1) == v@.take(i as int).push(v@[i as int]));
            assert(related_view(v@.take(i + 1)) =~= related_view(v@.take(i as int)).push(v@[i as int].view()));
            assert(related_view(r@) =~= related_view(before).push(r@[i as int].view()));
        }
        i = i + 1;
    }
    proof {
        assert(v@.take(i as int) == v@);
    }
    r
}

impl Diagnostic {
    pub fn new(range: Range, severity: Severity, source: DiagnosticSource, message: &str) -> (r: Diagnostic)
        ensures
            r@ == (DiagnosticView {
                range,
                severity,
                source,
                message: message@,
                related: Seq::empty(),
            }),
    {
        let r = Diagnostic { range, severity, source, message: message.to_owned(), related: Vec::new() };
        proof {
            assert(related_view(r.related@) =~= Seq::empty());
        }
        r
    }

    pub fn duplicate(&self) -> (r: Diagnostic)
        ensures
            r@ == self@,
    {
        Diagnostic {
            range: self.range,
            severity: self.severity,
            source: self.source,
            message: self.message.clone(),
            related: duplicate_related(&self.related),
        }
    }
}

pub open spec fn diagnostics_view(s: Seq<Diagnostic>) -> Seq<DiagnosticView> {
    s.map_values(|d: Diagnostic| d@)
}

/// The view of a flat list of diagnostics, each under the document it concerns.
pub open spec fn entries_view(s: Seq<(Uri, Diagnostic)>) -> Seq<(Seq<char>, DiagnosticView)> {
    s.map_values(|e: (Uri, Diagnostic)| (e.0@, e.1@))
}

} // verus!
