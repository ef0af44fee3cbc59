use vstd::prelude::*;
use crate::seqs::{lemma_filter_take_step, lemma_map_push};
use crate::syntax::{symbols_of, symbols_view, Symbol, SymbolKind};
use crate::types::{
    entries_view, related_view, Diagnostic, DiagnosticSource, DiagnosticView, Range, Related,
    Severity, Uri,
};
use crate::workspace::{includes, relevant, Document, Workspace};

verus! {

/// The analyses that resolve names across the documents of a project.
#[derive(Debug, Clone, Copy, PartialEq, Eq, Structural)]
pub enum Check {
    /// A citation whose key no bibliography entry of the project has.
    UndefinedCitation,
    /// A bibliography entry that nothing in the project cites.
    UnusedEntry,
    /// A bibliography key that the project defines more than once.
    DuplicateEntry,
    /// A label name that the project defines more than once.
    DuplicateLabel,
    /// A label reference without a definition in the project.
    UndefinedLabel,
    /// A label definition without a reference in the project.
    UnusedLabel,
}

/// The occurrences that a check looks at.
pub open spec fn subject(c: Check) -> SymbolKind {
    match c {
        Check::UndefinedCitation => SymbolKind::Citation,
        Check::UnusedEntry => SymbolKind::Entry,
        Check::DuplicateEntry => SymbolKind::Entry,
        Check::DuplicateLabel => SymbolKind::LabelDefinition,
        Check::UndefinedLabel => SymbolKind::LabelReference,
        Check::UnusedLabel => SymbolKind::LabelDefinition,
    }
}

/// The occurrences that a check counts for each name it looks at.
pub open spec fn target(c: Check) -> SymbolKind {
    match c {
        Check::UndefinedCitation => SymbolKind::Entry,
        Check::UnusedEntry => SymbolKind::Citation,
        Check::DuplicateEntry => SymbolKind::Entry,
        Check::DuplicateLabel => SymbolKind::LabelDefinition,
        Check::UndefinedLabel => SymbolKind::LabelDefinition,
        Check::UnusedLabel => SymbolKind::LabelReference,
    }
}

pub open spec fn is_duplicate_check(c: Check) -> bool {
    c == Check::DuplicateEntry || c == Check::DuplicateLabel
}

/// A duplicate check fires on two or more occurrences, the others on none.
pub open spec fn fires(c: Check, count: int) -> bool {
    if is_duplicate_check(c) {
        count >= 2
    } else {
        count == 0
    }
}

pub open spec fn check_message(c: Check) -> Seq<char> {
    match c {
        Check::UndefinedCitation => "Undefined reference"@,
        Check::UnusedEntry => "Unused entry"@,
        Check::DuplicateEntry => "Duplicate entry key"@,
        Check::DuplicateLabel => "Duplicate label"@,
        Check::UndefinedLabel => "Undefined reference"@,
        Check::UnusedLabel => "Unused label"@,
    }
}

pub open spec fn check_severity(c: Check) -> Severity {
    match c {
        Check::UnusedEntry => Severity::Hint,
        Check::UnusedLabel => Severity::Hint,
        _ => Severity::Error,
    }
}

pub open spec fn check_source(c: Check) -> DiagnosticSource {
    match c {
        Check::UndefinedCitation => DiagnosticSource::Citation,
        Check::UnusedEntry => DiagnosticSource::Citation,
        Check::DuplicateEntry => DiagnosticSource::Citation,
        _ => DiagnosticSource::Label,
    }
}

/// The diagnostic a check reports at `range`; a duplicate names every
/// occurrence of the name in the project.
pub open spec fn check_diagnostic(c: Check, range: Range, sites: Seq<(Seq<char>, Range)>) -> DiagnosticView {
    DiagnosticView {
        range,
        severity: check_severity(c),
        source: check_source(c),
        message: check_message(c),
        related: if is_duplicate_check(c) {
            sites
        } else {
            Seq::empty()
        },
    }
}

pub open spec fn named(name: Seq<char>) -> spec_fn((Seq<char>, Range)) -> bool {
    |s: (Seq<char>, Range)| s.0 == name
}

pub open spec fn located(uri: Seq<char>) -> spec_fn((Seq<char>, Range)) -> (Seq<char>, Range) {
    |s: (Seq<char>, Range)| (uri, s.1)
}

/// The occurrences of `kind` named `name` in one document, in document order.
pub open spec fn doc_sites(doc: Document, kind: SymbolKind, name: Seq<char>) -> Seq<(Seq<char>, Range)> {
    symbols_of(doc.tree, kind).filter(named(name)).map_values(located(doc.uri@))
}

/// The occurrences of `kind` named `name` in the members of `proj` among the
/// first `j` documents, in workspace order.
pub open spec fn sites_upto(ws: Workspace, proj: Set<int>, kind: SymbolKind, name: Seq<char>, j: int) -> Seq<(Seq<char>, Range)>
    decreases j,
{
    if j <= 0 {
        Seq::empty()
    } else {
        sites_upto(ws, proj, kind, name, j - 1) + if proj.contains(j - 1) {
            doc_sites(ws.docs()[j - 1], kind, name)
        } else {
            Seq::empty()
        }
    }
}

/// The occurrences of `kind` named `name` in the project of document `d`.
pub open spec fn sites(ws: Workspace, d: int, kind: SymbolKind, name: Seq<char>) -> Seq<(Seq<char>, Range)> {
    sites_upto(ws, ws.project_set(d), kind, name, ws.docs().len() as int)
}

pub open spec fn fires_at(ws: Workspace, d: int, c: Check) -> spec_fn((Seq<char>, Range)) -> bool {
    |s: (Seq<char>, Range)| fires(c, sites(ws, d, target(c), s.0).len() as int)
}

pub open spec fn report_at(ws: Workspace, d: int, c: Check) -> spec_fn((Seq<char>, Range)) -> (Seq<char>, DiagnosticView) {
    |s: (Seq<char>, Range)| (ws.docs()[d].uri@, check_diagnostic(c, s.1, sites(ws, d, target(c), s.0)))
}

/// What check `c` reports on document `d`, in document order.
pub open spec fn check_results(ws: Workspace, d: int, c: Check) -> Seq<(Seq<char>, DiagnosticView)> {
    symbols_of(ws.docs()[d].tree, subject(c)).filter(fires_at(ws, d, c)).map_values(report_at(ws, d, c))
}

/// What the checks `cs` report on document `d`, one check after the other.
pub open spec fn doc_results(ws: Workspace, d: int, cs: Seq<Check>) -> Seq<(Seq<char>, DiagnosticView)>
    decreases cs.len(),
{
    if cs.len() == 0 {
        Seq::empty()
    } else {
        doc_results(ws, d, cs.drop_last()) + check_results(ws, d, cs.last())
    }
}

/// What the checks `cs` report on the relevant documents among the first `k`.
pub open spec fn results_upto(ws: Workspace, cs: Seq<Check>, k: int) -> Seq<(Seq<char>, DiagnosticView)>
    decreases k,
{
    if k <= 0 {
        Seq::empty()
    } else {
        results_upto(ws, cs, k - 1) + if relevant(ws.docs()[k - 1].owner) {
            doc_results(ws, k - 1, cs)
        } else {
            Seq::empty()
        }
    }
}

/// What the checks `cs` report on every relevant document of the workspace.
pub open spec fn workspace_results(ws: Workspace, cs: Seq<Check>) -> Seq<(Seq<char>, DiagnosticView)> {
    results_upto(ws, cs, ws.docs().len() as int)
}

impl Check {
    /// The occurrences that this check looks at.
    pub fn subject(self) -> (r: SymbolKind)
        ensures
            r == subject(self),
    {
        match self {
            Check::UndefinedCitation => SymbolKind::Citation,
            Check::UnusedEntry => SymbolKind::Entry,
            Check::DuplicateEntry => SymbolKind::Entry,
            Check::DuplicateLabel => SymbolKind::LabelDefinition,
            Check::UndefinedLabel => SymbolKind::LabelReference,
            Check::UnusedLabel => SymbolKind::LabelDefinition,
        }
    }

    /// The occurrences that this check counts for each name it looks at.
    pub fn target(self) -> (r: SymbolKind)
        ensures
            r == target(self),
    {
        match self {
            Check::UndefinedCitation => SymbolKind::Entry,
            Check::UnusedEntry => SymbolKind::Citation,
            Check::DuplicateEntry => SymbolKind::Entry,
            Check::DuplicateLabel => SymbolKind::LabelDefinition,
            Check::UndefinedLabel => SymbolKind::LabelDefinition,
            Check::UnusedLabel => SymbolKind::LabelReference,
        }
    }
}

fn message(c: Check) -> (r: &'static str)
    ensures
        r@ == check_message(c),
{
    match c {
        Check::UndefinedCitation => "Undefined reference",
        Check::UnusedEntry => "Unused entry",
        Check::DuplicateEntry => "Duplicate entry key",
        Check::DuplicateLabel => "Duplicate label",
        Check::UndefinedLabel => "Undefined reference",
        Check::UnusedLabel => "Unused label",
    }
}

fn make_diagnostic(c: Check, range: Range, sites: Vec<Related>) -> (r: Diagnostic)
    ensures
        r@ == check_diagnostic(c, range, related_view(sites@)),
{
    let severity = match c {
        Check::UnusedEntry => Severity::Hint,
        Check::UnusedLabel => Severity::Hint,
        _ => Severity::Error,
    };
    let source = match c {
        Check::UndefinedCitation => DiagnosticSource::Citation,
        Check::UnusedEntry => DiagnosticSource::Citation,
        Check::DuplicateEntry => DiagnosticSource::Citation,
        _ => DiagnosticSource::Label,
    };
    let mut r = Diagnostic::new(range, severity, source, message(c));
    if c == Check::DuplicateEntry || c == Check::DuplicateLabel {
        r.related = sites;
    }
    r
}

/// The occurrences of `kind` named `name` in the project of document `d`,
/// given as one flag per document.
pub(crate) fn project_sites(ws: &Workspace, d: usize, proj: &Vec<bool>, kind: SymbolKind, name: &String) -> (r: Vec<Related>)
    requires
        d < ws.docs().len(),
        proj@.len() == ws.docs().len(),
        forall|j: int| 0 <= j < ws.docs().len() ==> proj@[j] == #[trigger] ws.project_set(d as int).contains(j),
    ensures
        related_view(r@) == sites(*ws, d as int, kind, name@),
{
    let ghost p = ws.project_set(d as int);
    let mut r: Vec<Related> = Vec::new();
    let mut j: usize = 0;
    while j < ws.documents.len()
        invariant
            j <= ws.docs().len(),
            p == ws.project_set(d as int),
            proj@.len() == ws.docs().len(),
            forall|jj: int| 0 <= jj < ws.docs().len() ==> proj@[jj] == #[trigger] p.contains(jj),
            related_view(r@) == sites_upto(*ws, p, kind, name@, j as int),
        decreases ws.docs().len() - j,
    {
        let doc = &ws.documents[j];
        if proj[j] {
            let syms = doc.tree.symbols(kind);
            let ghost start = r@;
            let ghost all = symbols_view(syms@);
            let mut i: usize = 0;
            while i < syms.len()
                invariant
                    i <= syms@.len(),
                    all == symbols_view(syms@),
                    all == symbols_of(doc.tree, kind),
                    related_view(r@) == related_view(start) + all.take(i as int).filter(named(name@)).map_values(
                        located(doc.uri@),
                    ),
                decreases syms@.len() - i,
            {
                proof {
                    lemma_filter_take_step(all, named(name@), i as int);
                }
                if syms[i].name == *name {
                    let ghost before = r@;
                    r.push(Related { uri: doc.uri.duplicate(), range: syms[i].range });
                    proof {
                        assert(r@ == before.push(r@.last()));
                        lemma_map_push(before, r@.last(), |x: Related| x.view());
                        lemma_map_push(all.take(i as int).filter(named(name@)), all[i as int], located(doc.uri@));
                        assert(related_view(r@) =~= related_view(start) + all.take(i + 1).filter(named(name@)).map_values(
                            located(doc.uri@)));
                    }
                }
                i = i + 1;
            }
            proof {
                assert(all.take(i as int) == all);
            }
        }
        proof {
            assert(sites_upto(*ws, p, kind, name@, j + 1) == sites_upto(*ws, p, kind, name@, j as int) + if p.contains(j as int) {
                doc_sites(ws.docs()[j as int], kind, name@)
            } else {
                Seq::<(Seq<char>, Range)>::empty()
            });
            if !p.contains(j as int) {
                assert(related_view(r@) =~= sites_upto(*ws, p, kind, name@, j + 1));
            }
        }
        j = j + 1;
    }
    r
}

/// Appends what check `c` reports on document `d` to `out`.
fn run_check(ws: &Workspace, d: usize, proj: &Vec<bool>, c: Check, out: &mut Vec<(Uri, Diagnostic)>)
    requires
        d < ws.docs().len(),
        proj@.len() == ws.docs().len(),
        forall|j: int| 0 <= j < ws.docs().len() ==> proj@[j] == #[trigger] ws.project_set(d as int).contains(j),
    ensures
        entries_view(final(out)@) == entries_view(old(out)@) + check_results(*ws, d as int, c),
{
    let doc = &ws.documents[d];
    let syms = doc.tree.symbols(c.subject());
    let ghost all = symbols_view(syms@);
    let ghost start = out@;
    let mut i: usize = 0;
    while i < syms.len()
        invariant
            d < ws.docs().len(),
            doc == ws.docs()[d as int],
            proj@.len() == ws.docs().len(),
            forall|j: int| 0 <= j < ws.docs().len() ==> proj@[j] == #[trigger] ws.project_set(d as int).contains(j),
            i <= syms@.len(),
            all == symbols_view(syms@),
            all == symbols_of(doc.tree, subject(c)),
            entries_view(out@) == entries_view(start) + all.take(i as int).filter(fires_at(*ws, d as int, c)).map_values(
                report_at(*ws, d as int, c),
            ),
        decreases syms@.len() - i,
    {
        proof {
            lemma_filter_take_step(all, fires_at(*ws, d as int, c), i as int);
        }
        let found = project_sites(ws, d, proj, c.target(), &syms[i].name);
        let n = found.len();
        let fire = if c == Check::DuplicateEntry || c == Check::DuplicateLabel {
            n >= 2
        } else {
            n == 0
        };
        proof {
            assert(all[i as int] == syms@[i as int].view());
            assert(related_view(found@).len() == found@.len());
        }
        if fire {
            let diagnostic = make_diagnostic(c, syms[i].range, found);
            let ghost before = out@;
            out.push((doc.uri.duplicate(), diagnostic));
            proof {
                assert(out@ == before.push(out@.last()));
                lemma_map_push(before, out@.last(), |e: (Uri, Diagnostic)| (e.0@, e.1@));
                lemma_map_push(
                    all.take(i as int).filter(fires_at(*ws, d as int, c)),
                    all[i as int],
                    report_at(*ws, d as int, c),
                );
                assert(entries_view(out@) =~= entries_view(start) + all.take(i + 1).filter(
                    fires_at(*ws, d as int, c),
                ).map_values(report_at(*ws, d as int, c)));
            }
        }
        i = i + 1;
    }
    proof {
        assert(all.take(i as int) == all);
    }
}

/// Appends what the checks `checks` report on every relevant document to
/// `out`: document by document, and on each document check by check.
pub fn run_checks(ws: &Workspace, checks: &Vec<Check>, out: &mut Vec<(Uri, Diagnostic)>)
    ensures
        entries_view(final(out)@) == entries_view(old(out)@) + workspace_results(*ws, checks@),
{
    let ghost start = out@;
    let mut d: usize = 0;
    while d < ws.documents.len()
        invariant
            d <= ws.docs().len(),
            entries_view(out@) == entries_view(start) + results_upto(*ws, checks@, d as int),
        decreases ws.docs().len() - d,
    {
        let ghost at_doc = out@;
        if ws.documents[d].is_relevant() {
            let proj = ws.project(d);
            let mut k: usize = 0;
            while k < checks.len()
                invariant
                    d < ws.docs().len(),
                    k <= checks@.len(),
                    proj@.len() == ws.docs().len(),
                    forall|j: int| 0 <= j < ws.docs().len() ==> proj@[j] == #[trigger] ws.project_set(d as int).contains(j),
                    entries_view(out@) == entries_view(at_doc) + doc_results(*ws, d as int, checks@.take(k as int)),
                decreases checks@.len() - k,
            {
                let ghost before = out@;
                run_check(ws, d, &proj, checks[k], out);
                proof {
                    assert(checks@.take(k + 1).drop_last() == checks@.take(k as int));
                    assert(entries_view(out@) =~= entries_view(at_doc) + doc_results(*ws, d as int, checks@.take(k + 1)));
                }
                k = k + 1;
            }
            proof {
                assert(checks@.take(k as int) == checks@);
                assert(entries_view(out@) =~= entries_view(start) + results_upto(*ws, checks@, d + 1));
            }
        } else {
            proof {
                assert(entries_view(out@) =~= entries_view(start) + results_upto(*ws, checks@, d + 1));
            }
        }
        d = d + 1;
    }
}

/// When one document includes another, each lies in the project of the
/// other, and the two projects are one.
pub proof fn lemma_include_shares_project(ws: Workspace, a: int, b: int)
    requires
        0 <= a < ws.docs().len(),
        0 <= b < ws.docs().len(),
        includes(ws.docs()[a], ws.docs()[b].uri@),
    ensures
        ws.project_set(a).contains(b),
        ws.project_set(b).contains(a),
        ws.project_set(a) == ws.project_set(b),
{
    assert(ws.linked(a, b));
    assert(ws.linked(b, a));
    assert forall|s: Set<int>| #[trigger] ws.closed_under_links(s) && s.contains(a) implies s.contains(b) by {
        assert(s.contains(a) && ws.linked(a, b));
    }
    assert forall|s: Set<int>| #[trigger] ws.closed_under_links(s) && s.contains(b) implies s.contains(a) by {
        assert(s.contains(b) && ws.linked(b, a));
    }
    assert forall|j: int| ws.project_set(a).contains(j) implies ws.project_set(b).contains(j) by {
        assert forall|s: Set<int>| #[trigger] ws.closed_under_links(s) && s.contains(b) implies s.contains(j) by {
            assert(s.contains(a));
        }
    }
    assert forall|j: int| ws.project_set(b).contains(j) implies ws.project_set(a).contains(j) by {
        assert forall|s: Set<int>| #[trigger] ws.closed_under_links(s) && s.contains(a) implies s.contains(j) by {
            assert(s.contains(b));
        }
    }
    assert(ws.project_set(a) =~= ws.project_set(b));
}

proof fn lemma_site_found_upto(ws: Workspace, proj: Set<int>, kind: SymbolKind, name: Seq<char>, j: int, k: int, upto: int)
    requires
        0 <= j < upto,
        proj.contains(j),
        0 <= k < symbols_of(ws.docs()[j].tree, kind).len(),
        symbols_of(ws.docs()[j].tree, kind)[k].0 == name,
    ensures
        sites_upto(ws, proj, kind, name, upto).len() > 0,
    decreases upto,
{
    broadcast use vstd::seq_lib::group_filter_ensures;
    if j < upto - 1 {
        lemma_site_found_upto(ws, proj, kind, name, j, k, upto - 1);
    } else {
        let syms = symbols_of(ws.docs()[j].tree, kind);
        syms.lemma_filter_contains(named(name), k);
        assert(doc_sites(ws.docs()[j], kind, name).len() > 0);
    }
}

/// An occurrence in any member of a project is among the project's sites
/// of that name.
pub proof fn lemma_site_found(ws: Workspace, d: int, j: int, kind: SymbolKind, k: int)
    requires
        0 <= j < ws.docs().len(),
        ws.project_set(d).contains(j),
        0 <= k < symbols_of(ws.docs()[j].tree, kind).len(),
    ensures
        sites(ws, d, kind, symbols_of(ws.docs()[j].tree, kind)[k].0).len() > 0,
{
    lemma_site_found_upto(ws, ws.project_set(d), kind, symbols_of(ws.docs()[j].tree, kind)[k].0, j, k, ws.docs().len() as int);
}

/// Document `a` includes `b`; a label defined in `b` and referenced in `a`
/// is neither undefined in `a` nor unused in `b`, and every name resolves
/// over the same documents from either side.
pub proof fn lemma_label_across_include(ws: Workspace, a: int, b: int, kd: int, kr: int)
    requires
        0 <= a < ws.docs().len(),
        0 <= b < ws.docs().len(),
        includes(ws.docs()[a], ws.docs()[b].uri@),
        0 <= kd < symbols_of(ws.docs()[b].tree, SymbolKind::LabelDefinition).len(),
        0 <= kr < symbols_of(ws.docs()[a].tree, SymbolKind::LabelReference).len(),
        symbols_of(ws.docs()[b].tree, SymbolKind::LabelDefinition)[kd].0
            == symbols_of(ws.docs()[a].tree, SymbolKind::LabelReference)[kr].0,
    ensures
        ({
            let name = symbols_of(ws.docs()[b].tree, SymbolKind::LabelDefinition)[kd].0;
            &&& !fires(Check::UndefinedLabel, sites(ws, a, target(Check::UndefinedLabel), name).len() as int)
            &&& !fires(Check::UnusedLabel, sites(ws, b, target(Check::UnusedLabel), name).len() as int)
        }),
        forall|kind: SymbolKind, n: Seq<char>| #[trigger] sites(ws, a, kind, n) == sites(ws, b, kind, n),
{
    lemma_include_shares_project(ws, a, b);
    lemma_site_found(ws, a, b, SymbolKind::LabelDefinition, kd);
    assert(ws.project_set(a).contains(a)) by {
        assert forall|s: Set<int>| #[trigger] ws.closed_under_links(s) && s.contains(a) implies s.contains(a) by {}
    }
    lemma_site_found(ws, b, a, SymbolKind::LabelReference, kr);
}

} // verus!
