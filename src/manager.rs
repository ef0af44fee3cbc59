use vstd::prelude::*;
use multimap::MultiMap;
use crate::analysis::{run_checks, workspace_results, Check};
use crate::filter::{any_match, filter_regex_patterns, passes_patterns};
use crate::seqs::{lemma_filter_take_step, lemma_map_push};
use crate::store::{list_or_empty, store_contents, store_get, store_insert, store_new, store_remove};
use crate::syntax::SyntaxTree;
use crate::types::{diagnostics_view, entries_view, Diagnostic, DiagnosticView, Owner, Uri};
use crate::workspace::{relevant, Document, Workspace};

verus! {

/// What a build log says about the documents it mentions.
#[derive(Debug)]
pub struct BuildLog {
    pub diagnostics: Vec<(Uri, Diagnostic)>,
}

pub open spec fn under(uri: Seq<char>) -> spec_fn(DiagnosticView) -> (Seq<char>, DiagnosticView) {
    |d: DiagnosticView| (uri, d)
}

/// The entries of `s` whose key is not `uri`.
pub open spec fn without<V>(s: Seq<(Seq<char>, V)>, uri: Seq<char>) -> Seq<(Seq<char>, V)> {
    s.filter(not_under(uri))
}

pub open spec fn not_under<V>(uri: Seq<char>) -> spec_fn((Seq<char>, V)) -> bool {
    |e: (Seq<char>, V)| e.0 != uri
}

/// The structural problems recorded in a tree.
pub open spec fn tree_errors(tree: SyntaxTree) -> Seq<DiagnosticView> {
    match tree {
        SyntaxTree::Markup(t) => diagnostics_view(t.errors@),
        SyntaxTree::Bibliography(t) => diagnostics_view(t.errors@),
    }
}

/// The grammar store once the document at `uri`, with problems `errors`,
/// has been analyzed again: its earlier list is gone, the new one, if not
/// empty, takes its place.
pub open spec fn grammar_after(
    g: Map<Seq<char>, Seq<DiagnosticView>>,
    uri: Seq<char>,
    errors: Seq<DiagnosticView>,
) -> Map<Seq<char>, Seq<DiagnosticView>> {
    if errors.len() == 0 {
        g.remove(uri)
    } else {
        g.insert(uri, errors)
    }
}

/// Diagnostics gathered by document, each list in the order given.
pub open spec fn group(s: Seq<(Seq<char>, DiagnosticView)>) -> Map<Seq<char>, Seq<DiagnosticView>>
    decreases s.len(),
{
    if s.len() == 0 {
        Map::empty()
    } else {
        let m = group(s.drop_last());
        m.insert(s.last().0, list_or_empty(m, s.last().0).push(s.last().1))
    }
}

/// The build-log store once the document at `uri` has been analyzed again,
/// with the log it produced, if any.
pub open spec fn build_after(
    b: Seq<(Seq<char>, Map<Seq<char>, Seq<DiagnosticView>>)>,
    uri: Seq<char>,
    log: Option<Map<Seq<char>, Seq<DiagnosticView>>>,
) -> Seq<(Seq<char>, Map<Seq<char>, Seq<DiagnosticView>>)> {
    match log {
        Some(l) => without(b, uri).push((uri, l)),
        None => without(b, uri),
    }
}

pub open spec fn is_first_key<V>(c: Seq<(Seq<char>, V)>, key: Seq<char>, i: int) -> bool {
    0 <= i < c.len() && c[i].0 == key && forall|j: int| 0 <= j < i ==> (#[trigger] c[j]).0 != key
}

/// `c` with the list under `key` replaced by `val`, or `val` added last
/// when there is none.
pub open spec fn replace_or_push<V>(c: Seq<(Seq<char>, V)>, key: Seq<char>, val: V) -> Seq<(Seq<char>, V)> {
    if exists|i: int| is_first_key(c, key, i) {
        c.update(choose|i: int| is_first_key(c, key, i), (key, val))
    } else {
        c.push((key, val))
    }
}

/// The lists of `m` for the first `k` documents of the workspace, document
/// by document.
pub open spec fn in_workspace_upto(ws: Workspace, m: Map<Seq<char>, Seq<DiagnosticView>>, k: int) -> Seq<(Seq<char>, DiagnosticView)>
    decreases k,
{
    if k <= 0 {
        Seq::empty()
    } else {
        let uri = ws.docs()[k - 1].uri@;
        in_workspace_upto(ws, m, k - 1) + list_or_empty(m, uri).map_values(under(uri))
    }
}

/// The lists of `m` for the documents of the workspace, in workspace order.
pub open spec fn in_workspace(ws: Workspace, m: Map<Seq<char>, Seq<DiagnosticView>>) -> Seq<(Seq<char>, DiagnosticView)> {
    in_workspace_upto(ws, m, ws.docs().len() as int)
}

/// What every build log says about the documents of the workspace, log
/// after log.
pub open spec fn flatten_logs(ws: Workspace, b: Seq<(Seq<char>, Map<Seq<char>, Seq<DiagnosticView>>)>) -> Seq<(Seq<char>, DiagnosticView)>
    decreases b.len(),
{
    if b.len() == 0 {
        Seq::empty()
    } else {
        flatten_logs(ws, b.drop_last()) + in_workspace(ws, b.last().1)
    }
}

/// The linter diagnostics of the documents that the client owns.
pub open spec fn visible_chktex(ws: Workspace, c: Seq<(Seq<char>, Seq<DiagnosticView>)>) -> Seq<(Seq<char>, DiagnosticView)>
    decreases c.len(),
{
    if c.len() == 0 {
        Seq::empty()
    } else {
        visible_chktex(ws, c.drop_last()) + if ws.owner_of(c.last().0) == Some(Owner::Client) {
            c.last().1.map_values(under(c.last().0))
        } else {
            Seq::empty()
        }
    }
}

pub open spec fn citation_checks() -> Seq<Check> {
    seq![Check::UndefinedCitation, Check::UnusedEntry]
}

pub open spec fn label_usage_checks() -> Seq<Check> {
    seq![Check::UndefinedLabel, Check::UnusedLabel]
}

/// What the workspace-wide analyses report: citations document by
/// document, then duplicate entries, duplicate labels, and undefined or
/// unused labels.
pub open spec fn analyses(ws: Workspace) -> Seq<(Seq<char>, DiagnosticView)> {
    workspace_results(ws, citation_checks()) + workspace_results(ws, seq![Check::DuplicateEntry])
        + workspace_results(ws, seq![Check::DuplicateLabel]) + workspace_results(ws, label_usage_checks())
}

/// Whether a diagnostic is shown: its document takes part in diagnostics
/// and its message passes the configured patterns.
pub open spec fn shown(ws: Workspace) -> spec_fn((Seq<char>, DiagnosticView)) -> bool {
    |e: (Seq<char>, DiagnosticView)|
        ws.uri_relevant(e.0) && passes_patterns(e.1.message, ws.config.allowed_patterns@, ws.config.ignored_patterns@)
}

/// Everything gathered before filtering: the stored grammar, build-log and
/// visible linter diagnostics, then the workspace-wide analyses.
pub open spec fn gathered(
    ws: Workspace,
    g: Map<Seq<char>, Seq<DiagnosticView>>,
    b: Seq<(Seq<char>, Map<Seq<char>, Seq<DiagnosticView>>)>,
    c: Seq<(Seq<char>, Seq<DiagnosticView>)>,
) -> Seq<(Seq<char>, DiagnosticView)> {
    in_workspace(ws, g) + flatten_logs(ws, b) + visible_chktex(ws, c) + analyses(ws)
}

/// Holds the diagnostics of a workspace: those recomputed on each edit,
/// those a linter reported, and those read from build logs.
#[derive(Debug)]
pub struct Manager {
    grammar: MultiMap<String, Diagnostic>,
    chktex: Vec<(Uri, Vec<Diagnostic>)>,
    build_log: Vec<(Uri, MultiMap<String, Diagnostic>)>,
}

/// Copies `src` to the end of `out`, each under `uri`.
fn append_under(out: &mut Vec<(Uri, Diagnostic)>, uri: &Uri, src: &Vec<Diagnostic>)
    ensures
        entries_view(final(out)@) == entries_view(old(out)@) + diagnostics_view(src@).map_values(under(uri@)),
{
    let ghost start = out@;
    let ghost all = diagnostics_view(src@).map_values(under(uri@));
    let mut i: usize = 0;
    while i < src.len()
        invariant
            i <= src@.len(),
            all == diagnostics_view(src@).map_values(under(uri@)),
            entries_view(out@) == entries_view(start) + all.take(i as int),
        decreases src@.len() - i,
    {
        let ghost before = out@;
        out.push((uri.duplicate(), src[i].duplicate()));
        proof {
            assert(out@ == before.push(out@.last()));
            lemma_map_push(before, out@.last(), |e: (Uri, Diagnostic)| (e.0@, e.1@));
            assert(entries_view(out@) =~= entries_view(start) + all.take(i + 1));
        }
        i = i + 1;
    }
    proof {
        assert(all.take(i as int) == all);
    }
}

/// Copies to the end of `out` the lists of `m` for the documents of the
/// workspace, in workspace order.
fn append_store(out: &mut Vec<(Uri, Diagnostic)>, ws: &Workspace, m: &MultiMap<String, Diagnostic>)
    ensures
        entries_view(final(out)@) == entries_view(old(out)@) + in_workspace(*ws, store_contents(*m)),
{
    let ghost start = out@;
    let ghost c = store_contents(*m);
    let mut j: usize = 0;
    while j < ws.documents.len()
        invariant
            j <= ws.docs().len(),
            c == store_contents(*m),
            entries_view(out@) == entries_view(start) + in_workspace_upto(*ws, c, j as int),
        decreases ws.docs().len() - j,
    {
        let uri = &ws.documents[j].uri;
        let ghost before = out@;
        match store_get(m, &uri.text) {
            Some(list) => {
                append_under(out, uri, list);
            },
            None => {
                proof {
                    assert(list_or_empty(c, uri@).map_values(under(uri@)) =~= Seq::empty());
                }
            },
        }
        proof {
            assert(entries_view(out@) =~= entries_view(start) + in_workspace_upto(*ws, c, j + 1));
        }
        j = j + 1;
    }
}

pub open spec fn log_view(l: Option<&BuildLog>) -> Option<Map<Seq<char>, Seq<DiagnosticView>>> {
    match l {
        Some(l) => Some(group(entries_view(l.diagnostics@))),
        None => None,
    }
}

/// The diagnostics of a build log, gathered by document.
fn group_log(log: &BuildLog) -> (r: MultiMap<String, Diagnostic>)
    ensures
        store_contents(r) == group(entries_view(log.diagnostics@)),
{
    let ghost all = entries_view(log.diagnostics@);
    let mut m = store_new();
    proof {
        assert(all.take(0) =~= Seq::empty());
        assert(store_contents(m) =~= group(all.take(0)));
    }
    let mut i: usize = 0;
    while i < log.diagnostics.len()
        invariant
            i <= log.diagnostics@.len(),
            all == entries_view(log.diagnostics@),
            store_contents(m) == group(all.take(i as int)),
        decreases log.diagnostics@.len() - i,
    {
        let entry = &log.diagnostics[i];
        store_insert(&mut m, entry.0.text.clone(), entry.1.duplicate());
        proof {
            assert(all.take(i + 1).drop_last() =~= all.take(i as int));
            assert(all.take(i + 1).last() == all[i as int]);
        }
        i = i + 1;
    }
    proof {
        assert(all.take(i as int) == all);
    }
    m
}

impl Manager {
    /// The grammar store: for each document, its list of diagnostics.
    pub closed spec fn grammar_view(&self) -> Map<Seq<char>, Seq<DiagnosticView>> {
        store_contents(self.grammar)
    }

    /// The linter store: one list per document.
    pub closed spec fn chktex_view(&self) -> Seq<(Seq<char>, Seq<DiagnosticView>)> {
        self.chktex@.map_values(|e: (Uri, Vec<Diagnostic>)| (e.0@, diagnostics_view(e.1@)))
    }

    /// The build-log store: under the document that produced each log, what
    /// the log says about each document it mentions.
    pub closed spec fn build_view(&self) -> Seq<(Seq<char>, Map<Seq<char>, Seq<DiagnosticView>>)> {
        self.build_log@.map_values(|e: (Uri, MultiMap<String, Diagnostic>)| (e.0@, store_contents(e.1)))
    }

    /// What `get` returns on `ws`, before it is gathered by document.
    pub open spec fn spec_get(&self, ws: Workspace) -> Seq<(Seq<char>, DiagnosticView)> {
        gathered(ws, self.grammar_view(), self.build_view(), self.chktex_view()).filter(shown(ws))
    }

    /// An empty manager.
    pub fn new() -> (r: Manager)
        ensures
            r.grammar_view() == Map::<Seq<char>, Seq<DiagnosticView>>::empty(),
            r.chktex_view().len() == 0,
            r.build_view().len() == 0,
    {
        let r = Manager { grammar: store_new(), chktex: Vec::new(), build_log: Vec::new() };
        proof {
            assert(r.chktex_view() =~= Seq::empty());
            assert(r.build_view() =~= Seq::empty());
        }
        r
    }

    /// Replaces the diagnostics derived from the document: its structural
    /// problems, and the build log it produced, if any. A document of the
    /// distribution is left alone.
    pub fn update_syntax(&mut self, document: &Document, log: Option<&BuildLog>)
        ensures
            !relevant(document.owner) ==> *final(self) == *old(self),
            relevant(document.owner) ==> {
                &&& final(self).grammar_view() == grammar_after(old(self).grammar_view(), document.uri@, tree_errors(document.tree))
                &&& final(self).build_view() == build_after(old(self).build_view(), document.uri@, log_view(log))
                &&& final(self).chktex_view() == old(self).chktex_view()
            },
    {
        if !document.is_relevant() {
            return;
        }
        let key = &document.uri.text;
        store_remove(&mut self.grammar, key);
        let errors = match &document.tree {
            SyntaxTree::Markup(t) => &t.errors,
            SyntaxTree::Bibliography(t) => &t.errors,
        };
        let ghost g0 = old(self).grammar_view();
        let ghost ev = diagnostics_view(errors@);
        proof {
            assert(ev == tree_errors(document.tree));
        }
        let mut i: usize = 0;
        while i < errors.len()
            invariant
                self.chktex == old(self).chktex,
                self.build_log == old(self).build_log,
                g0 == old(self).grammar_view(),
                ev == diagnostics_view(errors@),
                key@ == document.uri@,
                i <= errors@.len(),
                self.grammar_view() == if i == 0 {
                    g0.remove(key@)
                } else {
                    g0.insert(key@, ev.take(i as int))
                },
            decreases errors@.len() - i,
        {
            store_insert(&mut self.grammar, key.clone(), errors[i].duplicate());
            proof {
                assert(ev.take(i + 1) =~= ev.take(i as int).push(ev[i as int]));
                if i == 0 {
                    assert(ev.take(0) =~= Seq::empty());
                    assert(g0.remove(key@).insert(key@, Seq::empty().push(ev[0])) =~= g0.insert(key@, ev.take(1)));
                } else {
                    assert(g0.insert(key@, ev.take(i as int)).insert(key@, ev.take(i + 1)) =~= g0.insert(key@, ev.take(i + 1)));
                }
            }
            i = i + 1;
        }
        proof {
            if i > 0 {
                assert(ev.take(i as int) == ev);
            }
        }

        let ghost ob = self.build_view();
        let ghost g1 = self.grammar_view();
        let ghost uri = document.uri@;
        let ghost keep = not_under::<Map<Seq<char>, Seq<DiagnosticView>>>(uri);
        let ghost mut k: int = 0;
        proof {
            assert(ob.take(0).filter(keep) =~= Seq::empty()) by {
                reveal(Seq::filter);
            }
            assert(self.build_view() =~= ob.take(0).filter(keep) + ob.skip(0));
        }
        let mut i: usize = 0;
        while i < self.build_log.len()
            invariant
                self.chktex == old(self).chktex,
                self.grammar_view() == g1,
                ob == old(self).build_view(),
                uri == document.uri@,
                keep == not_under::<Map<Seq<char>, Seq<DiagnosticView>>>(uri),
                0 <= k <= ob.len(),
                i == ob.take(k).filter(keep).len(),
                self.build_view() == ob.take(k).filter(keep) + ob.skip(k),
            decreases self.build_log@.len() - i,
        {
            proof {
                lemma_filter_take_step(ob, keep, k);
                assert(self.build_view()[i as int] == ob[k]);
                assert(self.build_view()[i as int].0 == self.build_log@[i as int].0@);
            }
            let ghost before = self.build_view();
            if self.build_log[i].0.same(&document.uri) {
                self.build_log.remove(i);
                proof {
                    assert(self.build_view() =~= before.remove(i as int));
                    assert(self.build_view() =~= ob.take(k + 1).filter(keep) + ob.skip(k + 1));
                    k = k + 1;
                }
            } else {
                proof {
                    assert(self.build_view() =~= ob.take(k + 1).filter(keep) + ob.skip(k + 1));
                    k = k + 1;
                }
                i = i + 1;
            }
        }
        proof {
            if k < ob.len() {
                assert(self.build_view().len() > i);
            }
            assert(ob.take(k) == ob);
            assert(ob.skip(k) =~= Seq::empty());
            assert(self.build_view() =~= without(ob, uri));
        }
        match log {
            Some(l) => {
                let grouped = group_log(l);
                let ghost before = self.build_view();
                self.build_log.push((document.uri.duplicate(), grouped));
                proof {
                    assert(self.build_view() =~= before.push((uri, group(entries_view(l.diagnostics@)))));
                }
            },
            None => {},
        }
    }

    pub fn update_chktex(&mut self, uri: Uri, diagnostics: Vec<Diagnostic>)
        ensures
            final(self).chktex_view() == replace_or_push(old(self).chktex_view(), uri@, diagnostics_view(diagnostics@)),
            final(self).grammar_view() == old(self).grammar_view(),
            final(self).build_view() == old(self).build_view(),
    {
        let ghost c = self.chktex_view();
        let ghost key = uri@;
        let ghost val = diagnostics_view(diagnostics@);
        let mut i: usize = 0;
        while i < self.chktex.len()
            invariant
                *self == *old(self),
                key == uri@,
                val == diagnostics_view(diagnostics@),
                i <= self.chktex@.len(),
                c == self.chktex_view(),
                forall|j: int| 0 <= j < i ==> (#[trigger] c[j]).0 != key,
            decreases self.chktex@.len() - i,
        {
            proof {
                assert(c.len() == self.chktex@.len());
                assert(c[i as int].0 == self.chktex@[i as int].0@);
            }
            if self.chktex[i].0.same(&uri) {
                proof {
                    assert(self.chktex@[i as int].0@ == uri@);
                    assert(c[i as int].0 == key);
                    assert(is_first_key(c, key, i as int));
                    let w = choose|w: int| is_first_key(c, key, w);
                    if w < i {
                        assert(c[w].0 != key);
                    } else if w > i {
                        assert(c[i as int].0 != key);
                    }
                }
                let ghost before = self.chktex@;
                self.chktex.set(i, (uri, diagnostics));
                proof {
                    assert(self.chktex@ == before.update(i as int, self.chktex@[i as int]));
                    assert(self.chktex@[i as int].0@ == key);
                    assert(self.chktex_view() =~= c.update(i as int, (key, val)));
                }
                return;
            }
            i = i + 1;
        }
        self.chktex.push((uri, diagnostics));
        proof {
            assert(self.chktex_view() =~= c.push((key, val)));
        }
    }

    /// Every diagnostic to show for the workspace, under the text of its
    /// document's URI: the stored ones, the linter's only for documents the
    /// client owns, then the fresh workspace-wide analyses; kept when their
    /// document takes part in diagnostics and their message passes the
    /// configured patterns. Each document's list keeps that order.
    pub fn get(&self, workspace: &Workspace) -> (r: MultiMap<String, Diagnostic>)
        requires
            workspace.wf(),
        ensures
            store_contents(r) == group(self.spec_get(*workspace)),
    {
        let ghost ws = *workspace;
        let ghost g = self.grammar_view();
        let ghost b = self.build_view();
        let ghost c = self.chktex_view();
        let mut results: Vec<(Uri, Diagnostic)> = Vec::new();
        append_store(&mut results, workspace, &self.grammar);
        proof {
            assert(entries_view(results@) =~= in_workspace(ws, g) + flatten_logs(ws, b.take(0)));
        }
        let mut i: usize = 0;
        while i < self.build_log.len()
            invariant
                ws == *workspace,
                i <= self.build_log@.len(),
                b == self.build_view(),
                entries_view(results@) == in_workspace(ws, g) + flatten_logs(ws, b.take(i as int)),
            decreases self.build_log@.len() - i,
        {
            append_store(&mut results, workspace, &self.build_log[i].1);
            proof {
                assert(b.take(i + 1).drop_last() =~= b.take(i as int));
                assert(b[i as int].1 == store_contents(self.build_log@[i as int].1));
                assert(entries_view(results@) =~= in_workspace(ws, g) + flatten_logs(ws, b.take(i + 1)));
            }
            i = i + 1;
        }
        proof {
            assert(b.take(i as int) == b);
            assert(entries_view(results@) =~= in_workspace(ws, g) + flatten_logs(ws, b) + visible_chktex(ws, c.take(0)));
        }
        let mut i: usize = 0;
        while i < self.chktex.len()
            invariant
                workspace.wf(),
                ws == *workspace,
                i <= self.chktex@.len(),
                c == self.chktex_view(),
                entries_view(results@) == in_workspace(ws, g) + flatten_logs(ws, b) + visible_chktex(ws, c.take(i as int)),
            decreases self.chktex@.len() - i,
        {
            let uri = &self.chktex[i].0;
            proof {
                assert(c.take(i + 1).drop_last() =~= c.take(i as int));
                assert(c[i as int] == (uri@, diagnostics_view(self.chktex@[i as int].1@)));
            }
            match workspace.lookup(uri) {
                Some(doc) => {
                    if doc.owner == Owner::Client {
                        append_under(&mut results, uri, &self.chktex[i].1);
                    }
                },
                None => {},
            }
            proof {
                assert(entries_view(results@) =~= in_workspace(ws, g) + flatten_logs(ws, b) + visible_chktex(ws, c.take(i + 1)));
            }
            i = i + 1;
        }
        proof {
            assert(c.take(i as int) == c);
        }
        let mut checks: Vec<Check> = Vec::new();
        checks.push(Check::UndefinedCitation);
        checks.push(Check::UnusedEntry);
        proof {
            assert(checks@ =~= crate::manager::citation_checks());
        }
        run_checks(workspace, &checks, &mut results);
        let mut checks: Vec<Check> = Vec::new();
        checks.push(Check::DuplicateEntry);
        proof {
            assert(checks@ =~= seq![Check::DuplicateEntry]);
        }
        run_checks(workspace, &checks, &mut results);
        let mut checks: Vec<Check> = Vec::new();
        checks.push(Check::DuplicateLabel);
        proof {
            assert(checks@ =~= seq![Check::DuplicateLabel]);
        }
        run_checks(workspace, &checks, &mut results);
        let mut checks: Vec<Check> = Vec::new();
        checks.push(Check::UndefinedLabel);
        checks.push(Check::UnusedLabel);
        proof {
            assert(checks@ =~= label_usage_checks());
        }
        run_checks(workspace, &checks, &mut results);
        let ghost all = entries_view(results@);
        proof {
            assert(all =~= gathered(ws, g, b, c));
        }
        let config = &workspace.config;
        let mut out = store_new();
        proof {
            assert(all.take(0).filter(shown(ws)) =~= Seq::empty()) by {
                reveal(Seq::filter);
            }
            assert(store_contents(out) =~= group(all.take(0).filter(shown(ws))));
        }
        let mut i: usize = 0;
        while i < results.len()
            invariant
                workspace.wf(),
                ws == *workspace,
                config == &workspace.config,
                i <= results@.len(),
                all == entries_view(results@),
                store_contents(out) == group(all.take(i as int).filter(shown(ws))),
            decreases results@.len() - i,
        {
            proof {
                lemma_filter_take_step(all, shown(ws), i as int);
            }
            let entry = &results[i];
            let keep_uri = match workspace.lookup(&entry.0) {
                Some(doc) => doc.is_relevant(),
                None => false,
            };
            if keep_uri && filter_regex_patterns(
                entry.1.message.as_str(),
                &config.allowed_patterns,
                &config.ignored_patterns,
            ) {
                let ghost kept = all.take(i as int).filter(shown(ws));
                store_insert(&mut out, entry.0.text.clone(), entry.1.duplicate());
                proof {
                    assert(kept.push(all[i as int]).drop_last() =~= kept);
                }
            }
            i = i + 1;
        }
        proof {
            assert(all.take(i as int) == all);
        }
        out
    }
}


impl Default for Manager {
    fn default() -> (r: Manager)
        ensures
            r.grammar_view() == Map::<Seq<char>, Seq<DiagnosticView>>::empty(),
            r.chktex_view().len() == 0,
            r.build_view().len() == 0,
    {
        Manager::new()
    }
}

/// Asking twice, with nothing changed in between, gives the same diagnostics.
pub proof fn lemma_get_idempotent(
    m: Manager,
    ws: Workspace,
    first: Seq<(Seq<char>, DiagnosticView)>,
    second: Seq<(Seq<char>, DiagnosticView)>,
)
    requires
        first == m.spec_get(ws),
        second == m.spec_get(ws),
    ensures
        first == second,
{
}

/// No diagnostic is ever shown for a document that takes no part in
/// diagnostics (one of the distribution), nor for a URI without a
/// document, whatever the stores hold.
pub proof fn lemma_only_relevant_shown(m: Manager, ws: Workspace, uri: Seq<char>)
    requires
        !ws.uri_relevant(uri),
    ensures
        forall|i: int| 0 <= i < m.spec_get(ws).len() ==> (#[trigger] m.spec_get(ws)[i]).0 != uri,
{
    broadcast use vstd::seq_lib::group_filter_ensures;
    let all = gathered(ws, m.grammar_view(), m.build_view(), m.chktex_view());
    assert forall|i: int| 0 <= i < m.spec_get(ws).len() implies (#[trigger] m.spec_get(ws)[i]).0 != uri by {
        assert(shown(ws)(all.filter(shown(ws))[i]));
    }
}

proof fn lemma_visible_chktex_has(ws: Workspace, c: Seq<(Seq<char>, Seq<DiagnosticView>)>, k: int, j: int)
    requires
        0 <= k < c.len(),
        0 <= j < c[k].1.len(),
        ws.owner_of(c[k].0) == Some(Owner::Client),
    ensures
        visible_chktex(ws, c).contains((c[k].0, c[k].1[j])),
    decreases c.len(),
{
    let prefix = c.drop_last();
    if k < c.len() - 1 {
        lemma_visible_chktex_has(ws, prefix, k, j);
        let x = (c[k].0, c[k].1[j]);
        let w = choose|w: int| 0 <= w < visible_chktex(ws, prefix).len() && visible_chktex(ws, prefix)[w] == x;
        assert(visible_chktex(ws, c)[w] == x);
    } else {
        let tail = c.last().1.map_values(under(c.last().0));
        assert(tail[j] == (c[k].0, c[k].1[j]));
        assert(visible_chktex(ws, c)[visible_chktex(ws, prefix).len() + j] == tail[j]);
    }
}

proof fn lemma_visible_chktex_hidden(ws: Workspace, c: Seq<(Seq<char>, Seq<DiagnosticView>)>, uri: Seq<char>)
    requires
        ws.owner_of(uri) != Some(Owner::Client),
    ensures
        forall|i: int| 0 <= i < visible_chktex(ws, c).len() ==> (#[trigger] visible_chktex(ws, c)[i]).0 != uri,
    decreases c.len(),
{
    if c.len() > 0 {
        lemma_visible_chktex_hidden(ws, c.drop_last(), uri);
        let prefix = visible_chktex(ws, c.drop_last());
        assert forall|i: int| 0 <= i < visible_chktex(ws, c).len() implies (#[trigger] visible_chktex(ws, c)[i]).0 != uri by {
            if i >= prefix.len() {
                assert(ws.owner_of(c.last().0) == Some(Owner::Client));
                assert(visible_chktex(ws, c)[i] == c.last().1.map_values(under(c.last().0))[i - prefix.len()]);
            } else {
                assert(visible_chktex(ws, c)[i] == prefix[i]);
            }
        }
    }
}

/// A stored linter diagnostic takes part exactly while the client owns its
/// document: then it is shown unless the message patterns drop it; under
/// any other owner, or with no document, no linter diagnostic of that URI
/// is gathered at all. The store itself does not depend on the workspace.
pub proof fn lemma_chktex_gate(m: Manager, ws: Workspace, k: int, j: int)
    requires
        0 <= k < m.chktex_view().len(),
        0 <= j < m.chktex_view()[k].1.len(),
    ensures
        ({
            let uri = m.chktex_view()[k].0;
            let d = m.chktex_view()[k].1[j];
            &&& ws.owner_of(uri) == Some(Owner::Client) ==> visible_chktex(ws, m.chktex_view()).contains((uri, d))
            &&& ws.owner_of(uri) == Some(Owner::Client)
                && passes_patterns(d.message, ws.config.allowed_patterns@, ws.config.ignored_patterns@)
                ==> m.spec_get(ws).contains((uri, d))
            &&& ws.owner_of(uri) != Some(Owner::Client) ==> forall|i: int|
                0 <= i < visible_chktex(ws, m.chktex_view()).len() ==> (#[trigger] visible_chktex(ws, m.chktex_view())[i]).0 != uri
        }),
{
    broadcast use vstd::seq_lib::group_filter_ensures;
    let c = m.chktex_view();
    let uri = c[k].0;
    let d = c[k].1[j];
    if ws.owner_of(uri) == Some(Owner::Client) {
        lemma_visible_chktex_has(ws, c, k, j);
        let v = visible_chktex(ws, c);
        let w = choose|w: int| 0 <= w < v.len() && v[w] == (uri, d);
        let head = in_workspace(ws, m.grammar_view()) + flatten_logs(ws, m.build_view());
        let all = gathered(ws, m.grammar_view(), m.build_view(), c);
        assert(all[head.len() + w] == (uri, d));
        if passes_patterns(d.message, ws.config.allowed_patterns@, ws.config.ignored_patterns@) {
            all.lemma_filter_contains(shown(ws), head.len() + w);
        }
    } else {
        lemma_visible_chktex_hidden(ws, c, uri);
    }
}

/// Analyzing a document again drops all its earlier grammar diagnostics:
/// with no new problems, nothing is left under its URI.
pub proof fn lemma_grammar_cleared(
    g: Map<Seq<char>, Seq<DiagnosticView>>,
    uri: Seq<char>,
    errors: Seq<DiagnosticView>,
)
    requires
        errors.len() == 0,
    ensures
        !grammar_after(g, uri, errors).contains_key(uri),
{
}

/// A message that an ignored pattern matches is never shown; with no
/// allowed patterns, a gathered diagnostic of a relevant document whose
/// message no ignored pattern matches is shown.
pub proof fn lemma_pattern_filter(m: Manager, ws: Workspace, e: (Seq<char>, DiagnosticView))
    ensures
        any_match(ws.config.ignored_patterns@, e.1.message) ==> !m.spec_get(ws).contains(e),
        ws.config.allowed_patterns@.len() == 0 && !any_match(ws.config.ignored_patterns@, e.1.message)
            && ws.uri_relevant(e.0) && gathered(ws, m.grammar_view(), m.build_view(), m.chktex_view()).contains(e)
            ==> m.spec_get(ws).contains(e),
{
    broadcast use vstd::seq_lib::group_filter_ensures;
    let all = gathered(ws, m.grammar_view(), m.build_view(), m.chktex_view());
    if any_match(ws.config.ignored_patterns@, e.1.message) && m.spec_get(ws).contains(e) {
        let i = choose|i: int| 0 <= i < m.spec_get(ws).len() && m.spec_get(ws)[i] == e;
        assert(shown(ws)(all.filter(shown(ws))[i]));
    }
    if ws.config.allowed_patterns@.len() == 0 && !any_match(ws.config.ignored_patterns@, e.1.message)
        && ws.uri_relevant(e.0) && all.contains(e) {
        let i = choose|i: int| 0 <= i < all.len() && all[i] == e;
        all.lemma_filter_contains(shown(ws), i);
    }
}

} // verus!
