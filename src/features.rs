use vstd::prelude::*;
use crate::analysis::{project_sites, sites};
use crate::seqs::lemma_map_push;
use crate::syntax::{Environment, Label, LabelKind, SymbolKind, SyntaxTree, symbols_of};
use crate::types::{related_view, Position, Range, Related};
use crate::workspace::Workspace;

verus! {

#[derive(Debug, Clone, Copy, PartialEq, Eq, Structural)]
pub enum FoldingRangeKind {
    Comment,
    Imports,
    Region,
}

/// A foldable region of a document.
#[derive(Debug, Clone, Copy, PartialEq, Eq, Structural)]
pub struct FoldingRange {
    pub start_line: u32,
    pub start_character: Option<u32>,
    pub end_line: u32,
    pub end_character: Option<u32>,
    pub kind: Option<FoldingRangeKind>,
}

/// An environment folds from the end of its `\begin` command to the start
/// of its `\end` command.
pub open spec fn environment_folding(e: Environment) -> FoldingRange {
    FoldingRange {
        start_line: e.left.end.line,
        start_character: Some(e.left.end.character),
        end_line: e.right.start.line,
        end_character: Some(e.right.start.character),
        kind: Some(FoldingRangeKind::Region),
    }
}

pub struct LatexEnvironmentFoldingProvider;

impl LatexEnvironmentFoldingProvider {
    /// One folding range per environment of a markup tree; none for a
    /// bibliography.
    pub fn execute(tree: &SyntaxTree) -> (r: Vec<FoldingRange>)
        ensures
            r@ == (match *tree {
                SyntaxTree::Markup(t) => t.environments@.map_values(|e: Environment| environment_folding(e)),
                SyntaxTree::Bibliography(_) => Seq::empty(),
            }),
    {
        let mut foldings: Vec<FoldingRange> = Vec::new();
        match tree {
            SyntaxTree::Markup(t) => {
                let mut i: usize = 0;
                while i < t.environments.len()
                    invariant
                        i <= t.environments@.len(),
                        foldings@ =~= t.environments@.take(i as int).map_values(|e: Environment| environment_folding(e)),
                    decreases t.environments@.len() - i,
                {
                    let environment = &t.environments[i];
                    let start = environment.left.end;
                    let end = environment.right.start;
                    foldings.push(FoldingRange {
                        start_line: start.line,
                        start_character: Some(start.character),
                        end_line: end.line,
                        end_character: Some(end.character),
                        kind: Some(FoldingRangeKind::Region),
                    });
                    proof {
                        assert(t.environments@.take(i + 1) == t.environments@.take(i as int).push(t.environments@[i as int]));
                        lemma_map_push(t.environments@.take(i as int), t.environments@[i as int], |e: Environment| environment_folding(e));
                    }
                    i = i + 1;
                }
                proof {
                    assert(t.environments@.take(i as int) == t.environments@);
                }
            },
            SyntaxTree::Bibliography(_) => {
                proof {
                    assert(foldings@ =~= Seq::empty());
                }
            },
        }
        foldings
    }
}

/// Whether `l` is a definition whose command covers `pos`.
pub open spec fn defines_at(l: Label, pos: Position) -> bool {
    l.kind == LabelKind::Definition && l.range.spec_contains(pos)
}

/// Label `i` is the first definition whose command covers `pos`.
pub open spec fn is_first_definition_at(labels: Seq<Label>, pos: Position, i: int) -> bool {
    0 <= i < labels.len() && defines_at(labels[i], pos) && forall|j: int| 0 <= j < i ==> !defines_at(#[trigger] labels[j], pos)
}

/// The first label definition of a markup tree whose command covers `pos`.
pub open spec fn definition_at(tree: SyntaxTree, pos: Position) -> Option<Seq<char>> {
    match tree {
        SyntaxTree::Markup(t) => if exists|i: int| is_first_definition_at(t.labels@, pos, i) {
            Some(t.labels@[choose|i: int| is_first_definition_at(t.labels@, pos, i)].name@)
        } else {
            None
        },
        SyntaxTree::Bibliography(_) => None,
    }
}

pub struct LatexLabelReferenceProvider;

impl LatexLabelReferenceProvider {
    /// The name of the label definition under `pos`, if any.
    pub fn find_definition(tree: &SyntaxTree, pos: Position) -> (r: Option<&String>)
        ensures
            match r {
                Some(n) => definition_at(*tree, pos) == Some(n@),
                None => definition_at(*tree, pos).is_none(),
            },
    {
        match tree {
            SyntaxTree::Markup(t) => {
                let mut i: usize = 0;
                while i < t.labels.len()
                    invariant
                        *tree == SyntaxTree::Markup(*t),
                        i <= t.labels@.len(),
                        forall|j: int| 0 <= j < i ==> !defines_at(#[trigger] t.labels@[j], pos),
                    decreases t.labels@.len() - i,
                {
                    let label = &t.labels[i];
                    if label.kind == LabelKind::Definition && label.range.contains(pos) {
                        proof {
                            assert(is_first_definition_at(t.labels@, pos, i as int));
                            let w = choose|w: int| is_first_definition_at(t.labels@, pos, w);
                            if w < i {
                                assert(!defines_at(t.labels@[w], pos));
                            } else if w > i {
                                assert(defines_at(t.labels@[i as int], pos));
                            }
                        }
                        return Some(&label.name);
                    }
                    i = i + 1;
                }
                None
            },
            SyntaxTree::Bibliography(_) => None,
        }
    }

    /// The references, in the project of document `d`, to the label
    /// defined under `pos` in that document; none when no definition is
    /// there.
    pub fn execute(workspace: &Workspace, d: usize, pos: Position) -> (r: Vec<Related>)
        requires
            d < workspace.docs().len(),
        ensures
            related_view(r@) == (match definition_at(workspace.docs()[d as int].tree, pos) {
                Some(name) => sites(*workspace, d as int, SymbolKind::LabelReference, name),
                None => Seq::empty(),
            }),
    {
        match Self::find_definition(&workspace.documents[d].tree, pos) {
            Some(name) => {
                let proj = workspace.project(d);
                project_sites(workspace, d, &proj, SymbolKind::LabelReference, name)
            },
            None => {
                let r: Vec<Related> = Vec::new();
                proof {
                    assert(related_view(r@) =~= Seq::empty());
                }
                r
            },
        }
    }
}

/// The names of `kind` in the members of `proj` among the first `j`
/// documents, in workspace order.
pub open spec fn names_upto(ws: Workspace, proj: Set<int>, kind: SymbolKind, j: int) -> Seq<Seq<char>>
    decreases j,
{
    if j <= 0 {
        Seq::empty()
    } else {
        names_upto(ws, proj, kind, j - 1) + if proj.contains(j - 1) {
            symbols_of(ws.docs()[j - 1].tree, kind).map_values(|s: (Seq<char>, Range)| s.0)
        } else {
            Seq::empty()
        }
    }
}

pub open spec fn strings_view(s: Seq<String>) -> Seq<Seq<char>> {
    s.map_values(|x: String| x@)
}

/// Whether `pos` lies on a label reference command of a markup tree.
pub open spec fn on_reference(tree: SyntaxTree, pos: Position) -> bool {
    match tree {
        SyntaxTree::Markup(t) => exists|i: int|
            0 <= i < t.labels@.len() && (#[trigger] t.labels@[i]).kind == LabelKind::Reference
                && t.labels@[i].range.spec_contains(pos),
        SyntaxTree::Bibliography(_) => false,
    }
}

fn is_on_reference(tree: &SyntaxTree, pos: Position) -> (r: bool)
    ensures
        r == on_reference(*tree, pos),
{
    match tree {
        SyntaxTree::Markup(t) => {
            let mut i: usize = 0;
            while i < t.labels.len()
                invariant
                    *tree == SyntaxTree::Markup(*t),
                    i <= t.labels@.len(),
                    forall|j: int| 0 <= j < i ==> !((#[trigger] t.labels@[j]).kind == LabelKind::Reference
                        && t.labels@[j].range.spec_contains(pos)),
                decreases t.labels@.len() - i,
            {
                if t.labels[i].kind == LabelKind::Reference && t.labels[i].range.contains(pos) {
                    proof {
                        assert(tree->Markup_0.labels@[i as int] == t.labels@[i as int]);
                    }
                    return true;
                }
                i = i + 1;
            }
            false
        },
        SyntaxTree::Bibliography(_) => false,
    }
}

pub struct LatexLabelCompletionProvider;

impl LatexLabelCompletionProvider {
    /// When `pos` lies on a label reference command of document `d`, the
    /// names of every label defined in its project, document by document in
    /// workspace order; otherwise none.
    pub fn execute(workspace: &Workspace, d: usize, pos: Position) -> (r: Vec<String>)
        requires
            d < workspace.docs().len(),
        ensures
            strings_view(r@) == if on_reference(workspace.docs()[d as int].tree, pos) {
                Self::spec_label_names(*workspace, d as int)
            } else {
                Seq::empty()
            },
    {
        if is_on_reference(&workspace.documents[d].tree, pos) {
            Self::label_names(workspace, d)
        } else {
            let r: Vec<String> = Vec::new();
            proof {
                assert(strings_view(r@) =~= Seq::empty());
            }
            r
        }
    }

    pub open spec fn spec_label_names(ws: Workspace, d: int) -> Seq<Seq<char>> {
        names_upto(ws, ws.project_set(d), SymbolKind::LabelDefinition, ws.docs().len() as int)
    }

    /// The names of every label defined in the project of document `d`,
    /// document by document in workspace order.
    pub fn label_names(workspace: &Workspace, d: usize) -> (r: Vec<String>)
        requires
            d < workspace.docs().len(),
        ensures
            strings_view(r@) == Self::spec_label_names(*workspace, d as int),
    {
        let proj = workspace.project(d);
        let ghost p = workspace.project_set(d as int);
        let mut items: Vec<String> = Vec::new();
        let mut j: usize = 0;
        while j < workspace.documents.len()
            invariant
                j <= workspace.docs().len(),
                p == workspace.project_set(d as int),
                proj@.len() == workspace.docs().len(),
                forall|jj: int| 0 <= jj < workspace.docs().len() ==> proj@[jj] == #[trigger] p.contains(jj),
                strings_view(items@) == names_upto(*workspace, p, SymbolKind::LabelDefinition, j as int),
            decreases workspace.docs().len() - j,
        {
            let ghost start = items@;
            if proj[j] {
                let syms = workspace.documents[j].tree.symbols(SymbolKind::LabelDefinition);
                let ghost all = symbols_of(workspace.docs()[j as int].tree, SymbolKind::LabelDefinition).map_values(
                    |s: (Seq<char>, Range)| s.0,
                );
                let mut i: usize = 0;
                while i < syms.len()
                    invariant
                        i <= syms@.len(),
                        all == symbols_of(workspace.docs()[j as int].tree, SymbolKind::LabelDefinition).map_values(
                            |s: (Seq<char>, Range)| s.0,
                        ),
                        crate::syntax::symbols_view(syms@) == symbols_of(workspace.docs()[j as int].tree, SymbolKind::LabelDefinition),
                        strings_view(items@) == strings_view(start) + all.take(i as int),
                    decreases syms@.len() - i,
                {
                    let ghost before = items@;
                    items.push(syms[i].name.clone());
                    proof {
                        assert(items@ == before.push(items@.last()));
                        lemma_map_push(before, items@.last(), |x: String| x@);
                        assert(crate::syntax::symbols_view(syms@)[i as int] == syms@[i as int].view());
                        assert(strings_view(items@) =~= strings_view(start) + all.take(i + 1));
                    }
                    i = i + 1;
                }
                proof {
                    assert(all.take(i as int) == all);
                }
            }
            proof {
                if !p.contains(j as int) {
                    assert(strings_view(items@) =~= names_upto(*workspace, p, SymbolKind::LabelDefinition, j + 1));
                }
            }
            j = j + 1;
        }
        items
    }
}

/// The hover sources, tried in turn until one has something to show.
#[derive(Debug, Clone, Copy, PartialEq, Eq, Structural)]
pub enum HoverSource {
    BibtexEntryType,
    BibtexStringReference,
    BibtexField,
    LatexCitation,
    LatexComponent,
    LatexLabel,
}

pub open spec fn hover_order() -> Seq<HoverSource> {
    seq![
        HoverSource::BibtexEntryType,
        HoverSource::BibtexStringReference,
        HoverSource::BibtexField,
        HoverSource::LatexCitation,
        HoverSource::LatexComponent,
        HoverSource::LatexLabel,
    ]
}

#[derive(Debug)]
pub struct HoverProvider {
    pub providers: Vec<HoverSource>,
}

impl HoverProvider {
    pub fn new() -> (r: HoverProvider)
        ensures
            r.providers@ == hover_order(),
    {
        let mut providers: Vec<HoverSource> = Vec::new();
        providers.push(HoverSource::BibtexEntryType);
        providers.push(HoverSource::BibtexStringReference);
        providers.push(HoverSource::BibtexField);
        providers.push(HoverSource::LatexCitation);
        providers.push(HoverSource::LatexComponent);
        providers.push(HoverSource::LatexLabel);
        proof {
            assert(providers@ =~= hover_order());
        }
        HoverProvider { providers }
    }
}

impl Default for HoverProvider {
    fn default() -> (r: HoverProvider)
        ensures
            r.providers@ == hover_order(),
    {
        HoverProvider::new()
    }
}

} // verus!
