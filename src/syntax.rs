use vstd::prelude::*;
use crate::types::{Diagnostic, Range, Uri};
use crate::seqs::{lemma_filter_take_step, lemma_map_push};

verus! {

#[derive(Debug, Clone, Copy, PartialEq, Eq, Structural)]
pub enum LabelKind {
    Definition,
    Reference,
}

/// A `\label` definition or a reference to one, with the range of its command.
#[derive(Debug)]
pub struct Label {
    pub kind: LabelKind,
    pub name: String,
    pub range: Range,
}

/// A citation of one bibliography key, with the range of its command.
#[derive(Debug)]
pub struct Citation {
    pub key: String,
    pub range: Range,
}

/// An environment, with the ranges of its `\begin` and `\end` commands.
#[derive(Debug, Clone, Copy)]
pub struct Environment {
    pub left: Range,
    pub right: Range,
}

/// The structural facts of a markup document.
#[derive(Debug)]
pub struct MarkupTree {
    pub labels: Vec<Label>,
    pub citations: Vec<Citation>,
    pub environments: Vec<Environment>,
    /// The documents that this one includes or imports, already resolved.
    pub includes: Vec<Uri>,
    /// Structural problems found while reading the document.
    pub errors: Vec<Diagnostic>,
}

/// A bibliography entry, with its key and range.
#[derive(Debug)]
pub struct Entry {
    pub key: String,
    pub range: Range,
}

/// The structural facts of a bibliography document.
#[derive(Debug)]
pub struct BibliographyTree {
    pub entries: Vec<Entry>,
    /// Structural problems found while reading the document.
    pub errors: Vec<Diagnostic>,
}

#[derive(Debug)]
pub enum SyntaxTree {
    Markup(MarkupTree),
    Bibliography(BibliographyTree),
}

/// The kinds of named things that the cross-document analyses resolve.
#[derive(Debug, Clone, Copy, PartialEq, Eq, Structural)]
pub enum SymbolKind {
    LabelDefinition,
    LabelReference,
    Citation,
    Entry,
}

/// A named occurrence in a document.
#[derive(Debug)]
pub struct Symbol {
    pub name: String,
    pub range: Range,
}

impl Symbol {
    pub open spec fn view(self) -> (Seq<char>, Range) {
        (self.name@, self.range)
    }
}

pub open spec fn symbols_view(s: Seq<Symbol>) -> Seq<(Seq<char>, Range)> {
    s.map_values(|x: Symbol| x.view())
}

pub open spec fn label_view(l: Label) -> (Seq<char>, Range) {
    (l.name@, l.range)
}

pub open spec fn is_label_of(kind: LabelKind) -> spec_fn(Label) -> bool {
    |l: Label| l.kind == kind
}

pub open spec fn labels_of_kind(labels: Seq<Label>, kind: LabelKind) -> Seq<(Seq<char>, Range)> {
    labels.filter(is_label_of(kind)).map_values(|l: Label| label_view(l))
}

/// The occurrences of one kind in a tree, in document order.
pub open spec fn symbols_of(tree: SyntaxTree, kind: SymbolKind) -> Seq<(Seq<char>, Range)> {
    match tree {
        SyntaxTree::Markup(t) => match kind {
            SymbolKind::LabelDefinition => labels_of_kind(t.labels@, LabelKind::Definition),
            SymbolKind::LabelReference => labels_of_kind(t.labels@, LabelKind::Reference),
            SymbolKind::Citation => t.citations@.map_values(|c: Citation| (c.key@, c.range)),
            SymbolKind::Entry => Seq::empty(),
        },
        SyntaxTree::Bibliography(t) => match kind {
            SymbolKind::Entry => t.entries@.map_values(|e: Entry| (e.key@, e.range)),
            _ => Seq::empty(),
        },
    }
}

fn labels_with_kind(labels: &Vec<Label>, kind: LabelKind) -> (r: Vec<Symbol>)
    ensures
        symbols_view(r@) == labels_of_kind(labels@, kind),
{
    let mut r: Vec<Symbol> = Vec::new();
    let mut i: usize = 0;
    while i < labels.len()
        invariant
            i <= labels@.len(),
            symbols_view(r@) == labels@.take(i as int).filter(is_label_of(kind)).map_values(
                |l: Label| label_view(l),
            ),
        decreases labels@.len() - i,
    {
        proof {
            lemma_filter_take_step(labels@, is_label_of(kind), i as int);
        }
        if labels[i].kind == kind {
            let ghost before = r@;
            r.push(Symbol { name: labels[i].name.clone(), range: labels[i].range });
            proof {
                lemma_map_push(before, r@.last(), |x: Symbol| x.view());
                assert(r@ == before.push(r@.last()));
                lemma_map_push(
                    labels@.take(i as int).filter(is_label_of(kind)),
                    labels@[i as int],
                    |l: Label| label_view(l),
                );
            }
        }
        i = i + 1;
    }
    proof {
        assert(labels@.take(i as int) == labels@);
    }
    r
}

fn citation_symbols(citations: &Vec<Citation>) -> (r: Vec<Symbol>)
    ensures
        symbols_view(r@) == citations@.map_values(|c: Citation| (c.key@, c.range)),
{
    let mut r: Vec<Symbol> = Vec::new();
    let mut i: usize = 0;
    while i < citations.len()
        invariant
            i <= citations@.len(),
            symbols_view(r@) == citations@.take(i as int).map_values(|c: Citation| (c.key@, c.range)),
        decreases citations@.len() - i,
    {
        let ghost before = r@;
        r.push(Symbol { name: citations[i].key.clone(), range: citations[i].range });
        proof {
            assert(r@ == before.push(r@.last()));
            lemma_map_push(before, r@.last(), |x: Symbol| x.view());
            assert(citations@.take(i + 1) == citations@.take(i as int).push(citations@[i as int]));
            lemma_map_push(citations@.take(i as int), citations@[i as int], |c: Citation| (c.key@, c.range));
        }
        i = i + 1;
    }
    proof {
        assert(citations@.take(i as int) == citations@);
    }
    r
}

fn entry_symbols(entries: &Vec<Entry>) -> (r: Vec<Symbol>)
    ensures
        symbols_view(r@) == entries@.map_values(|e: Entry| (e.key@, e.range)),
{
    let mut r: Vec<Symbol> = Vec::new();
    let mut i: usize = 0;
    while i < entries.len()
        invariant
            i <= entries@.len(),
            symbols_view(r@) == entries@.take(i as int).map_values(|e: Entry| (e.key@, e.range)),
        decreases entries@.len() - i,
    {
        let ghost before = r@;
        r.push(Symbol { name: entries[i].key.clone(), range: entries[i].range });
        proof {
            assert(r@ == before.push(r@.last()));
            lemma_map_push(before, r@.last(), |x: Symbol| x.view());
            assert(entries@.take(i + 1) == entries@.take(i as int).push(entries@[i as int]));
            lemma_map_push(entries@.take(i as int), entries@[i as int], |e: Entry| (e.key@, e.range));
        }
        i = i + 1;
    }
    proof {
        assert(entries@.take(i as int) == entries@);
    }
    r
}

impl SyntaxTree {
    /// The occurrences of one kind in this tree, in document order.
    pub fn symbols(&self, kind: SymbolKind) -> (r: Vec<Symbol>)
        ensures
            symbols_view(r@) == symbols_of(*self, kind),
    {
        match self {
            SyntaxTree::Markup(t) => match kind {
                SymbolKind::LabelDefinition => labels_with_kind(&t.labels, LabelKind::Definition),
                SymbolKind::LabelReference => labels_with_kind(&t.labels, LabelKind::Reference),
                SymbolKind::Citation => citation_symbols(&t.citations),
                SymbolKind::Entry => {
                    let r: Vec<Symbol> = Vec::new();
                    proof {
                        assert(symbols_view(r@) =~= Seq::empty());
                    }
                    r
                },
            },
            SyntaxTree::Bibliography(t) => match kind {
                SymbolKind::Entry => entry_symbols(&t.entries),
                _ => {
                    let r: Vec<Symbol> = Vec::new();
                    proof {
                        assert(symbols_view(r@) =~= Seq::empty());
                    }
                    r
                },
            },
        }
    }
}

} // verus!
