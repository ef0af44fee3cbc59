use texlab_diagnostics::bibtex_field::{bibtex_fields, get_documentation};
use texlab_diagnostics::features::{
    FoldingRange, FoldingRangeKind, HoverProvider, HoverSource, LatexEnvironmentFoldingProvider,
    LatexLabelCompletionProvider, LatexLabelReferenceProvider,
};
use texlab_diagnostics::syntax::{
    BibliographyTree, Entry, Environment, Label, LabelKind, MarkupTree, SyntaxTree,
};
use texlab_diagnostics::types::{Owner, Position, Range, Uri};
use texlab_diagnostics::workspace::{Config, Document, Workspace};

fn range(l1: u32, c1: u32, l2: u32, c2: u32) -> Range {
    Range::new(Position::new(l1, c1), Position::new(l2, c2))
}

fn uri(name: &str) -> Uri {
    Uri::new(&format!("file:///{}", name))
}

fn label(kind: LabelKind, name: &str, r: Range) -> Label {
    Label { kind, name: name.to_string(), range: r }
}

fn markup(name: &str, labels: Vec<Label>, includes: Vec<&str>) -> Document {
    Document {
        uri: uri(name),
        owner: Owner::Client,
        tree: SyntaxTree::Markup(MarkupTree {
            labels,
            citations: Vec::new(),
            environments: Vec::new(),
            includes: includes.into_iter().map(uri).collect(),
            errors: Vec::new(),
        }),
        text: String::new(),
    }
}

fn bibliography(name: &str, entries: Vec<Entry>) -> Document {
    Document {
        uri: uri(name),
        owner: Owner::Client,
        tree: SyntaxTree::Bibliography(BibliographyTree { entries, errors: Vec::new() }),
        text: String::new(),
    }
}

fn workspace(documents: Vec<Document>) -> Workspace {
    let mut ws = Workspace::new(Config { allowed_patterns: Vec::new(), ignored_patterns: Vec::new() });
    for d in documents {
        ws.insert(d);
    }
    ws
}

#[test]
fn test_multiline() {
    // "\begin{foo}\n\end{foo}"
    let tree = SyntaxTree::Markup(MarkupTree {
        labels: Vec::new(),
        citations: Vec::new(),
        environments: vec![Environment { left: range(0, 0, 0, 11), right: range(1, 0, 1, 9) }],
        includes: Vec::new(),
        errors: Vec::new(),
    });
    let foldings = LatexEnvironmentFoldingProvider::execute(&tree);
    assert_eq!(
        foldings,
        vec![FoldingRange {
            start_line: 0,
            start_character: Some(11),
            end_line: 1,
            end_character: Some(0),
            kind: Some(FoldingRangeKind::Region),
        }]
    );
}

#[test]
fn latex_environment_test_bibtex() {
    // "@article{foo, bar = baz}"
    let doc = bibliography("foo.bib", vec![Entry { key: "foo".to_string(), range: range(0, 0, 0, 24) }]);
    let foldings = LatexEnvironmentFoldingProvider::execute(&doc.tree);
    assert_eq!(foldings, Vec::new());
}

#[test]
fn test() {
    // foo.tex: "\label{foo}"; bar.tex: "\input{foo.tex}\n\ref{foo}"; baz.tex: "\ref{foo}"
    let ws = workspace(vec![
        markup("foo.tex", vec![label(LabelKind::Definition, "foo", range(0, 0, 0, 11))], vec![]),
        markup("bar.tex", vec![label(LabelKind::Reference, "foo", range(1, 0, 1, 9))], vec!["foo.tex"]),
        markup("baz.tex", vec![label(LabelKind::Reference, "foo", range(0, 0, 0, 9))], vec![]),
    ]);
    let references = LatexLabelReferenceProvider::execute(&ws, 0, Position::new(0, 8));
    let found: Vec<(String, Range)> = references.iter().map(|r| (r.uri.text.clone(), r.range)).collect();
    assert_eq!(found, vec![(uri("bar.tex").text, range(1, 0, 1, 9))]);
}

#[test]
fn latex_label_test_bibtex() {
    let ws = workspace(vec![bibliography("foo.bib", vec![])]);
    let references = LatexLabelReferenceProvider::execute(&ws, 0, Position::new(0, 0));
    assert!(references.is_empty());
}

#[test]
fn references_need_a_definition_under_the_cursor() {
    let ws = workspace(vec![
        markup("foo.tex", vec![label(LabelKind::Definition, "foo", range(0, 0, 0, 11))], vec![]),
        markup("bar.tex", vec![label(LabelKind::Reference, "foo", range(1, 0, 1, 9))], vec!["foo.tex"]),
    ]);
    assert!(LatexLabelReferenceProvider::execute(&ws, 0, Position::new(3, 0)).is_empty());
    assert_eq!(
        LatexLabelReferenceProvider::find_definition(&ws.documents[0].tree, Position::new(0, 11)),
        Some(&"foo".to_string())
    );
}

#[test]
fn test_inside_of_ref() {
    // foo.tex: "\addbibresource{bar.bib}\include{baz}\n\ref{}"; bar.bib: ""; baz.tex: "\label{foo}\label{bar}\ref{baz}"
    let ws = workspace(vec![
        markup("foo.tex", vec![label(LabelKind::Reference, "", range(1, 0, 1, 6))], vec!["bar.bib", "baz.tex"]),
        bibliography("bar.bib", vec![]),
        markup(
            "baz.tex",
            vec![
                label(LabelKind::Definition, "foo", range(0, 0, 0, 11)),
                label(LabelKind::Definition, "bar", range(0, 11, 0, 22)),
                label(LabelKind::Reference, "baz", range(0, 22, 0, 31)),
            ],
            vec![],
        ),
    ]);
    let labels = LatexLabelCompletionProvider::execute(&ws, 0, Position::new(1, 5));
    assert_eq!(labels, vec!["foo", "bar"]);
}

#[test]
fn test_outside_of_ref() {
    // foo.tex: "\include{bar}\ref{}"; bar.tex: "\label{foo}\label{bar}"
    let ws = workspace(vec![
        markup("foo.tex", vec![label(LabelKind::Reference, "", range(0, 13, 0, 19))], vec!["bar.tex"]),
        markup(
            "bar.tex",
            vec![
                label(LabelKind::Definition, "foo", range(0, 0, 0, 11)),
                label(LabelKind::Definition, "bar", range(0, 11, 0, 22)),
            ],
            vec![],
        ),
    ]);
    let items = LatexLabelCompletionProvider::execute(&ws, 0, Position::new(1, 6));
    assert_eq!(items, Vec::<String>::new());
    assert_eq!(LatexLabelCompletionProvider::label_names(&ws, 0), vec!["foo", "bar"]);
}

#[test]
fn completion_skips_unrelated_documents() {
    let ws = workspace(vec![
        markup(
            "foo.tex",
            vec![
                label(LabelKind::Definition, "a", range(0, 0, 0, 9)),
                label(LabelKind::Reference, "a", range(1, 0, 1, 7)),
            ],
            vec![],
        ),
        markup("other.tex", vec![label(LabelKind::Definition, "b", range(0, 0, 0, 9))], vec![]),
    ]);
    assert_eq!(LatexLabelCompletionProvider::execute(&ws, 0, Position::new(1, 3)), vec!["a"]);
}

#[test]
fn hover_sources_in_order() {
    let provider = HoverProvider::new();
    assert_eq!(
        provider.providers,
        vec![
            HoverSource::BibtexEntryType,
            HoverSource::BibtexStringReference,
            HoverSource::BibtexField,
            HoverSource::LatexCitation,
            HoverSource::LatexComponent,
            HoverSource::LatexLabel,
        ]
    );
    assert_eq!(HoverProvider::default().providers, provider.providers);
}

#[test]
fn field_documentation_lookup() {
    assert_eq!(get_documentation("author"), Some("The author(s) of the `title`."));
    assert_eq!(get_documentation("nonexistent"), None);
    assert!(get_documentation("journal").unwrap().contains("journaltitle"));
    let fields = bibtex_fields();
    assert_eq!(fields[0].name, "abstract");
    for f in &fields {
        assert_eq!(get_documentation(f.name).is_some(), true);
    }
}
