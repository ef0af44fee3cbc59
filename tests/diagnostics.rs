use multimap::MultiMap;
use texlab_diagnostics::filter::{filter_regex_patterns, Pattern};
use texlab_diagnostics::manager::{BuildLog, Manager};
use texlab_diagnostics::syntax::{
    BibliographyTree, Citation, Entry, Label, LabelKind, MarkupTree, SyntaxTree,
};
use texlab_diagnostics::types::{
    Diagnostic, DiagnosticSource, Owner, Position, Range, Severity, Uri,
};
use texlab_diagnostics::workspace::{Config, Document, Workspace};

fn range(l1: u32, c1: u32, l2: u32, c2: u32) -> Range {
    Range::new(Position::new(l1, c1), Position::new(l2, c2))
}

fn uri(name: &str) -> Uri {
    Uri::new(&format!("file:///{}", name))
}

fn label(kind: LabelKind, name: &str, r: Range) -> Label {
    Label { kind, name: name.to_string(), range: r }
}

fn markup(
    name: &str,
    owner: Owner,
    labels: Vec<Label>,
    citations: Vec<Citation>,
    includes: Vec<&str>,
    errors: Vec<Diagnostic>,
) -> Document {
    Document {
        uri: uri(name),
        owner,
        tree: SyntaxTree::Markup(MarkupTree {
            labels,
            citations,
            environments: Vec::new(),
            includes: includes.into_iter().map(uri).collect(),
            errors,
        }),
        text: String::new(),
    }
}

fn bibliography(name: &str, owner: Owner, entries: Vec<Entry>) -> Document {
    Document {
        uri: uri(name),
        owner,
        tree: SyntaxTree::Bibliography(BibliographyTree { entries, errors: Vec::new() }),
        text: String::new(),
    }
}

fn empty_config() -> Config {
    Config { allowed_patterns: Vec::new(), ignored_patterns: Vec::new() }
}

fn grammar_error(message: &str) -> Diagnostic {
    Diagnostic::new(range(0, 0, 0, 1), Severity::Error, DiagnosticSource::Grammar, message)
}

fn for_uri<'a>(results: &'a MultiMap<String, Diagnostic>, name: &str) -> Vec<&'a Diagnostic> {
    match results.get_vec(&uri(name).text) {
        Some(list) => list.iter().collect(),
        None => Vec::new(),
    }
}

fn messages(results: &MultiMap<String, Diagnostic>, name: &str) -> Vec<String> {
    for_uri(results, name).iter().map(|d| d.message.clone()).collect()
}

fn total(results: &MultiMap<String, Diagnostic>) -> usize {
    results.iter_all().map(|(_, list)| list.len()).sum()
}

#[test]
fn get_twice_gives_the_same() {
    let mut ws = Workspace::new(empty_config());
    let doc = markup(
        "foo.tex",
        Owner::Client,
        vec![label(LabelKind::Reference, "a", range(0, 0, 0, 7))],
        vec![Citation { key: "k".to_string(), range: range(1, 0, 1, 8) }],
        vec![],
        vec![grammar_error("Unexpected brace")],
    );
    let mut manager = Manager::new();
    manager.update_syntax(&doc, None);
    ws.insert(doc);
    let first = manager.get(&ws);
    let second = manager.get(&ws);
    assert_eq!(messages(&first, "foo.tex"), messages(&second, "foo.tex"));
    assert_eq!(
        messages(&first, "foo.tex"),
        vec!["Unexpected brace", "Undefined reference", "Undefined reference"]
    );
    assert_eq!(total(&first), 3);
    assert_eq!(total(&second), 3);
}

#[test]
fn distro_documents_are_never_analyzed_or_shown() {
    let mut ws = Workspace::new(empty_config());
    let doc = markup(
        "article.cls",
        Owner::Distro,
        vec![label(LabelKind::Reference, "missing", range(0, 0, 0, 14))],
        vec![],
        vec![],
        vec![grammar_error("Unexpected brace")],
    );
    let mut manager = Manager::new();
    manager.update_syntax(&doc, None);
    manager.update_chktex(uri("article.cls"), vec![grammar_error("Command terminated")]);
    ws.insert(doc);
    let results = manager.get(&ws);
    assert!(results.is_empty());
}

#[test]
fn chktex_visible_only_for_client_documents() {
    let mut ws = Workspace::new(empty_config());
    ws.insert(markup("foo.tex", Owner::Client, vec![], vec![], vec![], vec![]));
    let mut manager = Manager::new();
    let lint = Diagnostic::new(range(2, 0, 2, 4), Severity::Warning, DiagnosticSource::Chktex, "Command terminated");
    manager.update_chktex(uri("foo.tex"), vec![lint]);
    assert_eq!(for_uri(&manager.get(&ws), "foo.tex").len(), 1);

    ws.insert(markup("foo.tex", Owner::Server, vec![], vec![], vec![], vec![]));
    assert_eq!(for_uri(&manager.get(&ws), "foo.tex").len(), 0);

    ws.insert(markup("foo.tex", Owner::Client, vec![], vec![], vec![], vec![]));
    let results = manager.get(&ws);
    assert_eq!(for_uri(&results, "foo.tex").len(), 1);
    assert_eq!(for_uri(&results, "foo.tex")[0].message, "Command terminated");
}

#[test]
fn default_manager_is_empty() {
    let mut ws = Workspace::new(empty_config());
    ws.insert(markup("foo.tex", Owner::Client, vec![], vec![], vec![], vec![]));
    assert_eq!(total(&Manager::default().get(&ws)), 0);
}

#[test]
fn chktex_last_write_wins() {
    let mut ws = Workspace::new(empty_config());
    ws.insert(markup("foo.tex", Owner::Client, vec![], vec![], vec![], vec![]));
    let mut manager = Manager::new();
    manager.update_chktex(uri("foo.tex"), vec![grammar_error("first"), grammar_error("second")]);
    manager.update_chktex(uri("foo.tex"), vec![grammar_error("third")]);
    let results = manager.get(&ws);
    assert_eq!(messages(&results, "foo.tex"), vec!["third"]);
    assert_eq!(total(&results), 1);
}

#[test]
fn chktex_for_unknown_document_is_hidden() {
    let ws = Workspace::new(empty_config());
    let mut manager = Manager::new();
    manager.update_chktex(uri("gone.tex"), vec![grammar_error("Command terminated")]);
    assert!(manager.get(&ws).is_empty());
}

#[test]
fn grammar_cleared_before_recompute() {
    let mut ws = Workspace::new(empty_config());
    let mut manager = Manager::new();
    let first = markup("foo.tex", Owner::Client, vec![], vec![], vec![], vec![grammar_error("one"), grammar_error("two")]);
    manager.update_syntax(&first, None);
    ws.insert(first);
    assert_eq!(for_uri(&manager.get(&ws), "foo.tex").len(), 2);

    let second = markup("foo.tex", Owner::Client, vec![], vec![], vec![], vec![]);
    manager.update_syntax(&second, None);
    ws.insert(second);
    assert!(for_uri(&manager.get(&ws), "foo.tex").is_empty());
}

#[test]
fn build_log_replaced_as_a_unit() {
    let mut ws = Workspace::new(empty_config());
    ws.insert(markup("foo.tex", Owner::Client, vec![], vec![], vec!["bar.tex"], vec![]));
    ws.insert(markup("bar.tex", Owner::Client, vec![], vec![], vec![], vec![]));
    let doc = markup("foo.tex", Owner::Client, vec![], vec![], vec!["bar.tex"], vec![]);
    let log = BuildLog {
        diagnostics: vec![
            (uri("foo.tex"), Diagnostic::new(range(3, 0, 3, 0), Severity::Error, DiagnosticSource::Build, "Undefined control sequence")),
            (uri("bar.tex"), Diagnostic::new(range(1, 0, 1, 0), Severity::Warning, DiagnosticSource::Build, "Overfull hbox")),
        ],
    };
    let mut manager = Manager::new();
    manager.update_syntax(&doc, Some(&log));
    let results = manager.get(&ws);
    assert_eq!(for_uri(&results, "foo.tex")[0].message, "Undefined control sequence");
    assert_eq!(for_uri(&results, "bar.tex")[0].message, "Overfull hbox");

    manager.update_syntax(&doc, None);
    let results = manager.get(&ws);
    assert!(results.is_empty());
}

#[test]
fn label_across_include_is_resolved() {
    let mut ws = Workspace::new(empty_config());
    ws.insert(markup(
        "a.tex",
        Owner::Client,
        vec![label(LabelKind::Reference, "sec", range(1, 0, 1, 9))],
        vec![],
        vec!["b.tex"],
        vec![],
    ));
    ws.insert(markup(
        "b.tex",
        Owner::Client,
        vec![label(LabelKind::Definition, "sec", range(0, 0, 0, 11))],
        vec![],
        vec![],
        vec![],
    ));
    let manager = Manager::new();
    assert!(manager.get(&ws).is_empty());
}

#[test]
fn label_in_unrelated_document_is_undefined_and_unused() {
    let mut ws = Workspace::new(empty_config());
    ws.insert(markup("a.tex", Owner::Client, vec![label(LabelKind::Reference, "sec", range(1, 0, 1, 9))], vec![], vec![], vec![]));
    ws.insert(markup("b.tex", Owner::Client, vec![label(LabelKind::Definition, "sec", range(0, 0, 0, 11))], vec![], vec![], vec![]));
    let results = Manager::new().get(&ws);
    assert_eq!(messages(&results, "a.tex"), vec!["Undefined reference"]);
    assert_eq!(messages(&results, "b.tex"), vec!["Unused label"]);
    assert_eq!(for_uri(&results, "b.tex")[0].severity, Severity::Hint);
    assert_eq!(total(&results), 2);
}

#[test]
fn ignored_pattern_hides_message() {
    let config = Config {
        allowed_patterns: Vec::new(),
        ignored_patterns: vec![Pattern::new("^Warning: deprecated").unwrap()],
    };
    let mut ws = Workspace::new(config);
    let doc = markup(
        "foo.tex",
        Owner::Client,
        vec![],
        vec![],
        vec![],
        vec![grammar_error("Warning: deprecated command"), grammar_error("Missing brace")],
    );
    let mut manager = Manager::new();
    manager.update_syntax(&doc, None);
    ws.insert(doc);
    let results = manager.get(&ws);
    assert_eq!(messages(&results, "foo.tex"), vec!["Missing brace"]);
    assert_eq!(total(&results), 1);
}

#[test]
fn allowed_patterns_keep_only_matches() {
    let config = Config {
        allowed_patterns: vec![Pattern::new("brace").unwrap()],
        ignored_patterns: Vec::new(),
    };
    let mut ws = Workspace::new(config);
    let doc = markup("foo.tex", Owner::Client, vec![], vec![], vec![], vec![grammar_error("Unused label"), grammar_error("Missing brace")]);
    let mut manager = Manager::new();
    manager.update_syntax(&doc, None);
    ws.insert(doc);
    let results = manager.get(&ws);
    assert_eq!(messages(&results, "foo.tex"), vec!["Missing brace"]);
    assert_eq!(total(&results), 1);
}

#[test]
fn invalid_pattern_is_rejected() {
    assert!(Pattern::new("(unclosed").is_none());
    let p = Pattern::new("^a+$").unwrap();
    assert_eq!(p.source(), "^a+$");
    let allowed = vec![p];
    assert!(filter_regex_patterns("aaa", &allowed, &Vec::new()));
    assert!(!filter_regex_patterns("aab", &allowed, &Vec::new()));
    assert!(!filter_regex_patterns("aaa", &Vec::new(), &allowed));
    assert!(filter_regex_patterns("anything", &Vec::new(), &Vec::new()));
}

#[test]
fn duplicate_label_across_include() {
    let mut ws = Workspace::new(empty_config());
    ws.insert(markup("foo.tex", Owner::Client, vec![label(LabelKind::Definition, "x", range(0, 13, 0, 22))], vec![], vec!["bar.tex"], vec![]));
    ws.insert(markup("bar.tex", Owner::Client, vec![label(LabelKind::Definition, "x", range(0, 0, 0, 9))], vec![], vec![], vec![]));
    let results = Manager::new().get(&ws);
    let mut duplicates: Vec<&Diagnostic> = Vec::new();
    for (_, list) in results.iter_all() {
        duplicates.extend(list.iter().filter(|d| d.message == "Duplicate label"));
    }
    assert_eq!(duplicates.len(), 2);
    assert_eq!(messages(&results, "foo.tex"), vec!["Duplicate label", "Unused label"]);
    assert_eq!(for_uri(&results, "foo.tex")[0].range, range(0, 13, 0, 22));
    assert_eq!(for_uri(&results, "bar.tex")[0].range, range(0, 0, 0, 9));
    for d in &duplicates {
        let related: Vec<(String, Range)> = d.related.iter().map(|r| (r.uri.text.clone(), r.range)).collect();
        assert_eq!(
            related,
            vec![(uri("foo.tex").text, range(0, 13, 0, 22)), (uri("bar.tex").text, range(0, 0, 0, 9))]
        );
    }
    assert!(results.iter_all().all(|(_, list)| list.iter().all(|d| d.message != "Undefined reference")));
}

#[test]
fn undefined_citation_with_empty_bibliography() {
    let mut ws = Workspace::new(empty_config());
    ws.insert(bibliography("foo.bib", Owner::Client, vec![]));
    ws.insert(markup(
        "foo.tex",
        Owner::Client,
        vec![],
        vec![Citation { key: "missing".to_string(), range: range(0, 0, 0, 14) }],
        vec!["foo.bib"],
        vec![],
    ));
    let results = Manager::new().get(&ws);
    assert_eq!(total(&results), 1);
    let found = for_uri(&results, "foo.tex");
    assert_eq!(found.len(), 1);
    assert_eq!(found[0].message, "Undefined reference");
    assert_eq!(found[0].range, range(0, 0, 0, 14));
    assert_eq!(found[0].source, DiagnosticSource::Citation);
    assert_eq!(found[0].severity, Severity::Error);
}

#[test]
fn unused_and_duplicate_entries() {
    let mut ws = Workspace::new(empty_config());
    ws.insert(bibliography(
        "refs.bib",
        Owner::Client,
        vec![
            Entry { key: "a".to_string(), range: range(0, 0, 0, 10) },
            Entry { key: "b".to_string(), range: range(1, 0, 1, 10) },
            Entry { key: "b".to_string(), range: range(2, 0, 2, 10) },
        ],
    ));
    ws.insert(markup(
        "main.tex",
        Owner::Client,
        vec![],
        vec![Citation { key: "b".to_string(), range: range(0, 0, 0, 8) }],
        vec!["refs.bib"],
        vec![],
    ));
    let results = Manager::new().get(&ws);
    assert_eq!(messages(&results, "refs.bib"), vec!["Unused entry", "Duplicate entry key", "Duplicate entry key"]);
    assert_eq!(total(&results), 3);
    let found = for_uri(&results, "refs.bib");
    assert_eq!(found[0].range, range(0, 0, 0, 10));
    assert_eq!(found[1].related.len(), 2);
    assert_eq!(found[1].range, range(1, 0, 1, 10));
}

#[test]
fn project_is_closed_in_both_directions() {
    let mut ws = Workspace::new(empty_config());
    ws.insert(markup("main.tex", Owner::Client, vec![], vec![], vec!["a.tex", "b.tex"], vec![]));
    ws.insert(markup("a.tex", Owner::Client, vec![], vec![], vec![], vec![]));
    ws.insert(markup("b.tex", Owner::Client, vec![], vec![], vec!["c.tex"], vec![]));
    ws.insert(markup("c.tex", Owner::Client, vec![], vec![], vec![], vec![]));
    ws.insert(markup("other.tex", Owner::Client, vec![], vec![], vec![], vec![]));
    assert_eq!(ws.project(1), vec![true, true, true, true, false]);
    assert_eq!(ws.project(3), vec![true, true, true, true, false]);
    assert_eq!(ws.project(4), vec![false, false, false, false, true]);
}

#[test]
fn insert_replaces_document_at_same_uri() {
    let mut ws = Workspace::new(empty_config());
    ws.insert(markup("foo.tex", Owner::Client, vec![], vec![], vec![], vec![]));
    ws.insert(markup("foo.tex", Owner::Server, vec![], vec![], vec![], vec![]));
    assert_eq!(ws.documents.len(), 1);
    assert_eq!(ws.lookup(&uri("foo.tex")).unwrap().owner, Owner::Server);
    assert!(ws.lookup(&uri("bar.tex")).is_none());
}
