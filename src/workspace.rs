use vstd::prelude::*;
use vstd::set_lib::{lemma_int_range, lemma_len_subset, set_int_range};
use crate::filter::Pattern;
use crate::syntax::SyntaxTree;
use crate::types::{Owner, Uri};

verus! {

/// One version of a document: immutable once made; an edit makes a new one.
#[derive(Debug)]
pub struct Document {
    pub uri: Uri,
    pub owner: Owner,
    pub tree: SyntaxTree,
    pub text: String,
}

/// Whether a document takes part in diagnostics at all.
pub open spec fn relevant(owner: Owner) -> bool {
    owner != Owner::Distro
}

/// Whether `doc` includes or imports the document at `uri`.
pub open spec fn includes(doc: Document, uri: Seq<char>) -> bool {
    match doc.tree {
        SyntaxTree::Markup(t) => exists|k: int| 0 <= k < t.includes@.len() && (#[trigger] t.includes@[k])@ == uri,
        SyntaxTree::Bibliography(_) => false,
    }
}

impl Document {
    /// Whether this document takes part in diagnostics at all.
    pub fn is_relevant(&self) -> (r: bool)
        ensures
            r == relevant(self.owner),
    {
        match self.owner {
            Owner::Client => true,
            Owner::Server => true,
            Owner::Distro => false,
        }
    }

    /// Whether this document includes or imports the document at `uri`.
    pub fn includes(&self, uri: &Uri) -> (r: bool)
        ensures
            r == includes(*self, uri@),
    {
        match &self.tree {
            SyntaxTree::Markup(t) => {
                let mut k: usize = 0;
                while k < t.includes.len()
                    invariant
                        self.tree == SyntaxTree::Markup(*t),
                        k <= t.includes@.len(),
                        forall|j: int| 0 <= j < k ==> (#[trigger] t.includes@[j])@ != uri@,
                    decreases t.includes@.len() - k,
                {
                    if t.includes[k].same(uri) {
                        assert(t.includes@[k as int]@ == uri@);
                        assert(self.tree->Markup_0.includes@[k as int]@ == uri@);
                        assert(includes(*self, uri@));
                        return true;
                    }
                    k = k + 1;
                }
                false
            },
            SyntaxTree::Bibliography(_) => false,
        }
    }
}

/// Workspace-wide settings read by the diagnostics.
#[derive(Debug)]
pub struct Config {
    /// When not empty, only diagnostics whose message one of these matches are shown.
    pub allowed_patterns: Vec<Pattern>,
    /// Diagnostics whose message one of these matches are not shown.
    pub ignored_patterns: Vec<Pattern>,
}

/// All known documents, at most one per URI, and the configuration.
#[derive(Debug)]
pub struct Workspace {
    pub documents: Vec<Document>,
    pub config: Config,
}

impl Workspace {
    pub open spec fn docs(self) -> Seq<Document> {
        self.documents@
    }

    /// No two documents share a URI.
    pub open spec fn wf(self) -> bool {
        forall|i: int, j: int|
            0 <= i < self.docs().len() && 0 <= j < self.docs().len() && i != j ==> (
            #[trigger] self.docs()[i]).uri@ != (#[trigger] self.docs()[j]).uri@
    }

    pub open spec fn has(self, uri: Seq<char>) -> bool {
        exists|i: int| 0 <= i < self.docs().len() && (#[trigger] self.docs()[i]).uri@ == uri
    }

    /// The position of the document at `uri`, when there is one.
    pub open spec fn index_of(self, uri: Seq<char>) -> int {
        choose|i: int| 0 <= i < self.docs().len() && (#[trigger] self.docs()[i]).uri@ == uri
    }

    /// The owner of the document at `uri`, when there is one.
    pub open spec fn owner_of(self, uri: Seq<char>) -> Option<Owner> {
        if self.has(uri) {
            Some(self.docs()[self.index_of(uri)].owner)
        } else {
            None
        }
    }

    /// Whether `uri` names a document that takes part in diagnostics.
    pub open spec fn uri_relevant(self, uri: Seq<char>) -> bool {
        self.owner_of(uri) matches Some(o) && relevant(o)
    }

    /// Documents `i` and `j` are linked when one includes the other.
    pub open spec fn linked(self, i: int, j: int) -> bool {
        &&& 0 <= i < self.docs().len()
        &&& 0 <= j < self.docs().len()
        &&& (includes(self.docs()[i], self.docs()[j].uri@) || includes(self.docs()[j], self.docs()[i].uri@))
    }

    pub open spec fn closed_under_links(self, s: Set<int>) -> bool {
        forall|i: int, j: int| #![trigger s.contains(i), self.linked(i, j)]
            s.contains(i) && self.linked(i, j) ==> s.contains(j)
    }

    /// The project of document `d`: the least set that holds `d` and every
    /// document linked to one of its members, in either direction.
    pub open spec fn project_set(self, d: int) -> Set<int> {
        Set::new(|j: int| forall|s: Set<int>| #[trigger] self.closed_under_links(s) && s.contains(d) ==> s.contains(j))
    }

    pub proof fn lemma_unique(self, a: int, b: int)
        requires
            self.wf(),
            0 <= a < self.docs().len(),
            0 <= b < self.docs().len(),
            self.docs()[a].uri@ == self.docs()[b].uri@,
        ensures
            a == b,
    {
    }

    pub fn new(config: Config) -> (r: Workspace)
        ensures
            r.wf(),
            r.docs().len() == 0,
            r.config == config,
    {
        Workspace { documents: Vec::new(), config }
    }

    /// Whether no two documents share a URI.
    pub fn is_well_formed(&self) -> (r: bool)
        ensures
            r == self.wf(),
    {
        let n = self.documents.len();
        let mut i: usize = 0;
        while i < n
            invariant
                n == self.docs().len(),
                i <= n,
                forall|a: int, b: int| 0 <= a < i && 0 <= b < n && a != b ==> (
                #[trigger] self.docs()[a]).uri@ != (#[trigger] self.docs()[b]).uri@,
            decreases n - i,
        {
            let mut j: usize = 0;
            while j < n
                invariant
                    n == self.docs().len(),
                    i < n,
                    j <= n,
                    forall|a: int, b: int| 0 <= a < i && 0 <= b < n && a != b ==> (
                    #[trigger] self.docs()[a]).uri@ != (#[trigger] self.docs()[b]).uri@,
                    forall|b: int| 0 <= b < j && b != i ==> self.docs()[i as int].uri@ != (#[trigger] self.docs()[b]).uri@,
                decreases n - j,
            {
                if j != i && self.documents[i].uri.same(&self.documents[j].uri) {
                    return false;
                }
                j = j + 1;
            }
            i = i + 1;
        }
        true
    }

    /// The position of the document at `uri`, when there is one.
    pub fn find(&self, uri: &Uri) -> (r: Option<usize>)
        requires
            self.wf(),
        ensures
            r.is_some() == self.has(uri@),
            r matches Some(i) ==> i == self.index_of(uri@) && i < self.docs().len()
                && self.docs()[i as int].uri@ == uri@,
    {
        let mut i: usize = 0;
        while i < self.documents.len()
            invariant
                self.wf(),
                i <= self.docs().len(),
                forall|j: int| 0 <= j < i ==> (#[trigger] self.docs()[j]).uri@ != uri@,
            decreases self.docs().len() - i,
        {
            if self.documents[i].uri.same(uri) {
                proof {
                    assert(self.docs()[i as int].uri@ == uri@);
                    assert(self.has(uri@));
                    let c = self.index_of(uri@);
                    assert(0 <= c < self.docs().len() && self.docs()[c].uri@ == uri@);
                    self.lemma_unique(c, i as int);
                }
                return Some(i);
            }
            i = i + 1;
        }
        None
    }

    /// The document at `uri`, when there is one.
    pub fn lookup(&self, uri: &Uri) -> (r: Option<&Document>)
        requires
            self.wf(),
        ensures
            r.is_some() == self.has(uri@),
            r matches Some(d) ==> *d == self.docs()[self.index_of(uri@)] && self.owner_of(uri@) == Some(d.owner),
    {
        match self.find(uri) {
            Some(i) => Some(&self.documents[i]),
            None => None,
        }
    }

    /// Adds `document`, replacing the one at the same URI if there is one.
    pub fn insert(&mut self, document: Document)
        requires
            old(self).wf(),
        ensures
            final(self).wf(),
            final(self).config == old(self).config,
            ({
                let u = document.uri@;
                if old(self).has(u) {
                    final(self).docs() == old(self).docs().update(old(self).index_of(u), document)
                } else {
                    final(self).docs() == old(self).docs().push(document)
                }
            }),
    {
        match self.find(&document.uri) {
            Some(i) => {
                let ghost u = document.uri@;
                self.documents.set(i, document);
                proof {
                    assert forall|a: int, b: int|
                        0 <= a < self.docs().len() && 0 <= b < self.docs().len() && a != b implies (
                        #[trigger] self.docs()[a]).uri@ != (#[trigger] self.docs()[b]).uri@ by {
                        if a != i && b != i {
                            assert(old(self).docs()[a] == self.docs()[a]);
                            assert(old(self).docs()[b] == self.docs()[b]);
                        } else if a == i {
                            assert(old(self).docs()[b] == self.docs()[b]);
                            assert(old(self).docs()[i as int].uri@ == u);
                        } else {
                            assert(old(self).docs()[a] == self.docs()[a]);
                            assert(old(self).docs()[i as int].uri@ == u);
                        }
                    }
                }
            },
            None => {
                self.documents.push(document);
                proof {
                    assert forall|a: int, b: int|
                        0 <= a < self.docs().len() && 0 <= b < self.docs().len() && a != b implies (
                        #[trigger] self.docs()[a]).uri@ != (#[trigger] self.docs()[b]).uri@ by {
                        let n = old(self).docs().len();
                        if a < n && b < n {
                            assert(old(self).docs()[a] == self.docs()[a]);
                            assert(old(self).docs()[b] == self.docs()[b]);
                        } else if a < n {
                            assert(old(self).docs()[a] == self.docs()[a]);
                        } else {
                            assert(old(self).docs()[b] == self.docs()[b]);
                        }
                    }
                }
            },
        }
    }

    /// Whether documents `i` and `j` are linked.
    fn is_linked(&self, i: usize, j: usize) -> (r: bool)
        requires
            i < self.docs().len(),
            j < self.docs().len(),
        ensures
            r == self.linked(i as int, j as int),
    {
        self.documents[i].includes(&self.documents[j].uri) || self.documents[j].includes(&self.documents[i].uri)
    }

    /// The project of document `d`, as one flag per document of the workspace.
    pub fn project(&self, d: usize) -> (r: Vec<bool>)
        requires
            d < self.docs().len(),
        ensures
            r@.len() == self.docs().len(),
            forall|j: int| 0 <= j < self.docs().len() ==> r@[j] == #[trigger] self.project_set(d as int).contains(j),
    {
        let n = self.documents.len();
        let mut seen: Vec<bool> = Vec::new();
        while seen.len() < n
            invariant
                seen@.len() <= n,
                forall|j: int| 0 <= j < seen@.len() ==> !#[trigger] seen@[j],
            decreases n - seen@.len(),
        {
            seen.push(false);
        }
        let ghost pset = self.project_set(d as int);
        proof {
            assert(pset.contains(d as int));
        }
        seen.set(d, true);
        let mut queue: Vec<usize> = Vec::new();
        queue.push(d);
        let ghost seen_set: Set<int> = set![d as int];
        proof {
            assert forall|j: int| 0 <= j < n && #[trigger] seen@[j] implies exists|i: int| 0 <= i < queue@.len() && queue@[i] == j by {
                assert(j == d);
                assert(queue@[0] == d);
            }
            assert(seen_set.len() == 1);
        }
        let mut k: usize = 0;
        while k < queue.len()
            invariant
                n == self.docs().len(),
                d < n,
                pset == self.project_set(d as int),
                seen@.len() == n,
                k <= queue@.len(),
                queue@.len() == seen_set.len(),
                seen_set.finite(),
                seen@[d as int],
                forall|j: int| 0 <= j < n ==> (seen@[j] <==> #[trigger] seen_set.contains(j)),
                forall|j: int| #[trigger] seen_set.contains(j) ==> 0 <= j < n,
                forall|i: int| 0 <= i < queue@.len() ==> (#[trigger] queue@[i]) < n && seen@[queue@[i] as int],
                forall|j: int| 0 <= j < n && #[trigger] seen@[j] ==> exists|i: int| 0 <= i < queue@.len() && queue@[i] == j,
                forall|i: int, j: int| 0 <= i < k && #[trigger] self.linked(queue@[i] as int, j) ==> seen@[j],
                forall|j: int| 0 <= j < n && #[trigger] seen@[j] ==> pset.contains(j),
            decreases n - k,
        {
            proof {
                lemma_int_range(0, n as int);
                lemma_len_subset(seen_set, set_int_range(0, n as int));
            }
            let m = queue[k];
            let mut j: usize = 0;
            while j < n
                invariant
                    n == self.docs().len(),
                    d < n,
                    pset == self.project_set(d as int),
                    seen@.len() == n,
                    k < queue@.len(),
                    m == queue@[k as int],
                    j <= n,
                    queue@.len() == seen_set.len(),
                    seen_set.finite(),
                    seen@[d as int],
                    forall|jj: int| 0 <= jj < n ==> (seen@[jj] <==> #[trigger] seen_set.contains(jj)),
                    forall|jj: int| #[trigger] seen_set.contains(jj) ==> 0 <= jj < n,
                    forall|i: int| 0 <= i < queue@.len() ==> (#[trigger] queue@[i]) < n && seen@[queue@[i] as int],
                    forall|jj: int| 0 <= jj < n && #[trigger] seen@[jj] ==> exists|i: int| 0 <= i < queue@.len() && queue@[i] == jj,
                    forall|i: int, jj: int| 0 <= i < k && #[trigger] self.linked(queue@[i] as int, jj) ==> seen@[jj],
                    forall|jj: int| 0 <= jj < j && self.linked(m as int, jj) ==> seen@[jj],
                    forall|jj: int| 0 <= jj < n && #[trigger] seen@[jj] ==> pset.contains(jj),
                decreases n - j,
            {
                if !seen[j] && self.is_linked(m, j) {
                    proof {
                        assert(pset.contains(m as int));
                        assert forall|s: Set<int>| #[trigger] self.closed_under_links(s) && s.contains(d as int) implies s.contains(j as int) by {
                            assert(s.contains(m as int));
                            assert(self.linked(m as int, j as int));
                        }
                        assert(pset.contains(j as int));
                    }
                    let ghost old_queue = queue@;
                    let ghost old_seen = seen@;
                    seen.set(j, true);
                    queue.push(j);
                    proof {
                        seen_set = seen_set.insert(j as int);
                        assert forall|jj: int| 0 <= jj < n && #[trigger] seen@[jj] implies exists|i: int| 0 <= i < queue@.len() && queue@[i] == jj by {
                            if jj == j {
                                assert(queue@[old_queue.len() as int] == jj);
                            } else {
                                assert(old_seen[jj]);
                                let i = choose|i: int| 0 <= i < old_queue.len() && old_queue[i] == jj;
                                assert(queue@[i] == jj);
                            }
                        }
                        assert forall|i: int, jj: int| 0 <= i < k && #[trigger] self.linked(queue@[i] as int, jj) implies seen@[jj] by {
                            assert(queue@[i] == old_queue[i]);
                        }
                    }
                }
                j = j + 1;
            }
            k = k + 1;
        }
        proof {
            let s = Set::new(|j: int| 0 <= j < n && seen@[j]);
            assert forall|i: int, j: int| #![trigger s.contains(i), self.linked(i, j)]
                s.contains(i) && self.linked(i, j) implies s.contains(j) by {
                let q = choose|q: int| 0 <= q < queue@.len() && queue@[q] == i;
                assert(self.linked(queue@[q] as int, j));
            }
            assert(self.closed_under_links(s));
            assert forall|j: int| 0 <= j < n implies seen@[j] == #[trigger] pset.contains(j) by {
                if pset.contains(j) {
                    assert(s.contains(j));
                }
            }
        }
        seen
    }
}

} // verus!
