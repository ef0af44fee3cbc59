use vstd::prelude::*;
use multimap::MultiMap;
use crate::types::{diagnostics_view, Diagnostic, DiagnosticView};

verus! {

#[verifier::external_type_specification]
#[verifier::external_body]
#[verifier::reject_recursive_types(K)]
#[verifier::reject_recursive_types(V)]
#[verifier::reject_recursive_types(S)]
pub struct ExMultiMap<K, V, S>(MultiMap<K, V, S>);

/// What a diagnostics multimap holds: for each key, its list in insertion order.
pub uninterp spec fn store_contents(m: MultiMap<String, Diagnostic>) -> Map<Seq<char>, Seq<DiagnosticView>>;

pub open spec fn empty_store() -> Map<Seq<char>, Seq<DiagnosticView>> {
    Map::empty()
}

/// The list under `key`, empty when there is none.
pub open spec fn list_or_empty(m: Map<Seq<char>, Seq<DiagnosticView>>, key: Seq<char>) -> Seq<DiagnosticView> {
    if m.contains_key(key) {
        m[key]
    } else {
        Seq::empty()
    }
}

/// Relies on MultiMap::new: the map starts empty.
#[verifier::external_body]
pub(crate) fn store_new() -> (r: MultiMap<String, Diagnostic>)
    ensures
        store_contents(r) == empty_store(),
{
    MultiMap::new()
}

/// Relies on MultiMap::insert: the value goes last in the list under the
/// key, which is created when absent; other keys keep their lists.
#[verifier::external_body]
pub(crate) fn store_insert(m: &mut MultiMap<String, Diagnostic>, key: String, value: Diagnostic)
    ensures
        store_contents(*final(m)) == store_contents(*old(m)).insert(
            key@,
            list_or_empty(store_contents(*old(m)), key@).push(value@),
        ),
{
    m.insert(key, value)
}

/// Relies on MultiMap::remove: the key and its whole list are dropped.
#[verifier::external_body]
pub(crate) fn store_remove(m: &mut MultiMap<String, Diagnostic>, key: &String)
    ensures
        store_contents(*final(m)) == store_contents(*old(m)).remove(key@),
{
    m.remove(key);
}

/// Relies on MultiMap::get_vec: the list under the key, if there is one.
#[verifier::external_body]
pub(crate) fn store_get<'a>(m: &'a MultiMap<String, Diagnostic>, key: &String) -> (r: Option<&'a Vec<Diagnostic>>)
    ensures
        r.is_some() == store_contents(*m).contains_key(key@),
        r matches Some(v) ==> diagnostics_view(v@) == store_contents(*m)[key@],
{
    m.get_vec(key)
}

} // verus!
