//! Shared application state, one value per type.
//!
//! Tools ask for application state by the identity of its type. The store
//! keeps at most one value per key, behind a shared handle, and never
//! replaces or removes an entry: a second registration under a key is
//! refused. The store is generic in what it holds; an application that keeps
//! values of several types in one store chooses a type-erased `V`.
//!
//! The values stand in the order of their registration; a concurrent hash
//! map finds the place of a key among them.

use vstd::prelude::*;
use crate::error::{StateError, StateErrorView};
use dashmap::DashMap;
use std::any::TypeId;
use std::sync::Arc;

verus! {

#[verifier::external_type_specification]
#[verifier::external_body]
pub struct ExTypeId(TypeId);

#[verifier::external_type_specification]
#[verifier::external_body]
#[verifier::reject_recursive_types(K)]
#[verifier::reject_recursive_types(V)]
#[verifier::reject_recursive_types(S)]
pub struct ExDashMap<K, V, S>(DashMap<K, V, S>);

/// The places that an index holds, by key.
pub uninterp spec fn index_places(index: DashMap<TypeId, usize>) -> Map<TypeId, usize>;

/// The places of an index without entries.
pub open spec fn no_places() -> Map<TypeId, usize> {
    Map::empty()
}

/// An index without entries, from `DashMap::new`.
#[verifier::external_body]
fn index_new() -> (r: DashMap<TypeId, usize>)
    ensures
        index_places(r) == no_places(),
{
    DashMap::new()
}

/// The place that an index holds for a key, from `DashMap::get`, which
/// finds the entry of a key that is present and nothing for any other.
#[verifier::external_body]
fn index_get(index: &DashMap<TypeId, usize>, key: &TypeId) -> (r: Option<usize>)
    ensures
        r == if index_places(*index).dom().contains(*key) {
            Some(index_places(*index)[*key])
        } else {
            None::<usize>
        },
{
    index.get(key).map(|place| *place)
}

/// Sets the place of a key, with `DashMap::insert`, which adds the key or
/// replaces its entry and leaves every other entry as it is.
#[verifier::external_body]
fn index_insert(index: &mut DashMap<TypeId, usize>, key: TypeId, place: usize)
    ensures
        index_places(*final(index)) == index_places(*old(index)).insert(key, place),
{
    index.insert(key, place);
}

/// Another handle to a shared value, from `Arc::clone`: it points to the
/// same allocation.
#[verifier::external_body]
fn share<V>(handle: &Arc<V>) -> (r: Arc<V>)
    ensures
        r == *handle,
{
    Arc::clone(handle)
}

/// A shared handle to a registered value.
pub struct State<T: Send + Sync + 'static>(pub Arc<T>);

/// The store: the registered values in the order of their registration,
/// and for each key the place of its value.
pub struct StateStore<V: Send + Sync + 'static> {
    index: DashMap<TypeId, usize>,
    values: Vec<Arc<V>>,
}

/// Every place of an index lies among `count` values.
pub open spec fn places_within(places: Map<TypeId, usize>, count: nat) -> bool {
    forall|key: TypeId| #[trigger] places.dom().contains(key) ==> places[key] < count
}

/// The values by key that an index and a list of values stand for.
pub open spec fn placed_values<V>(places: Map<TypeId, usize>, values: Seq<Arc<V>>) -> Map<
    TypeId,
    V,
> {
    Map::new(|key: TypeId| places.dom().contains(key), |key: TypeId| *values[places[key] as int])
}

/// What registering `value` under `key` does to the store's contents:
/// refused if the key is taken, else the entry is added.
pub open spec fn spec_register<V>(contents: Map<TypeId, V>, key: TypeId, value: V) -> Option<
    Map<TypeId, V>,
> {
    if contents.dom().contains(key) {
        None
    } else {
        Some(contents.insert(key, value))
    }
}

/// What a lookup of `key` finds.
pub open spec fn spec_fetch<V>(contents: Map<TypeId, V>, key: TypeId) -> Option<V> {
    if contents.dom().contains(key) {
        Some(contents[key])
    } else {
        None
    }
}

impl<V: Send + Sync + 'static> StateStore<V> {
    /// Every key has its value among the values.
    #[verifier::type_invariant]
    pub closed spec fn well_formed(&self) -> bool {
        places_within(index_places(self.index), self.values@.len())
    }

    /// The registered values by their keys.
    pub closed spec fn contents(&self) -> Map<TypeId, V> {
        placed_values(index_places(self.index), self.values@)
    }

    /// An empty store.
    pub fn new() -> (r: Self)
        ensures
            r.contents() == Map::<TypeId, V>::empty(),
    {
        let store = StateStore { index: index_new(), values: Vec::new() };
        assert(store.contents() =~= Map::<TypeId, V>::empty());
        store
    }

    /// Whether a value is registered under `key`.
    pub fn holds(&self, key: TypeId) -> (r: bool)
        ensures
            r == self.contents().dom().contains(key),
    {
        index_get(&self.index, &key).is_some()
    }

    /// Registers `value` under `key`, behind a new shared handle. Fails with
    /// `AlreadyExists` exactly when the key is taken; the error carries
    /// `label`, the caller's name for the type, and the store is given up
    /// with it.
    pub fn register(self, key: TypeId, label: &str, value: V) -> (r: Result<Self, StateError>)
        ensures
            match r {
                Ok(store) => spec_register(self.contents(), key, value) == Some(
                    store.contents(),
                ),
                Err(e) => spec_register(self.contents(), key, value) is None && e@
                    == StateErrorView::AlreadyExists(label@),
            },
    {
        proof {
            use_type_invariant(&self);
        }
        match index_get(&self.index, &key) {
            Some(_) => Err(StateError::AlreadyExists(String::from_str(label))),
            None => {
                let ghost before = self.contents();
                let ghost places = index_places(self.index);
                let ghost held = self.values@;
                let StateStore { index, values } = self;
                let mut index = index;
                let mut values = values;
                let place = values.len();
                values.push(Arc::new(value));
                index_insert(&mut index, key, place);
                let store = StateStore { index, values };
                proof {
                    let after = index_places(store.index);
                    assert(after == places.insert(key, place));
                    assert forall|k: TypeId| #[trigger] after.dom().contains(k) implies after[k]
                        < store.values@.len() by {
                        if k != key {
                            assert(places.dom().contains(k));
                        }
                    }
                    assert forall|k: TypeId| #[trigger]
                        before.insert(key, value).dom().contains(k) implies store.contents()[k]
                        == before.insert(key, value)[k] by {
                        if k != key {
                            assert(places.dom().contains(k));
                            assert(store.values@[places[k] as int] == held[places[k] as int]);
                        }
                    }
                    assert(store.contents() =~= before.insert(key, value));
                }
                Ok(store)
            },
        }
    }

    /// Another handle to the value registered under `key`. Fails with
    /// `NotFound` exactly when nothing is registered under the key.
    pub fn fetch(&self, key: TypeId) -> (r: Result<State<V>, StateError>)
        ensures
            match r {
                Ok(state) => spec_fetch(self.contents(), key) == Some(*state.0),
                Err(e) => spec_fetch(self.contents(), key) is None && e is NotFound,
            },
    {
        proof {
            use_type_invariant(self);
        }
        match index_get(&self.index, &key) {
            Some(place) => Ok(State(share(&self.values[place]))),
            None => Err(StateError::NotFound),
        }
    }
}

/// A second registration under a key is refused.
pub proof fn lemma_second_registration_fails<V>(
    contents: Map<TypeId, V>,
    key: TypeId,
    first: V,
    second: V,
)
    ensures
        match spec_register(contents, key, first) {
            Some(after) => spec_register(after, key, second) is None,
            None => spec_register(contents, key, second) is None,
        },
{
}

/// A lookup after a successful registration finds the registered value, and
/// under every other key what was there before.
pub proof fn lemma_fetch_after_register<V>(
    contents: Map<TypeId, V>,
    key: TypeId,
    value: V,
    other: TypeId,
)
    requires
        spec_register(contents, key, value) is Some,
    ensures
        spec_fetch(spec_register(contents, key, value)->0, key) == Some(value),
        other != key ==> spec_fetch(spec_register(contents, key, value)->0, other) == spec_fetch(
            contents,
            other,
        ),
{
}

/// A lookup in an empty store finds nothing.
pub proof fn lemma_fetch_from_empty<V>(key: TypeId)
    ensures
        spec_fetch(Map::<TypeId, V>::empty(), key) is None,
{
}

} // verus!
