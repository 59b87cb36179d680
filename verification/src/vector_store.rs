//! A vector store that holds its embeddings in memory.

use vstd::prelude::*;
use crate::embeddings::{hits_view, Embedding, EmbeddingView};
use crate::error::VectorStoreError;
use crate::text::str_eq;

verus! {

/// The embeddings of a store, by their identifiers and in the order in
/// which they came.
pub struct InMemoryVectorStore {
    embeddings: Vec<Embedding>,
}

/// The index of the first embedding with the identifier `id`.
pub open spec fn spec_index_of(embeddings: Seq<EmbeddingView>, id: Seq<char>) -> Option<int>
    decreases embeddings.len(),
{
    if embeddings.len() == 0 {
        None
    } else if embeddings[0].id == id {
        Some(0)
    } else {
        match spec_index_of(embeddings.drop_first(), id) {
            Some(i) => Some(i + 1),
            None => None,
        }
    }
}

/// `spec_index_of` finds the least index with the identifier, and none
/// exactly when no embedding has it.
pub proof fn lemma_index_of(embeddings: Seq<EmbeddingView>, id: Seq<char>)
    ensures
        match spec_index_of(embeddings, id) {
            Some(i) => 0 <= i < embeddings.len() && embeddings[i].id == id && forall|j: int|
                0 <= j < i ==> embeddings[j].id != id,
            None => forall|j: int| 0 <= j < embeddings.len() ==> embeddings[j].id != id,
        },
    decreases embeddings.len(),
{
    if embeddings.len() > 0 && embeddings[0].id != id {
        let rest = embeddings.drop_first();
        lemma_index_of(rest, id);
        match spec_index_of(rest, id) {
            Some(i) => {
                assert forall|j: int| 0 <= j < i + 1 implies embeddings[j].id != id by {
                    if j > 0 {
                        assert(embeddings[j] == rest[j - 1]);
                    }
                }
            },
            None => {
                assert forall|j: int| 0 <= j < embeddings.len() implies embeddings[j].id != id by {
                    if j > 0 {
                        assert(embeddings[j] == rest[j - 1]);
                    }
                }
            },
        }
    }
}

/// No identifier occurs twice.
pub open spec fn distinct_ids(embeddings: Seq<EmbeddingView>) -> bool {
    forall|i: int, j: int|
        0 <= i < j < embeddings.len() ==> (#[trigger] embeddings[i]).id != (
        #[trigger] embeddings[j]).id
}

/// What a lookup of `id` finds.
pub open spec fn spec_get(embeddings: Seq<EmbeddingView>, id: Seq<char>) -> Option<EmbeddingView> {
    match spec_index_of(embeddings, id) {
        Some(i) => Some(embeddings[i]),
        None => None,
    }
}

/// The embeddings after `embedding` was handed to the store, or `None`
/// where the store refuses it. One without text asks for the removal of
/// what is stored under its identifier, and is refused where nothing is.
/// Any other one replaces what is stored under its identifier, or is added
/// behind the others.
pub open spec fn spec_store(embeddings: Seq<EmbeddingView>, embedding: EmbeddingView) -> Option<
    Seq<EmbeddingView>,
> {
    match spec_index_of(embeddings, embedding.id) {
        Some(i) => if embedding.raw_data.len() == 0 {
            Some(embeddings.remove(i))
        } else {
            Some(embeddings.update(i, embedding))
        },
        None => if embedding.raw_data.len() == 0 {
            None
        } else {
            Some(embeddings.push(embedding))
        },
    }
}

/// Handing an embedding to a store in which no identifier occurs twice
/// leaves such a store, in which the embedding is found again, or nothing
/// is found under its identifier if it asked for a removal.
pub proof fn lemma_store_keeps_ids_distinct(embeddings: Seq<EmbeddingView>, embedding: EmbeddingView)
    requires
        distinct_ids(embeddings),
        spec_store(embeddings, embedding) is Some,
    ensures
        distinct_ids(spec_store(embeddings, embedding)->0),
        spec_get(spec_store(embeddings, embedding)->0, embedding.id) == if embedding.raw_data.len()
            == 0 {
            None
        } else {
            Some(embedding)
        },
{
    let after = spec_store(embeddings, embedding)->0;
    lemma_index_of(embeddings, embedding.id);
    lemma_index_of(after, embedding.id);
    match spec_index_of(embeddings, embedding.id) {
        Some(i) => {
            if embedding.raw_data.len() == 0 {
                assert forall|a: int, b: int| 0 <= a < b < after.len() implies (#[trigger] after[a]).id
                    != (#[trigger] after[b]).id by {
                    let a0 = if a < i {
                        a
                    } else {
                        a + 1
                    };
                    let b0 = if b < i {
                        b
                    } else {
                        b + 1
                    };
                    assert(after[a] == embeddings[a0] && after[b] == embeddings[b0]);
                }
                if spec_index_of(after, embedding.id) is Some {
                    let k = spec_index_of(after, embedding.id)->0;
                    let k0 = if k < i {
                        k
                    } else {
                        k + 1
                    };
                    assert(after[k] == embeddings[k0]);
                    assert(false);
                }
            } else {
                assert forall|a: int, b: int| 0 <= a < b < after.len() implies (#[trigger] after[a]).id
                    != (#[trigger] after[b]).id by {
                    assert(after[a].id == embeddings[a].id && after[b].id == embeddings[b].id);
                }
                assert(after[i] == embedding);
                let k = spec_index_of(after, embedding.id)->0;
                if k != i {
                    assert(after[k].id == embeddings[k].id);
                    assert(false);
                }
            }
        },
        None => {
            assert forall|a: int, b: int| 0 <= a < b < after.len() implies (#[trigger] after[a]).id
                != (#[trigger] after[b]).id by {
                if b < embeddings.len() {
                    assert(after[a] == embeddings[a] && after[b] == embeddings[b]);
                } else {
                    assert(after[a] == embeddings[a]);
                }
            }
            let last = after.len() - 1;
            assert(after[last] == embedding);
            let k = spec_index_of(after, embedding.id)->0;
            if k != last {
                assert(after[k] == embeddings[k]);
                assert(false);
            }
        },
    }
}

impl InMemoryVectorStore {
    /// The embeddings of the store.
    pub closed spec fn contents(&self) -> Seq<EmbeddingView> {
        hits_view(self.embeddings@)
    }

    /// An empty store. The store takes no configuration: it fails, with a
    /// note that says so, exactly when one is given.
    pub fn new(json_config: Option<&str>) -> (r: Result<Self, String>)
        ensures
            match r {
                Ok(store) => json_config is None && store.contents() == Seq::<
                    EmbeddingView,
                >::empty(),
                Err(note) => json_config is Some && note@
                    == "`InMemoryVectorStore` doesnt expect a config json!"@,
            },
    {
        if json_config.is_some() {
            return Err(String::from_str("`InMemoryVectorStore` doesnt expect a config json!"));
        }
        let embeddings: Vec<Embedding> = Vec::new();
        assert(hits_view(embeddings@) =~= Seq::<EmbeddingView>::empty());
        Ok(Self { embeddings })
    }

    /// The position of the embedding with the identifier `id`.
    fn index_of(&self, id: &str) -> (r: Option<usize>)
        ensures
            match r {
                Some(i) => i < self.embeddings@.len() && spec_index_of(self.contents(), id@)
                    == Some(i as int),
                None => spec_index_of(self.contents(), id@) is None,
            },
    {
        let ghost all = hits_view(self.embeddings@);
        let mut i: usize = 0;
        while i < self.embeddings.len()
            invariant
                i <= self.embeddings@.len(),
                all == hits_view(self.embeddings@),
                forall|j: int| 0 <= j < i ==> all[j].id != id@,
            decreases self.embeddings@.len() - i,
        {
            if str_eq(self.embeddings[i].id.as_str(), id) {
                proof {
                    lemma_index_of(all, id@);
                    assert(all[i as int].id == id@);
                }
                return Some(i);
            }
            i += 1;
        }
        proof {
            lemma_index_of(all, id@);
        }
        None
    }

    /// The embedding stored under `id`. Fails with `EmbeddingNotFound`
    /// exactly when there is none.
    pub fn get_by_id(&self, id: &str) -> (r: Result<Embedding, VectorStoreError>)
        ensures
            match r {
                Ok(embedding) => spec_get(self.contents(), id@) == Some(embedding@),
                Err(e) => spec_get(self.contents(), id@) is None && e is EmbeddingNotFound,
            },
    {
        match self.index_of(id) {
            Some(i) => Ok(self.embeddings[i].clone()),
            None => Err(VectorStoreError::EmbeddingNotFound),
        }
    }

    /// Hands an embedding to the store. One without text removes what is
    /// stored under its identifier, and fails with `EmbeddingNotFound`
    /// exactly when nothing is; any other one is stored, in the place of
    /// what was stored under its identifier.
    pub fn store(&mut self, embedding: Embedding) -> (r: Result<(), VectorStoreError>)
        ensures
            match spec_store(old(self).contents(), embedding@) {
                Some(after) => r is Ok && final(self).contents() == after,
                None => r == Err::<(), VectorStoreError>(VectorStoreError::EmbeddingNotFound)
                    && final(self).contents() == old(self).contents(),
            },
    {
        let ghost before = hits_view(self.embeddings@);
        let found = self.index_of(embedding.id.as_str());
        let removal = embedding.raw_data.as_str().unicode_len() == 0;
        match found {
            Some(i) => {
                if removal {
                    self.embeddings.remove(i);
                    proof {
                        let after = hits_view(self.embeddings@);
                        assert(after =~= before.remove(i as int));
                    }
                } else {
                    self.embeddings.set(i, embedding);
                    proof {
                        let after = hits_view(self.embeddings@);
                        assert(after =~= before.update(i as int, embedding@));
                    }
                }
                Ok(())
            },
            None => {
                if removal {
                    Err(VectorStoreError::EmbeddingNotFound)
                } else {
                    self.embeddings.push(embedding);
                    proof {
                        let after = hits_view(self.embeddings@);
                        assert(after =~= before.push(embedding@));
                    }
                    Ok(())
                }
            },
        }
    }

    /// The embeddings of the store, in the order in which they came.
    pub fn embeddings(&self) -> (r: &Vec<Embedding>)
        ensures
            hits_view(r@) == self.contents(),
    {
        &self.embeddings
    }

    /// The first `n` of the embeddings at the positions `ranked`, which
    /// lists positions in the store from the best match on. A position
    /// outside the store is passed over.
    pub fn select(&self, ranked: &Vec<usize>, n: usize) -> (r: Vec<Embedding>)
        ensures
            hits_view(r@) == spec_select(self.contents(), ranked@, n as int),
    {
        let ghost all = hits_view(self.embeddings@);
        let mut out: Vec<Embedding> = Vec::new();
        let mut i: usize = 0;
        proof {
            assert(ranked@.take(0) =~= Seq::<usize>::empty());
            assert(hits_view(out@) =~= Seq::<EmbeddingView>::empty());
            lemma_select_none(all, ranked@);
        }
        while i < ranked.len() && out.len() < n
            invariant
                i <= ranked@.len(),
                all == hits_view(self.embeddings@),
                out@.len() <= n,
                hits_view(out@) == spec_select(all, ranked@.take(i as int), n as int),
                out@.len() == n ==> spec_select(all, ranked@, n as int) == hits_view(out@),
            decreases ranked@.len() - i,
        {
            let ghost before = hits_view(out@);
            proof {
                assert(ranked@.take(i + 1).drop_last() =~= ranked@.take(i as int));
                assert(ranked@.take(i + 1).last() == ranked@[i as int]);
            }
            let at = ranked[i];
            if at < self.embeddings.len() {
                out.push(self.embeddings[at].clone());
                assert(hits_view(out@) =~= before.push(all[at as int]));
            }
            i += 1;
            proof {
                if out@.len() == n {
                    lemma_select_full(all, ranked@, n as int, i as int);
                }
            }
        }
        proof {
            if i == ranked@.len() {
                assert(ranked@.take(i as int) =~= ranked@);
            }
        }
        out
    }
}

/// The first `n` of the embeddings at the positions `ranked`; a position
/// outside the store is passed over.
pub open spec fn spec_select(embeddings: Seq<EmbeddingView>, ranked: Seq<usize>, n: int) -> Seq<
    EmbeddingView,
>
    decreases ranked.len(),
{
    if ranked.len() == 0 {
        Seq::empty()
    } else {
        let before = spec_select(embeddings, ranked.drop_last(), n);
        if before.len() < n && ranked.last() < embeddings.len() {
            before.push(embeddings[ranked.last() as int])
        } else {
            before
        }
    }
}

/// A selection that is full stays as it is, whatever positions follow.
proof fn lemma_select_full(embeddings: Seq<EmbeddingView>, ranked: Seq<usize>, n: int, i: int)
    requires
        0 <= i <= ranked.len(),
        spec_select(embeddings, ranked.take(i), n).len() >= n,
    ensures
        spec_select(embeddings, ranked, n) == spec_select(embeddings, ranked.take(i), n),
    decreases ranked.len() - i,
{
    if i < ranked.len() {
        assert(ranked.take(i + 1).drop_last() =~= ranked.take(i));
        lemma_select_full(embeddings, ranked, n, i + 1);
    } else {
        assert(ranked.take(i) =~= ranked);
    }
}

/// Nothing is selected where nothing is asked for.
proof fn lemma_select_none(embeddings: Seq<EmbeddingView>, ranked: Seq<usize>)
    ensures
        spec_select(embeddings, ranked, 0) == Seq::<EmbeddingView>::empty(),
    decreases ranked.len(),
{
    if ranked.len() > 0 {
        lemma_select_none(embeddings, ranked.drop_last());
    }
}

} // verus!
