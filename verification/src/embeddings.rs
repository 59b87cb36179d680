//! Retrieval of context: embeddings, the stores that hold them, and the
//! rule by which retrieved text becomes the context of a prompt.

use vstd::prelude::*;
use crate::document::Document;
use crate::error::{EmbedderError, Error, VectorStoreError};

verus! {

/// The number of matches asked of each embedder for a prompt.
pub const DEFAULT_TOP_N: usize = 1;

/// A document with its embedding vector. The library never computes with
/// the coordinates: each is carried as the bits of an IEEE 754 double.
#[derive(Debug, PartialEq, Eq)]
pub struct Embedding {
    /// Identifies the embedding in a store.
    pub id: String,
    /// The coordinates of the vector, each as the bits of a double.
    pub embedded_data: Vec<u64>,
    /// The text that was embedded.
    pub raw_data: String,
}

/// The model of an [`Embedding`].
pub struct EmbeddingView {
    pub id: Seq<char>,
    pub embedded_data: Seq<u64>,
    pub raw_data: Seq<char>,
}

impl View for Embedding {
    type V = EmbeddingView;

    open spec fn view(&self) -> EmbeddingView {
        EmbeddingView {
            id: self.id@,
            embedded_data: self.embedded_data@,
            raw_data: self.raw_data@,
        }
    }
}

impl Clone for Embedding {
    fn clone(&self) -> (r: Self)
        ensures
            r@ == self@,
    {
        Embedding {
            id: self.id.clone(),
            embedded_data: self.embedded_data.clone(),
            raw_data: self.raw_data.clone(),
        }
    }
}

/// Turns text into a vector.
pub trait EmbeddingModel: Send + Sync {
    /// The coordinates of the vector for `data`, each as the bits of a
    /// double.
    fn embed(&self, data: &str) -> Result<Vec<u64>, EmbedderError>;
}

/// Holds embeddings and finds those nearest to a query.
pub trait VectorStore: Send + Sync {
    /// The embedding stored under `id`.
    fn get_by_id(&self, id: String) -> Result<Embedding, VectorStoreError>;

    /// Stores or replaces an embedding. One with empty `raw_data` asks for
    /// the removal of what is stored under its `id`.
    fn store(&self, embedding: Embedding) -> Result<(), VectorStoreError>;

    /// The `n` embeddings nearest to `query`, nearest first.
    fn top_n(&self, query: &[u64], n: usize) -> Result<Vec<Embedding>, VectorStoreError>;
}

/// An embedding model with the store that holds its vectors.
pub struct Embedder {
    /// The store that holds the vectors and is asked for the nearest ones.
    pub vector_store: Box<dyn VectorStore>,
    /// The model that turns a text into its vector.
    pub embedding_model: Box<dyn EmbeddingModel>,
}

/// The embedding to store for a document, given the vector of its text.
pub open spec fn spec_embedding_of(doc: crate::document::DocumentView, vector: Seq<u64>) -> EmbeddingView {
    EmbeddingView { id: doc.id, embedded_data: vector, raw_data: doc.data }
}

/// The embedding to store for a document, given the vector of its text.
pub fn embedding_of(doc: Document, vector: Vec<u64>) -> (r: Embedding)
    ensures
        r@ == spec_embedding_of(doc@, vector@),
{
    Embedding { id: doc.id, embedded_data: vector, raw_data: doc.data }
}

impl Embedder {
    /// An embedder over a store and a model.
    pub fn new(vector_store: Box<dyn VectorStore>, embedding_model: Box<dyn EmbeddingModel>) -> (r:
        Self)
        ensures
            r == (Embedder { vector_store, embedding_model }),
    {
        Embedder { vector_store, embedding_model }
    }

    /// The `top_n` stored embeddings nearest to `query`. A failure of the
    /// model comes back as `Error::Embedder`, one of the store as
    /// `Error::VectorStore`.
    pub fn query(&self, query: &str, top_n: usize) -> (r: Result<Vec<Embedding>, Error>)
        ensures
            r matches Err(e) ==> e is Embedder || e is VectorStore,
    {
        match self.embedding_model.embed(query) {
            Err(e) => Err(Error::Embedder(e)),
            Ok(vector) => match self.vector_store.top_n(vector.as_slice(), top_n) {
                Ok(hits) => Ok(hits),
                Err(e) => Err(Error::VectorStore(e)),
            },
        }
    }

    /// Takes a document into the store: its text is embedded and stored
    /// under its identifier. A document without text is stored without a
    /// vector, which asks the store to remove it; the model is not called
    /// for it.
    pub fn ingest(&self, doc: Document) -> (r: Result<(), Error>)
        ensures
            r matches Err(e) ==> e is VectorStore || (e is Embedder && doc@.data.len() > 0),
    {
        let vector = if doc.data.as_str().is_empty() {
            Vec::new()
        } else {
            match self.embedding_model.embed(doc.data.as_str()) {
                Ok(v) => v,
                Err(e) => {
                    return Err(Error::Embedder(e));
                },
            }
        };
        match self.vector_store.store(embedding_of(doc, vector)) {
            Ok(()) => Ok(()),
            Err(e) => Err(Error::VectorStore(e)),
        }
    }
}

/// The texts of a list of matches, one after the other.
pub open spec fn spec_joined(hits: Seq<EmbeddingView>) -> Seq<char>
    decreases hits.len(),
{
    if hits.len() == 0 {
        Seq::empty()
    } else {
        spec_joined(hits.drop_last()) + hits.last().raw_data
    }
}

/// The context after one more embedder has answered: lost if the embedder
/// found nothing, else longer by the texts of its matches.
pub open spec fn spec_extend_context(so_far: Option<Seq<char>>, hits: Seq<EmbeddingView>) -> Option<
    Seq<char>,
> {
    match so_far {
        None => None,
        Some(text) => if hits.len() == 0 {
            None
        } else {
            Some(text + spec_joined(hits))
        },
    }
}

/// The context that the answers of the embedders give, in the order of the
/// embedders: none without embedders, none if any embedder found nothing,
/// else all texts, one after the other without a separator.
pub open spec fn spec_context(answers: Seq<Seq<EmbeddingView>>) -> Option<Seq<char>> {
    if answers.len() == 0 {
        None
    } else {
        spec_context_from(Some(Seq::empty()), answers)
    }
}

/// The context that further answers make of a context so far.
pub open spec fn spec_context_from(so_far: Option<Seq<char>>, answers: Seq<Seq<EmbeddingView>>) -> Option<
    Seq<char>,
>
    decreases answers.len(),
{
    if answers.len() == 0 {
        so_far
    } else {
        spec_extend_context(spec_context_from(so_far, answers.drop_last()), answers.last())
    }
}

/// The models of a list of embeddings.
pub open spec fn hits_view(hits: Seq<Embedding>) -> Seq<EmbeddingView> {
    Seq::new(hits.len(), |i: int| hits[i]@)
}

/// The model of an optional text.
pub open spec fn text_view(text: Option<String>) -> Option<Seq<char>> {
    match text {
        Some(t) => Some(t@),
        None => None,
    }
}

/// Takes the answer of one more embedder into the context.
pub fn extend_context(so_far: Option<String>, hits: &Vec<Embedding>) -> (r: Option<String>)
    ensures
        text_view(r) == spec_extend_context(text_view(so_far), hits_view(hits@)),
{
    match so_far {
        None => None,
        Some(mut text) => {
            if hits.len() == 0 {
                return None;
            }
            let ghost start = text@;
            let ghost all = hits_view(hits@);
            let mut i: usize = 0;
            assert(all.take(0) =~= Seq::empty());
            while i < hits.len()
                invariant
                    i <= hits@.len(),
                    all == hits_view(hits@),
                    text@ == start + spec_joined(all.take(i as int)),
                decreases hits@.len() - i,
            {
                text.append(hits[i].raw_data.as_str());
                proof {
                    assert(all.take(i + 1).drop_last() =~= all.take(i as int));
                    assert(all.take(i + 1).last() == all[i as int]);
                    assert(start + (spec_joined(all.take(i as int)) + all[i as int].raw_data) =~= (
                    start + spec_joined(all.take(i as int))) + all[i as int].raw_data);
                }
                i += 1;
            }
            assert(all.take(hits@.len() as int) =~= all);
            Some(text)
        },
    }
}

/// One embedder that finds nothing loses the whole context, whatever the
/// other embedders found.
pub proof fn lemma_one_miss_loses_context(answers: Seq<Seq<EmbeddingView>>, miss: int)
    requires
        0 <= miss < answers.len(),
        answers[miss].len() == 0,
    ensures
        spec_context(answers) is None,
{
    lemma_miss_from(Some(Seq::empty()), answers, miss);
}

proof fn lemma_miss_from(so_far: Option<Seq<char>>, answers: Seq<Seq<EmbeddingView>>, miss: int)
    requires
        0 <= miss < answers.len(),
        answers[miss].len() == 0,
    ensures
        spec_context_from(so_far, answers) is None,
    decreases answers.len(),
{
    if miss < answers.len() - 1 {
        lemma_miss_from(so_far, answers.drop_last(), miss);
    }
}

/// Where every embedder finds something, the context is there.
pub proof fn lemma_all_hits_give_context(answers: Seq<Seq<EmbeddingView>>)
    requires
        answers.len() > 0,
        forall|i: int| 0 <= i < answers.len() ==> answers[i].len() > 0,
    ensures
        spec_context(answers) is Some,
{
    lemma_hits_from(Seq::empty(), answers);
}

proof fn lemma_hits_from(start: Seq<char>, answers: Seq<Seq<EmbeddingView>>)
    requires
        forall|i: int| 0 <= i < answers.len() ==> answers[i].len() > 0,
    ensures
        spec_context_from(Some(start), answers) is Some,
    decreases answers.len(),
{
    if answers.len() > 0 {
        lemma_hits_from(start, answers.drop_last());
    }
}

} // verus!
