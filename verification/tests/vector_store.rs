use seedframe::document::Document;
use seedframe::embeddings::Embedding;
use seedframe::error::{
    CompletionError, DirectLoaderError, EmbedderError, Error, ExtractionError, StateError, ToolError,
    ToolSetError, VectorStoreError,
};
use seedframe::loader::direct::DirectLoader;
use seedframe::vector_store::InMemoryVectorStore;

fn embedding(id: &str, text: &str, vector: &[f64]) -> Embedding {
    Embedding {
        id: id.to_string(),
        raw_data: text.to_string(),
        embedded_data: vector.iter().map(|v| v.to_bits()).collect(),
    }
}

fn cosine_similarity(a: &[u64], b: &[u64]) -> f64 {
    let a: Vec<f64> = a.iter().map(|v| f64::from_bits(*v)).collect();
    let b: Vec<f64> = b.iter().map(|v| f64::from_bits(*v)).collect();
    let dot_product: f64 = a.iter().zip(&b).map(|(x, y)| x * y).sum();
    let norm_a = a.iter().map(|x| x * x).sum::<f64>().sqrt();
    let norm_b = b.iter().map(|x| x * x).sum::<f64>().sqrt();
    dot_product / (norm_a * norm_b)
}

fn top_n(store: &InMemoryVectorStore, query: &[f64], n: usize) -> Vec<Embedding> {
    let query: Vec<u64> = query.iter().map(|v| v.to_bits()).collect();
    let mut scored: Vec<(f64, usize)> = store
        .embeddings()
        .iter()
        .enumerate()
        .map(|(i, e)| (cosine_similarity(&query, &e.embedded_data), i))
        .collect();
    scored.sort_by(|a, b| b.0.partial_cmp(&a.0).unwrap_or(std::cmp::Ordering::Equal));
    let ranked: Vec<usize> = scored.into_iter().map(|(_, i)| i).collect();
    store.select(&ranked, n)
}

#[test]
fn test_get_by_id() {
    let embedding = embedding("id", "hello world", &[1.0, 2.0, 3.0]);
    let mut store = InMemoryVectorStore::new(None).unwrap();
    store.store(embedding.clone()).unwrap();

    let result = store.get_by_id("id");
    assert!(result.is_ok());
    assert_eq!(result.unwrap(), embedding);

    let result = store.get_by_id("non_existant_id");
    assert!(result.is_err());
    assert_eq!(result.unwrap_err(), VectorStoreError::EmbeddingNotFound);
}

#[test]
fn test_store() {
    let mut store = InMemoryVectorStore::new(None).unwrap();

    let first = embedding("id", "hello world", &[1.0, 2.0, 3.0]);

    let result = store.store(first.clone());
    assert!(result.is_ok());

    let fetched_embedding = store.get_by_id("id");
    assert!(fetched_embedding.is_ok());
    assert_eq!(fetched_embedding.unwrap(), first);

    let updated_embedding = embedding("id", "shalom world", &[4.0, 5.0, 6.0]);
    let result = store.store(updated_embedding.clone());
    assert!(result.is_ok());

    let fetched_embedding = store.get_by_id("id");
    assert!(fetched_embedding.is_ok());
    assert_eq!(fetched_embedding.unwrap(), updated_embedding);

    let empty_embedding = embedding("id", "", &[]);
    let result = store.store(empty_embedding);
    assert!(result.is_ok());

    let fetched_embedding = store.get_by_id("id");
    assert!(fetched_embedding.is_err());
    assert_eq!(fetched_embedding.unwrap_err(), VectorStoreError::EmbeddingNotFound);
}

#[test]
fn test_top_n() {
    let (embedding1, embedding2, embedding3) = (
        embedding("id1", "hello world", &[1.0, 2.0, 3.0]),
        embedding("id2", "shalom world", &[4.0, 5.0, 6.0]),
        embedding("id3", "selam world", &[7.0, 8.0, 9.0]),
    );

    let mut store = InMemoryVectorStore::new(None).unwrap();
    store.store(embedding3.clone()).unwrap();
    store.store(embedding1.clone()).unwrap();
    store.store(embedding2.clone()).unwrap();

    let top_n = top_n(&store, &[1.0, 2.0, 3.0], 2);
    assert_eq!(top_n.len(), 2);
    assert_eq!(top_n[0], embedding1);
    assert_eq!(top_n[1], embedding2);
}

#[test]
fn a_removal_of_nothing_is_refused_and_changes_nothing() {
    let mut store = InMemoryVectorStore::new(None).unwrap();
    store.store(embedding("a", "x", &[1.0])).unwrap();
    assert_eq!(store.store(embedding("b", "", &[])), Err(VectorStoreError::EmbeddingNotFound));
    assert_eq!(store.embeddings(), &vec![embedding("a", "x", &[1.0])]);
}

#[test]
fn a_replaced_embedding_keeps_its_place() {
    let mut store = InMemoryVectorStore::new(None).unwrap();
    store.store(embedding("a", "1", &[])).unwrap();
    store.store(embedding("b", "2", &[])).unwrap();
    store.store(embedding("c", "3", &[])).unwrap();
    store.store(embedding("b", "two", &[])).unwrap();
    let ids: Vec<&str> = store.embeddings().iter().map(|e| e.raw_data.as_str()).collect();
    assert_eq!(ids, vec!["1", "two", "3"]);
    store.store(embedding("a", "", &[])).unwrap();
    let ids: Vec<&str> = store.embeddings().iter().map(|e| e.raw_data.as_str()).collect();
    assert_eq!(ids, vec!["two", "3"]);
}

#[test]
fn a_selection_passes_over_positions_outside_the_store() {
    let mut store = InMemoryVectorStore::new(None).unwrap();
    store.store(embedding("a", "1", &[])).unwrap();
    store.store(embedding("b", "2", &[])).unwrap();
    let texts = |ranked: Vec<usize>, n: usize| -> Vec<String> {
        store.select(&ranked, n).into_iter().map(|e| e.raw_data).collect()
    };
    assert_eq!(texts(vec![1, 0], 5), vec!["2", "1"]);
    assert_eq!(texts(vec![1, 7, 0], 2), vec!["2", "1"]);
    assert_eq!(texts(vec![1, 0], 1), vec!["2"]);
    assert_eq!(texts(vec![1, 0], 0), Vec::<String>::new());
    assert_eq!(texts(vec![0, 0], 2), vec!["1", "1"]);
    assert_eq!(texts(vec![], 2), Vec::<String>::new());
}

#[test]
fn the_store_takes_no_configuration() {
    assert!(InMemoryVectorStore::new(None).is_ok());
    match InMemoryVectorStore::new(Some("{}")) {
        Err(note) => assert_eq!(note, "`InMemoryVectorStore` doesnt expect a config json!"),
        Ok(_) => panic!("a configuration was taken"),
    }
}

#[test]
fn errors_are_wrapped_by_their_kind() {
    assert_eq!(
        Error::from(CompletionError::RequestError("r".to_string())),
        Error::Completion(CompletionError::RequestError("r".to_string()))
    );
    assert_eq!(Error::from(ToolSetError::ToolNotFound), Error::ToolSet(ToolSetError::ToolNotFound));
    assert_eq!(
        Error::from(VectorStoreError::EmbeddingNotFound),
        Error::VectorStore(VectorStoreError::EmbeddingNotFound)
    );
    assert_eq!(
        Error::from(EmbedderError::ParseError("p".to_string())),
        Error::Embedder(EmbedderError::ParseError("p".to_string()))
    );
    assert_eq!(
        ToolSetError::from(ToolError::JsonError("j".to_string())),
        ToolSetError::ToolError(ToolError::JsonError("j".to_string()))
    );
    assert_eq!(ToolError::from(StateError::NotFound), ToolError::StateError(StateError::NotFound));
    assert_eq!(
        CompletionError::from(VectorStoreError::Provider("p".to_string())),
        CompletionError::FailedContextFetch(VectorStoreError::Provider("p".to_string()))
    );
    assert_eq!(
        CompletionError::from(ExtractionError::ExtractionNotSupported),
        CompletionError::ExtractorError(ExtractionError::ExtractionNotSupported)
    );
    assert_eq!(
        CompletionError::from(StateError::AlreadyExists("u32".to_string())),
        CompletionError::StateError(StateError::AlreadyExists("u32".to_string()))
    );
}

struct MyDirectLoader {
    id: usize,
}

impl DirectLoader for MyDirectLoader {
    fn retrieve(&self) -> Result<Document, DirectLoaderError> {
        Ok(Document::new(self.id.to_string(), String::from("hello")))
    }
}

#[test]
fn direct_test_simple_direct_loader() {
    let id = 0;
    let my_direct_loader = MyDirectLoader { id };
    let res = my_direct_loader.retrieve();
    let expected = Document::new(id.to_string(), String::from("hello"));
    assert_eq!(res, Ok(expected));
}
