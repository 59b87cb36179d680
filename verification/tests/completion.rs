use seedframe::completion::{Client, CompletionModel, Extractor, Temperature};
use seedframe::embeddings::{Embedder, Embedding, EmbeddingModel, VectorStore};
use seedframe::error::{
    CompletionError, EmbedderError, Error, ExtractionError, StateError, ToolError, ToolSetError,
    VectorStoreError,
};
use seedframe::json::{Json, Number};
use seedframe::message::{Message, MessageHistory, ToolCall, ToolResponse};
use seedframe::state::StateStore;
use seedframe::tools::{ExecutionStrategy, Tool, ToolArg, ToolSet};
use seedframe::usage::TokenUsage;
use std::any::TypeId;
use std::sync::{Arc, Mutex};

/// What the scripted model was handed on its last call.
#[derive(Default)]
struct Seen {
    message: Option<Message>,
    history: Option<MessageHistory>,
    tools: Option<usize>,
    max_tokens: usize,
    temperature: u64,
}

struct Scripted {
    replies: Vec<Result<(Message, TokenUsage), CompletionError>>,
    seen: Arc<Mutex<Seen>>,
}

impl Scripted {
    fn new(replies: Vec<Result<(Message, TokenUsage), CompletionError>>) -> (Self, Arc<Mutex<Seen>>) {
        let seen = Arc::new(Mutex::new(Seen::default()));
        (Scripted { replies, seen: seen.clone() }, seen)
    }
}

impl CompletionModel for Scripted {
    fn build_client<V: Send + Sync + 'static>(
        self,
        preamble: &str,
        embedder_instances: Vec<Embedder>,
        tools: ToolSet<V>,
    ) -> Client<Self, V> {
        Client::new(self, preamble, Temperature(1.0f64.to_bits()), 2400, embedder_instances, tools)
    }

    fn send<V: Send + Sync + 'static>(
        &mut self,
        message: Message,
        history: &MessageHistory,
        tools: Option<&ToolSet<V>>,
        temperature: Temperature,
        max_tokens: usize,
    ) -> Result<(Message, TokenUsage), CompletionError> {
        let mut seen = self.seen.lock().unwrap();
        seen.message = Some(message);
        seen.history = Some(history.clone());
        seen.tools = tools.map(|t| t.0.len());
        seen.max_tokens = max_tokens;
        seen.temperature = temperature.0;
        self.replies.remove(0)
    }
}

struct Sum;

struct Difference;

fn operands(args: &str) -> Result<(u64, u64), ToolError> {
    let value: serde_json::Value =
        serde_json::from_str(args).map_err(|e| ToolError::JsonError(e.to_string()))?;
    match (value["a"].as_u64(), value["b"].as_u64()) {
        (Some(a), Some(b)) => Ok((a, b)),
        _ => Err(ToolError::JsonError("two numbers expected".to_string())),
    }
}

impl Tool<u32> for Sum {
    fn name(&self) -> &str {
        "add"
    }

    fn description(&self) -> &str {
        "adds two numbers"
    }

    fn args(&self) -> &[ToolArg] {
        &[]
    }

    fn call(&self, args: &str, _states: &StateStore<u32>) -> Result<Json, ToolError> {
        let (a, b) = operands(args)?;
        Ok(Json::Number(Number::PosInt(a + b)))
    }
}

impl Tool<u32> for Difference {
    fn name(&self) -> &str {
        "subtract"
    }

    fn description(&self) -> &str {
        "subtracts the second number from the first"
    }

    fn args(&self) -> &[ToolArg] {
        &[]
    }

    fn call(&self, args: &str, _states: &StateStore<u32>) -> Result<Json, ToolError> {
        let (a, b) = operands(args)?;
        if a < b {
            return Err(ToolError::ToolCallError("negative result".to_string()));
        }
        Ok(Json::Number(Number::PosInt(a - b)))
    }
}

fn calculator_tools(strategy: ExecutionStrategy) -> ToolSet<u32> {
    ToolSet(vec![Box::new(Sum), Box::new(Difference)], strategy)
}

fn no_tools() -> ToolSet<u32> {
    ToolSet(vec![], ExecutionStrategy::FailEarly)
}

fn usage(prompt: u64, completion: u64) -> TokenUsage {
    TokenUsage {
        prompt_tokens: Some(prompt),
        completion_tokens: Some(completion),
        total_tokens: Some(prompt + completion),
    }
}

fn user(text: &str) -> Message {
    Message::User { content: text.to_string(), tool_responses: None }
}

fn assistant(text: &str) -> Message {
    Message::Assistant { content: text.to_string(), tool_calls: None }
}

fn asks_for(calls: Vec<ToolCall>) -> Message {
    Message::Assistant { content: String::new(), tool_calls: Some(calls) }
}

fn call(id: &str, name: &str, arguments: &str) -> ToolCall {
    ToolCall { id: id.to_string(), name: name.to_string(), arguments: arguments.to_string() }
}

fn answer(id: &str, name: &str, n: u64) -> ToolResponse {
    ToolResponse { id: id.to_string(), name: name.to_string(), content: Json::Number(Number::PosInt(n)) }
}

fn preamble(text: &str) -> Message {
    Message::Preamble(text.to_string())
}

fn client_with(
    replies: Vec<Result<(Message, TokenUsage), CompletionError>>,
    tools: ToolSet<u32>,
    embedders: Vec<Embedder>,
) -> (Client<Scripted, u32>, Arc<Mutex<Seen>>) {
    let (model, seen) = Scripted::new(replies);
    (model.build_client("You are a calculator", embedders, tools), seen)
}

struct FixedVector;

impl EmbeddingModel for FixedVector {
    fn embed(&self, _data: &str) -> Result<Vec<u64>, EmbedderError> {
        Ok(vec![1.0f64.to_bits(), 2.0f64.to_bits()])
    }
}

struct BrokenModel;

impl EmbeddingModel for BrokenModel {
    fn embed(&self, _data: &str) -> Result<Vec<u64>, EmbedderError> {
        Err(EmbedderError::ProviderError("down".to_string()))
    }
}

/// A store that answers every query with the same texts and records what
/// it is asked to store.
struct Shelf {
    texts: Vec<&'static str>,
    stored: Arc<Mutex<Vec<Embedding>>>,
    asked: Arc<Mutex<usize>>,
}

impl Shelf {
    fn with(texts: Vec<&'static str>) -> Self {
        Shelf { texts, stored: Arc::new(Mutex::new(vec![])), asked: Arc::new(Mutex::new(0)) }
    }
}

impl VectorStore for Shelf {
    fn get_by_id(&self, _id: String) -> Result<Embedding, VectorStoreError> {
        Err(VectorStoreError::EmbeddingNotFound)
    }

    fn store(&self, embedding: Embedding) -> Result<(), VectorStoreError> {
        self.stored.lock().unwrap().push(embedding);
        Ok(())
    }

    fn top_n(&self, query: &[u64], n: usize) -> Result<Vec<Embedding>, VectorStoreError> {
        *self.asked.lock().unwrap() += 1;
        Ok(self
            .texts
            .iter()
            .take(n)
            .map(|t| Embedding { id: t.to_string(), embedded_data: query.to_vec(), raw_data: t.to_string() })
            .collect())
    }
}

fn embedder(texts: Vec<&'static str>) -> Embedder {
    Embedder::new(Box::new(Shelf::with(texts)), Box::new(FixedVector))
}

#[test]
fn a_new_client_holds_its_preamble_and_nothing_else() {
    let (client, _) = client_with(vec![], no_tools(), vec![]);
    assert_eq!(client.export_history(), &vec![preamble("You are a calculator")]);
    assert_eq!(client.token_usage(), TokenUsage::default());
}

#[test]
fn clear_history_leaves_the_preamble() {
    let (mut client, _) = client_with(vec![], no_tools(), vec![]);
    client.append_history(&[user("hi"), assistant("hello"), user("bye")]);
    assert_eq!(client.export_history().len(), 4);
    client.clear_history();
    assert_eq!(client.export_history(), &vec![preamble("You are a calculator")]);
}

#[test]
fn clear_history_keeps_every_preamble_of_a_loaded_history() {
    let (mut client, _) = client_with(vec![], no_tools(), vec![]);
    client.load_history(vec![user("hi"), preamble("one"), assistant("x"), preamble("two")]);
    client.clear_history();
    assert_eq!(client.export_history(), &vec![preamble("one"), preamble("two")]);
    client.load_history(vec![]);
    client.clear_history();
    assert_eq!(client.export_history(), &Vec::<Message>::new());
}

#[test]
fn a_plain_reply_is_kept_with_the_prompt_as_written() {
    let (mut client, seen) =
        client_with(vec![Ok((assistant("15"), usage(10, 2)))], no_tools(), vec![embedder(vec!["facts"])]);
    let r = client.prompt("What's 7 plus 8").send();
    assert_eq!(r, Ok(assistant("15")));
    assert_eq!(
        client.export_history(),
        &vec![preamble("You are a calculator"), user("What's 7 plus 8"), assistant("15")]
    );
    let seen = seen.lock().unwrap();
    assert_eq!(seen.message, Some(user("What's 7 plus 8\n\n<context>\nfacts\n</context>\n")));
    assert_eq!(seen.history, Some(vec![preamble("You are a calculator")]));
    assert_eq!(seen.tools, None);
    assert_eq!(seen.max_tokens, 2400);
    assert_eq!(seen.temperature, 1.0f64.to_bits());
}

#[test]
fn context_is_left_out_where_it_is_not_asked_for() {
    let (mut client, seen) =
        client_with(vec![Ok((assistant("ok"), usage(1, 1)))], no_tools(), vec![embedder(vec!["facts"])]);
    client.prompt("hello").with_context(false).send().unwrap();
    assert_eq!(seen.lock().unwrap().message, Some(user("hello")));
}

#[test]
fn tools_are_offered_only_where_asked_for_and_present() {
    let (mut client, seen) = client_with(
        vec![Ok((assistant("a"), usage(1, 1))), Ok((assistant("b"), usage(1, 1)))],
        calculator_tools(ExecutionStrategy::FailEarly),
        vec![],
    );
    client.prompt("x").send().unwrap();
    assert_eq!(seen.lock().unwrap().tools, Some(2));
    client.prompt("y").with_tools(false).send().unwrap();
    assert_eq!(seen.lock().unwrap().tools, None);
}

#[test]
fn calculator_scenario_runs_the_tool_and_keeps_the_assistant_message() {
    let request = vec![call("1", "add", "{\"a\":7,\"b\":8}")];
    let (mut client, _) = client_with(
        vec![Ok((asks_for(request.clone()), usage(20, 5)))],
        calculator_tools(ExecutionStrategy::FailEarly),
        vec![],
    );
    let r = client.prompt("What's 7 plus 8").send();
    assert_eq!(
        r,
        Ok(Message::User { content: String::new(), tool_responses: Some(vec![answer("1", "add", 15)]) })
    );
    assert_eq!(
        client.export_history(),
        &vec![preamble("You are a calculator"), user("What's 7 plus 8"), asks_for(request)]
    );
    assert_eq!(client.token_usage(), TokenUsage { prompt_tokens: None, completion_tokens: None, total_tokens: None });
}

#[test]
fn calculator_scenario_keeps_the_tool_results_where_asked_for() {
    let request = vec![call("1", "add", "{\"a\":7,\"b\":8}")];
    let (mut client, _) = client_with(
        vec![Ok((asks_for(request.clone()), usage(20, 5)))],
        calculator_tools(ExecutionStrategy::FailEarly),
        vec![],
    );
    let r = client.prompt("What's 7 plus 8").append_tool_response(true).send().unwrap();
    assert_eq!(
        client.export_history(),
        &vec![preamble("You are a calculator"), user("What's 7 plus 8"), asks_for(request), r]
    );
}

#[test]
fn tool_calls_are_returned_as_they_are_where_dispatch_is_off() {
    let request = vec![call("1", "add", "{\"a\":7,\"b\":8}")];
    let (mut client, _) = client_with(
        vec![Ok((asks_for(request.clone()), usage(20, 5)))],
        calculator_tools(ExecutionStrategy::FailEarly),
        vec![],
    );
    let r = client.prompt("What's 7 plus 8").execute_tools(false).send();
    assert_eq!(r, Ok(asks_for(request)));
}

#[test]
fn one_shot_leaves_the_history_alone_for_a_plain_reply() {
    let (mut client, seen) = client_with(vec![Ok((assistant("15"), usage(1, 1)))], no_tools(), vec![]);
    let before = client.export_history().clone();
    let r = client.prompt("What's 7 plus 8").one_shot(true, Some(vec![user("earlier")])).send();
    assert_eq!(r, Ok(assistant("15")));
    assert_eq!(client.export_history(), &before);
    assert_eq!(seen.lock().unwrap().history, Some(vec![user("earlier")]));
}

#[test]
fn one_shot_leaves_the_history_alone_for_a_tool_call() {
    let request = vec![call("1", "add", "{\"a\":7,\"b\":8}")];
    let (mut client, seen) = client_with(
        vec![Ok((asks_for(request), usage(1, 1)))],
        calculator_tools(ExecutionStrategy::FailEarly),
        vec![],
    );
    let before = client.export_history().clone();
    let r = client.prompt("What's 7 plus 8").one_shot(true, None).append_tool_response(true).send();
    assert_eq!(
        r,
        Ok(Message::User { content: String::new(), tool_responses: Some(vec![answer("1", "add", 15)]) })
    );
    assert_eq!(client.export_history(), &before);
    assert_eq!(seen.lock().unwrap().history, Some(vec![]));
}

#[test]
fn one_shot_leaves_the_history_alone_where_a_tool_fails() {
    let request = vec![call("1", "subtract", "{\"a\":1,\"b\":8}")];
    let (mut client, _) = client_with(
        vec![Ok((asks_for(request), usage(1, 1)))],
        calculator_tools(ExecutionStrategy::FailEarly),
        vec![],
    );
    let before = client.export_history().clone();
    let r = client.prompt("What's 1 minus 8").one_shot(true, None).send();
    assert_eq!(
        r,
        Err(Error::ToolSet(ToolSetError::ToolError(ToolError::ToolCallError("negative result".to_string()))))
    );
    assert_eq!(client.export_history(), &before);
}

#[test]
fn a_failed_tool_ends_the_call_after_the_reply_was_kept() {
    let request = vec![call("1", "multiply", "{}")];
    let (mut client, _) = client_with(
        vec![Ok((asks_for(request.clone()), usage(1, 1)))],
        calculator_tools(ExecutionStrategy::FailEarly),
        vec![],
    );
    let r = client.prompt("times").send();
    assert_eq!(r, Err(Error::ToolSet(ToolSetError::ToolNotFound)));
    assert_eq!(
        client.export_history(),
        &vec![preamble("You are a calculator"), user("times"), asks_for(request)]
    );
}

#[test]
fn a_failed_model_call_changes_nothing() {
    let (mut client, _) = client_with(
        vec![Err(CompletionError::ProviderError(500, "down".to_string()))],
        no_tools(),
        vec![],
    );
    client.load_history(vec![preamble("p"), user("a")]);
    let r = client.prompt("hello").send();
    assert_eq!(r, Err(Error::Completion(CompletionError::ProviderError(500, "down".to_string()))));
    assert_eq!(client.export_history(), &vec![preamble("p"), user("a")]);
    assert_eq!(client.token_usage(), TokenUsage::default());
}

#[test]
fn usage_stays_missing_once_it_was_missing() {
    let (mut client, _) = client_with(
        vec![Ok((assistant("a"), usage(1, 2))), Ok((assistant("b"), usage(3, 4)))],
        no_tools(),
        vec![],
    );
    client.prompt("x").send().unwrap();
    client.prompt("y").send().unwrap();
    assert_eq!(client.token_usage(), TokenUsage::default());
}

#[test]
fn context_is_none_without_embedders() {
    let (client, _) = client_with(vec![], no_tools(), vec![]);
    assert_eq!(client.get_context("q"), Ok(None));
}

#[test]
fn context_joins_the_texts_in_the_order_of_the_embedders() {
    let (client, _) = client_with(vec![], no_tools(), vec![embedder(vec!["one"]), embedder(vec!["two", "three"])]);
    assert_eq!(client.get_context("q"), Ok(Some("onetwo".to_string())));
}

#[test]
fn one_empty_answer_loses_the_whole_context() {
    let (client, _) = client_with(vec![], no_tools(), vec![embedder(vec!["one"]), embedder(vec![])]);
    assert_eq!(client.get_context("q"), Ok(None));
}

#[test]
fn embedders_behind_an_empty_answer_are_not_asked() {
    let last = Shelf::with(vec!["late"]);
    let asked = last.asked.clone();
    let (client, _) = client_with(
        vec![],
        no_tools(),
        vec![embedder(vec![]), Embedder::new(Box::new(last), Box::new(FixedVector))],
    );
    assert_eq!(client.get_context("q"), Ok(None));
    assert_eq!(*asked.lock().unwrap(), 0);
}

#[test]
fn a_failed_embedder_ends_the_call_with_nothing_changed() {
    let broken = Embedder::new(Box::new(Shelf::with(vec!["x"])), Box::new(BrokenModel));
    let (mut client, _) = client_with(vec![Ok((assistant("a"), usage(1, 1)))], no_tools(), vec![broken]);
    let r = client.prompt("hello").send();
    assert_eq!(r, Err(Error::Embedder(EmbedderError::ProviderError("down".to_string()))));
    assert_eq!(client.export_history(), &vec![preamble("You are a calculator")]);
}

struct BrokenStore;

impl VectorStore for BrokenStore {
    fn get_by_id(&self, _id: String) -> Result<Embedding, VectorStoreError> {
        Err(VectorStoreError::EmbeddingNotFound)
    }

    fn store(&self, _embedding: Embedding) -> Result<(), VectorStoreError> {
        Err(VectorStoreError::FailedUpsert("full".to_string()))
    }

    fn top_n(&self, _query: &[u64], _n: usize) -> Result<Vec<Embedding>, VectorStoreError> {
        Err(VectorStoreError::Provider("unreachable".to_string()))
    }
}

#[test]
fn a_failed_store_ends_the_call_with_its_error() {
    let broken = Embedder::new(Box::new(BrokenStore), Box::new(FixedVector));
    assert_eq!(
        broken.query("q", 1),
        Err(Error::VectorStore(VectorStoreError::Provider("unreachable".to_string())))
    );
    let doc = seedframe::document::Document::new("a".to_string(), "text".to_string());
    assert_eq!(broken.ingest(doc), Err(Error::VectorStore(VectorStoreError::FailedUpsert("full".to_string()))));
    let (mut client, _) = client_with(vec![Ok((assistant("a"), usage(1, 1)))], no_tools(), vec![broken]);
    let r = client.prompt("hello").with_context(false).send();
    assert_eq!(r, Err(Error::VectorStore(VectorStoreError::Provider("unreachable".to_string()))));
    assert_eq!(client.export_history(), &vec![preamble("You are a calculator")]);
}

#[test]
fn an_embedder_hands_the_query_vector_to_its_store() {
    let e = embedder(vec!["one", "two", "three"]);
    let hits = e.query("q", 2).unwrap();
    assert_eq!(hits.len(), 2);
    assert_eq!(hits[0].raw_data, "one");
    assert_eq!(hits[0].embedded_data, vec![1.0f64.to_bits(), 2.0f64.to_bits()]);
}

#[test]
fn ingest_stores_a_document_without_text_without_asking_the_model() {
    let shelf = Shelf::with(vec![]);
    let stored = shelf.stored.clone();
    let e = Embedder::new(Box::new(shelf), Box::new(BrokenModel));
    let doc = seedframe::document::Document::new("gone.txt".to_string(), String::new());
    assert_eq!(e.ingest(doc), Ok(()));
    assert_eq!(
        *stored.lock().unwrap(),
        vec![Embedding { id: "gone.txt".to_string(), embedded_data: vec![], raw_data: String::new() }]
    );
    let doc = seedframe::document::Document::new("new.txt".to_string(), "text".to_string());
    assert_eq!(e.ingest(doc), Err(Error::Embedder(EmbedderError::ProviderError("down".to_string()))));
}

#[test]
fn run_tools_takes_the_calls_of_the_last_message() {
    let (mut client, _) = client_with(vec![], calculator_tools(ExecutionStrategy::FailEarly), vec![]);
    client.load_history(vec![]);
    assert_eq!(client.run_tools(None), Err(ToolSetError::EmptyMessageHistory));
    client.load_history(vec![user("hi")]);
    assert_eq!(client.run_tools(None), Err(ToolSetError::LastMessageNotAToolCall));
    client.load_history(vec![assistant("hi")]);
    assert_eq!(client.run_tools(None), Err(ToolSetError::LastMessageNotAToolCall));
    client.load_history(vec![asks_for(vec![call("9", "subtract", "{\"a\":9,\"b\":4}")])]);
    assert_eq!(client.run_tools(None), Ok(vec![answer("9", "subtract", 5)]));
    let given = [call("3", "add", "{\"a\":1,\"b\":1}")];
    assert_eq!(client.run_tools(Some(&given)), Ok(vec![answer("3", "add", 2)]));
}

#[test]
fn state_is_registered_once_per_key() {
    let (client, _) = client_with(vec![], no_tools(), vec![]);
    let key = TypeId::of::<u32>();
    assert!(matches!(client.get_state(key), Err(StateError::NotFound)));
    let client = client.with_state(key, "u32", 3).unwrap();
    assert_eq!(*client.get_state(key).unwrap().0, 3);
    assert!(matches!(client.get_state(TypeId::of::<String>()), Err(StateError::NotFound)));
    match client.with_state(key, "u32", 7) {
        Err(e) => assert_eq!(e, CompletionError::StateError(StateError::AlreadyExists("u32".to_string()))),
        Ok(_) => panic!("a second registration went through"),
    }
}

#[test]
fn fetch_hands_out_the_registered_instance() {
    let store: StateStore<Mutex<u32>> = StateStore::new();
    let key = TypeId::of::<Mutex<u32>>();
    let store = store.register(key, "counter", Mutex::new(1)).unwrap();
    let first = store.fetch(key).unwrap();
    *first.0.lock().unwrap() += 41;
    let second = store.fetch(key).unwrap();
    assert_eq!(*second.0.lock().unwrap(), 42);
    assert!(Arc::ptr_eq(&first.0, &second.0));
    assert!(store.holds(key));
    assert!(!store.holds(TypeId::of::<u8>()));
}

struct Person {
    name: String,
}

impl Extractor for Person {
    fn schema() -> Json {
        Json::Object(vec![("type".to_string(), Json::Text("object".to_string()))])
    }

    fn type_path() -> String {
        "completion::Person".to_string()
    }

    fn from_reply(reply: &str) -> Result<Self, String> {
        Ok(Person { name: reply.to_string() })
    }
}

#[test]
fn extraction_is_refused_by_a_model_without_it() {
    let (mut client, _) = client_with(vec![], no_tools(), vec![]);
    let before = client.export_history().clone();
    let r = client.prompt("John is 30").extract::<Person>();
    match r {
        Err(e) => assert_eq!(
            e,
            Error::Completion(CompletionError::ExtractorError(ExtractionError::ExtractionNotSupported))
        ),
        Ok(p) => panic!("extracted {}", p.name),
    }
    assert_eq!(client.export_history(), &before);
}
