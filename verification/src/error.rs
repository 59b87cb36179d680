//! Error types of the library.

use vstd::prelude::*;

verus! {

/// Failures of a vector store.
#[derive(Debug, PartialEq, Eq)]
pub enum VectorStoreError {
    /// The store could not be created.
    FailedToCreateStore(String),
    /// An insert or update was refused.
    FailedUpsert(String),
    /// No embedding is stored under the identifier.
    EmbeddingNotFound,
    /// The backing service reported an error.
    Provider(String),
}

/// Failures of an embedding model.
#[derive(Debug, PartialEq, Eq)]
pub enum EmbedderError {
    /// The request could not be made.
    RequestError(String),
    /// The reply did not have the expected shape.
    ParseError(String),
    /// The backend refused the request.
    ProviderError(String),
}

/// Failures of structured extraction.
#[derive(Debug, PartialEq, Eq, Clone, Copy)]
pub enum ExtractionError {
    /// The model has no structured-extraction capability.
    ExtractionNotSupported,
}

/// Failures of the state store.
#[derive(Debug, PartialEq, Eq)]
pub enum StateError {
    /// A value of this type is registered already; the text names the type.
    AlreadyExists(String),
    /// No value of the requested type is registered.
    NotFound,
}

/// Failures of a completion call.
#[derive(Debug, PartialEq, Eq)]
pub enum CompletionError {
    /// The backend rejected the request: HTTP status and body.
    ProviderError(u16, String),
    /// The request could not be made.
    RequestError(String),
    /// The reply did not have the expected shape.
    ParseError(String),
    /// Context retrieval failed.
    FailedContextFetch(VectorStoreError),
    /// Structured extraction failed.
    ExtractorError(ExtractionError),
    /// The state store refused an operation.
    StateError(StateError),
}

/// Failures of one tool.
#[derive(Debug, PartialEq, Eq)]
pub enum ToolError {
    /// The tool ran and failed; the text is its message.
    ToolCallError(String),
    /// The arguments were no valid JSON for the tool's parameters.
    JsonError(String),
    /// The tool asked for state that the store does not hold.
    StateError(StateError),
}

/// Failures of tool dispatch.
#[derive(Debug, PartialEq, Eq)]
pub enum ToolSetError {
    /// No tool has the requested name.
    ToolNotFound,
    /// No calls were given and the history is empty.
    EmptyMessageHistory,
    /// No calls were given and the last message carries none.
    LastMessageNotAToolCall,
    /// The tool failed.
    ToolError(ToolError),
}

/// Any failure of the library.
#[derive(Debug, PartialEq, Eq)]
pub enum Error {
    Completion(CompletionError),
    ToolSet(ToolSetError),
    VectorStore(VectorStoreError),
    Embedder(EmbedderError),
}

/// Failures of a loader that is asked for its document directly.
#[derive(Debug, PartialEq, Eq, Clone, Copy)]
pub enum DirectLoaderError {
    Undefined,
}

/// Failures of a model that has no finer error to report.
#[derive(Debug, PartialEq, Eq, Clone, Copy)]
pub enum ModelError {
    Undefined,
}

/// The model of a [`VectorStoreError`].
pub enum VectorStoreErrorView {
    FailedToCreateStore(Seq<char>),
    FailedUpsert(Seq<char>),
    EmbeddingNotFound,
    Provider(Seq<char>),
}

/// The model of an [`EmbedderError`].
pub enum EmbedderErrorView {
    RequestError(Seq<char>),
    ParseError(Seq<char>),
    ProviderError(Seq<char>),
}

/// The model of a [`StateError`].
pub enum StateErrorView {
    AlreadyExists(Seq<char>),
    NotFound,
}

/// The model of a [`CompletionError`].
pub enum CompletionErrorView {
    ProviderError(u16, Seq<char>),
    RequestError(Seq<char>),
    ParseError(Seq<char>),
    FailedContextFetch(VectorStoreErrorView),
    ExtractorError(ExtractionError),
    StateError(StateErrorView),
}

/// The model of a [`ToolError`].
pub enum ToolErrorView {
    ToolCallError(Seq<char>),
    JsonError(Seq<char>),
    StateError(StateErrorView),
}

/// The model of a [`ToolSetError`].
pub enum ToolSetErrorView {
    ToolNotFound,
    EmptyMessageHistory,
    LastMessageNotAToolCall,
    ToolError(ToolErrorView),
}

/// The model of an [`Error`].
pub enum ErrorView {
    Completion(CompletionErrorView),
    ToolSet(ToolSetErrorView),
    VectorStore(VectorStoreErrorView),
    Embedder(EmbedderErrorView),
}

impl View for VectorStoreError {
    type V = VectorStoreErrorView;

    open spec fn view(&self) -> VectorStoreErrorView {
        match self {
            VectorStoreError::FailedToCreateStore(m) => VectorStoreErrorView::FailedToCreateStore(
                m@,
            ),
            VectorStoreError::FailedUpsert(m) => VectorStoreErrorView::FailedUpsert(m@),
            VectorStoreError::EmbeddingNotFound => VectorStoreErrorView::EmbeddingNotFound,
            VectorStoreError::Provider(m) => VectorStoreErrorView::Provider(m@),
        }
    }
}

impl View for EmbedderError {
    type V = EmbedderErrorView;

    open spec fn view(&self) -> EmbedderErrorView {
        match self {
            EmbedderError::RequestError(m) => EmbedderErrorView::RequestError(m@),
            EmbedderError::ParseError(m) => EmbedderErrorView::ParseError(m@),
            EmbedderError::ProviderError(m) => EmbedderErrorView::ProviderError(m@),
        }
    }
}

impl View for StateError {
    type V = StateErrorView;

    open spec fn view(&self) -> StateErrorView {
        match self {
            StateError::AlreadyExists(m) => StateErrorView::AlreadyExists(m@),
            StateError::NotFound => StateErrorView::NotFound,
        }
    }
}

impl View for CompletionError {
    type V = CompletionErrorView;

    open spec fn view(&self) -> CompletionErrorView {
        match self {
            CompletionError::ProviderError(status, m) => CompletionErrorView::ProviderError(
                *status,
                m@,
            ),
            CompletionError::RequestError(m) => CompletionErrorView::RequestError(m@),
            CompletionError::ParseError(m) => CompletionErrorView::ParseError(m@),
            CompletionError::FailedContextFetch(e) => CompletionErrorView::FailedContextFetch(e@),
            CompletionError::ExtractorError(e) => CompletionErrorView::ExtractorError(*e),
            CompletionError::StateError(e) => CompletionErrorView::StateError(e@),
        }
    }
}

impl View for ToolError {
    type V = ToolErrorView;

    open spec fn view(&self) -> ToolErrorView {
        match self {
            ToolError::ToolCallError(m) => ToolErrorView::ToolCallError(m@),
            ToolError::JsonError(m) => ToolErrorView::JsonError(m@),
            ToolError::StateError(e) => ToolErrorView::StateError(e@),
        }
    }
}

impl View for ToolSetError {
    type V = ToolSetErrorView;

    open spec fn view(&self) -> ToolSetErrorView {
        match self {
            ToolSetError::ToolNotFound => ToolSetErrorView::ToolNotFound,
            ToolSetError::EmptyMessageHistory => ToolSetErrorView::EmptyMessageHistory,
            ToolSetError::LastMessageNotAToolCall => ToolSetErrorView::LastMessageNotAToolCall,
            ToolSetError::ToolError(e) => ToolSetErrorView::ToolError(e@),
        }
    }
}

impl View for Error {
    type V = ErrorView;

    open spec fn view(&self) -> ErrorView {
        match self {
            Error::Completion(e) => ErrorView::Completion(e@),
            Error::ToolSet(e) => ErrorView::ToolSet(e@),
            Error::VectorStore(e) => ErrorView::VectorStore(e@),
            Error::Embedder(e) => ErrorView::Embedder(e@),
        }
    }
}

impl Clone for VectorStoreError {
    fn clone(&self) -> (r: Self)
        ensures
            r@ == self@,
    {
        match self {
            VectorStoreError::FailedToCreateStore(m) => VectorStoreError::FailedToCreateStore(
                m.clone(),
            ),
            VectorStoreError::FailedUpsert(m) => VectorStoreError::FailedUpsert(m.clone()),
            VectorStoreError::EmbeddingNotFound => VectorStoreError::EmbeddingNotFound,
            VectorStoreError::Provider(m) => VectorStoreError::Provider(m.clone()),
        }
    }
}

impl Clone for StateError {
    fn clone(&self) -> (r: Self)
        ensures
            r@ == self@,
    {
        match self {
            StateError::AlreadyExists(m) => StateError::AlreadyExists(m.clone()),
            StateError::NotFound => StateError::NotFound,
        }
    }
}

impl Clone for CompletionError {
    fn clone(&self) -> (r: Self)
        ensures
            r@ == self@,
    {
        match self {
            CompletionError::ProviderError(status, m) => CompletionError::ProviderError(
                *status,
                m.clone(),
            ),
            CompletionError::RequestError(m) => CompletionError::RequestError(m.clone()),
            CompletionError::ParseError(m) => CompletionError::ParseError(m.clone()),
            CompletionError::FailedContextFetch(e) => CompletionError::FailedContextFetch(
                e.clone(),
            ),
            CompletionError::ExtractorError(e) => CompletionError::ExtractorError(*e),
            CompletionError::StateError(e) => CompletionError::StateError(e.clone()),
        }
    }
}


impl From<CompletionError> for Error {
    fn from(e: CompletionError) -> (r: Self) {
        Error::Completion(e)
    }
}

impl vstd::std_specs::convert::FromSpecImpl<CompletionError> for Error {
    open spec fn obeys_from_spec() -> bool {
        true
    }

    open spec fn from_spec(e: CompletionError) -> Self {
        Error::Completion(e)
    }
}

impl From<ToolSetError> for Error {
    fn from(e: ToolSetError) -> (r: Self) {
        Error::ToolSet(e)
    }
}

impl vstd::std_specs::convert::FromSpecImpl<ToolSetError> for Error {
    open spec fn obeys_from_spec() -> bool {
        true
    }

    open spec fn from_spec(e: ToolSetError) -> Self {
        Error::ToolSet(e)
    }
}

impl From<VectorStoreError> for Error {
    fn from(e: VectorStoreError) -> (r: Self) {
        Error::VectorStore(e)
    }
}

impl vstd::std_specs::convert::FromSpecImpl<VectorStoreError> for Error {
    open spec fn obeys_from_spec() -> bool {
        true
    }

    open spec fn from_spec(e: VectorStoreError) -> Self {
        Error::VectorStore(e)
    }
}

impl From<EmbedderError> for Error {
    fn from(e: EmbedderError) -> (r: Self) {
        Error::Embedder(e)
    }
}

impl vstd::std_specs::convert::FromSpecImpl<EmbedderError> for Error {
    open spec fn obeys_from_spec() -> bool {
        true
    }

    open spec fn from_spec(e: EmbedderError) -> Self {
        Error::Embedder(e)
    }
}

impl From<ToolError> for ToolSetError {
    fn from(e: ToolError) -> (r: Self) {
        ToolSetError::ToolError(e)
    }
}

impl vstd::std_specs::convert::FromSpecImpl<ToolError> for ToolSetError {
    open spec fn obeys_from_spec() -> bool {
        true
    }

    open spec fn from_spec(e: ToolError) -> Self {
        ToolSetError::ToolError(e)
    }
}

impl From<StateError> for ToolError {
    fn from(e: StateError) -> (r: Self) {
        ToolError::StateError(e)
    }
}

impl vstd::std_specs::convert::FromSpecImpl<StateError> for ToolError {
    open spec fn obeys_from_spec() -> bool {
        true
    }

    open spec fn from_spec(e: StateError) -> Self {
        ToolError::StateError(e)
    }
}

impl From<VectorStoreError> for CompletionError {
    fn from(e: VectorStoreError) -> (r: Self) {
        CompletionError::FailedContextFetch(e)
    }
}

impl vstd::std_specs::convert::FromSpecImpl<VectorStoreError> for CompletionError {
    open spec fn obeys_from_spec() -> bool {
        true
    }

    open spec fn from_spec(e: VectorStoreError) -> Self {
        CompletionError::FailedContextFetch(e)
    }
}

impl From<ExtractionError> for CompletionError {
    fn from(e: ExtractionError) -> (r: Self) {
        CompletionError::ExtractorError(e)
    }
}

impl vstd::std_specs::convert::FromSpecImpl<ExtractionError> for CompletionError {
    open spec fn obeys_from_spec() -> bool {
        true
    }

    open spec fn from_spec(e: ExtractionError) -> Self {
        CompletionError::ExtractorError(e)
    }
}

impl From<StateError> for CompletionError {
    fn from(e: StateError) -> (r: Self) {
        CompletionError::StateError(e)
    }
}

impl vstd::std_specs::convert::FromSpecImpl<StateError> for CompletionError {
    open spec fn obeys_from_spec() -> bool {
        true
    }

    open spec fn from_spec(e: StateError) -> Self {
        CompletionError::StateError(e)
    }
}

} // verus!
