//! Embedding endpoints in the format of OpenAI, as Voyage AI speaks it too.

use vstd::prelude::*;
use crate::error::{EmbedderError, EmbedderErrorView};
use crate::json::{lemma_object_view, members_view, Json, JsonView};
use crate::embeddings::text_view;
use crate::providers::chat::{spec_or, Endpoint};
use crate::settings::{backend_config, spec_backend_config, ConfigError, ConfigErrorView};

verus! {

/// The backends that speak the format.
#[derive(Debug, Clone, Copy, PartialEq, Eq)]
pub enum EmbeddingBackend {
    OpenAI,
    VoyageAI,
}

/// What a configuration may set: the name of the environment variable that
/// holds the key, the address of the endpoint, and the model.
#[derive(Debug, PartialEq, Eq)]
pub struct EmbeddingConfig {
    pub api_key_var: Option<String>,
    pub api_url: Option<String>,
    pub model: Option<String>,
}

impl EmbeddingBackend {
    /// The environment variable that holds the key, unless the
    /// configuration names another.
    pub open spec fn spec_key_var(self) -> Seq<char> {
        match self {
            EmbeddingBackend::OpenAI => "OPENAI_EMBEDDING_API_KEY"@,
            EmbeddingBackend::VoyageAI => "VOYAGEAI_API_KEY"@,
        }
    }

    /// The address of the endpoint, unless the configuration gives another.
    pub open spec fn spec_url(self) -> Seq<char> {
        match self {
            EmbeddingBackend::OpenAI => "https://api.openai.com/v1/embeddings"@,
            EmbeddingBackend::VoyageAI => "https://api.voyageai.com/v1/embeddings"@,
        }
    }

    /// The model, unless the configuration names another. Voyage AI has
    /// none of its own.
    pub open spec fn spec_model(self) -> Option<Seq<char>> {
        match self {
            EmbeddingBackend::OpenAI => Some("text-embedding-3-small"@),
            EmbeddingBackend::VoyageAI => None,
        }
    }

    /// The member of a configuration that names the environment variable
    /// of the key.
    pub open spec fn spec_key_name(self) -> Seq<char> {
        match self {
            EmbeddingBackend::OpenAI => "api_key"@,
            EmbeddingBackend::VoyageAI => "api_key_var"@,
        }
    }

    /// The member of a configuration that names the environment variable
    /// of the key.
    pub fn key_name(self) -> (r: &'static str)
        ensures
            r@ == self.spec_key_name(),
    {
        match self {
            EmbeddingBackend::OpenAI => "api_key",
            EmbeddingBackend::VoyageAI => "api_key_var",
        }
    }

    /// The environment variable that holds the key, unless the
    /// configuration names another.
    pub fn key_var(self) -> (r: &'static str)
        ensures
            r@ == self.spec_key_var(),
    {
        match self {
            EmbeddingBackend::OpenAI => "OPENAI_EMBEDDING_API_KEY",
            EmbeddingBackend::VoyageAI => "VOYAGEAI_API_KEY",
        }
    }

    /// The address of the endpoint, unless the configuration gives another.
    pub fn url(self) -> (r: &'static str)
        ensures
            r@ == self.spec_url(),
    {
        match self {
            EmbeddingBackend::OpenAI => "https://api.openai.com/v1/embeddings",
            EmbeddingBackend::VoyageAI => "https://api.voyageai.com/v1/embeddings",
        }
    }

    /// The model, unless the configuration names another.
    pub fn model(self) -> (r: Option<&'static str>)
        ensures
            match r {
                Some(m) => self.spec_model() == Some(m@),
                None => self.spec_model() is None,
            },
    {
        match self {
            EmbeddingBackend::OpenAI => Some("text-embedding-3-small"),
            EmbeddingBackend::VoyageAI => None,
        }
    }
}

/// The model of a configuration, or of what is wrong with it.
pub open spec fn config_view(r: Result<EmbeddingConfig, ConfigError>) -> Result<
    (Option<Seq<char>>, Option<Seq<char>>, Option<Seq<char>>),
    ConfigErrorView,
> {
    match r {
        Ok(c) => Ok((text_view(c.api_key_var), text_view(c.api_url), text_view(c.model))),
        Err(e) => Err(e@),
    }
}

impl EmbeddingConfig {
    /// The configuration that a JSON text stands for: an object with the
    /// members `api_url` and `model` and the member that names the key for
    /// the backend, each a text, `null` or missing, and with no other
    /// member.
    pub fn from_json(text: &str, backend: EmbeddingBackend) -> (r: Result<Self, ConfigError>)
        ensures
            config_view(r) == spec_backend_config(text@, backend.spec_key_name()),
    {
        match backend_config(text, backend.key_name()) {
            Ok((api_key_var, api_url, model)) => Ok(EmbeddingConfig { api_key_var, api_url, model }),
            Err(e) => Err(e),
        }
    }
}

/// The model that a configuration and a backend settle on.
pub open spec fn spec_settled_model(
    backend: EmbeddingBackend,
    config: Option<EmbeddingConfig>,
) -> Option<Seq<char>> {
    match config {
        Some(c) => match c.model {
            Some(m) => Some(m@),
            None => backend.spec_model(),
        },
        None => backend.spec_model(),
    }
}

/// What a configuration and the backend's own settings make of an
/// endpoint. There is none exactly when neither names a model.
pub fn embedding_endpoint(backend: EmbeddingBackend, config: Option<EmbeddingConfig>) -> (r: Option<
    Endpoint,
>)
    ensures
        match r {
            Some(e) => spec_settled_model(backend, config) == Some(e.model@) && match config {
                Some(c) => e.api_key_var@ == spec_or(c.api_key_var, backend.spec_key_var())
                    && e.api_url@ == spec_or(c.api_url, backend.spec_url()),
                None => e.api_key_var@ == backend.spec_key_var() && e.api_url@
                    == backend.spec_url(),
            },
            None => spec_settled_model(backend, config) is None,
        },
{
    let (key, url, model) = match config {
        Some(c) => (c.api_key_var, c.api_url, c.model),
        None => (None, None, None),
    };
    let model = match model {
        Some(m) => m,
        None => match backend.model() {
            Some(m) => String::from_str(m),
            None => {
                return None;
            },
        },
    };
    Some(
        Endpoint {
            api_key_var: match key {
                Some(v) => v,
                None => String::from_str(backend.key_var()),
            },
            api_url: match url {
                Some(v) => v,
                None => String::from_str(backend.url()),
            },
            model,
        },
    )
}

/// The body of a request for the vector of a text.
pub fn embedding_request(input: &str, model: &str) -> (r: Json)
    ensures
        r@ == JsonView::Object(
            seq![("input"@, JsonView::Text(input@)), ("model"@, JsonView::Text(model@))],
        ),
{
    let mut members: Vec<(String, Json)> = Vec::new();
    members.push((String::from_str("input"), Json::Text(String::from_str(input))));
    members.push((String::from_str("model"), Json::Text(String::from_str(model))));
    proof {
        lemma_object_view(members);
        assert(members_view(members@) =~= seq![
            ("input"@, JsonView::Text(input@)),
            ("model"@, JsonView::Text(model@)),
        ]);
    }
    Json::Object(members)
}

/// What a reply with an HTTP status that reports no success means: the
/// backend's refusal with the body, or a note that the body could not be
/// read.
pub fn embedding_refused(body: Option<String>) -> (r: EmbedderError)
    ensures
        r@ == EmbedderErrorView::ProviderError(
            match body {
                Some(text) => text@,
                None => "Unknown error"@,
            },
        ),
{
    EmbedderError::ProviderError(
        match body {
            Some(text) => text,
            None => String::from_str("Unknown error"),
        },
    )
}

} // verus!
