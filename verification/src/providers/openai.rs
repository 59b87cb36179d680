//! Settings of the built-in model backends.

use vstd::prelude::*;

verus! {

/// The settings of an OpenAI embedding endpoint.
#[derive(Debug, PartialEq, Eq)]
pub struct OpenAIEmbeddingModel {
    api_url: String,
    api_key: String,
    model: String,
}

impl OpenAIEmbeddingModel {
    /// The address of the endpoint.
    pub closed spec fn spec_api_url(&self) -> Seq<char> {
        self.api_url@
    }

    /// The key sent with each request.
    pub closed spec fn spec_api_key(&self) -> Seq<char> {
        self.api_key@
    }

    /// The name of the embedding model.
    pub closed spec fn spec_model(&self) -> Seq<char> {
        self.model@
    }

    /// Settings from a key, an address and a model name, in that order.
    pub fn new(api_key: String, api_url: String, model: String) -> (r: Self)
        ensures
            r.spec_api_key() == api_key@,
            r.spec_api_url() == api_url@,
            r.spec_model() == model@,
    {
        Self { api_url, api_key, model }
    }

    /// The address of the endpoint.
    pub fn api_url(&self) -> (r: &str)
        ensures
            r@ == self.spec_api_url(),
    {
        self.api_url.as_str()
    }

    /// The key sent with each request.
    pub fn api_key(&self) -> (r: &str)
        ensures
            r@ == self.spec_api_key(),
    {
        self.api_key.as_str()
    }

    /// The name of the embedding model.
    pub fn model(&self) -> (r: &str)
        ensures
            r@ == self.spec_model(),
    {
        self.model.as_str()
    }
}

} // verus!
