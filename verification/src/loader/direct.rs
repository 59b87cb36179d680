//! Loaders that are asked for their document.

use vstd::prelude::*;
use crate::document::Document;
use crate::error::DirectLoaderError;

verus! {

/// A loader that hands out its document when it is asked.
pub trait DirectLoader {
    /// The document as it is now.
    fn retrieve(&self) -> Result<Document, DirectLoaderError>;
}

} // verus!
