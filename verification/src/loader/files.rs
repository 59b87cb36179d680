//! The file loaders: their patterns and what they load.

use vstd::prelude::*;
use crate::document::Document;
use glob::{Pattern, PatternError};

verus! {

#[verifier::external_type_specification]
#[verifier::external_body]
pub struct ExPattern(Pattern);

#[verifier::external_type_specification]
pub struct ExPatternError(PatternError);

/// The number of documents that a watching loader buffers when no file
/// matches at first.
pub const DEFAULT_CHANNEL_CAPACITY: usize = 20;

/// The time in milliseconds that has to pass after an event before the
/// next events are looked at.
pub const DEBOUNCE_DURATION_MILLIS: u64 = 500;

/// Failures of a file loader.
#[derive(Debug, PartialEq, Eq)]
pub enum FileLoaderError {
    /// A pattern is no valid glob: where in the pattern, about, and why.
    InvalidGlobPattern(usize, String),
    /// No file matches the patterns.
    NoMatchingDocuments,
    /// A document found no subscriber.
    FailedToSendDocument(Document),
}

/// Whether `glob` accepts a text as a pattern.
pub uninterp spec fn glob_accepts(text: Seq<char>) -> bool;

/// The text that a pattern was compiled from.
pub uninterp spec fn pattern_text(pattern: Pattern) -> Seq<char>;

/// Whether the pattern compiled from `pattern` matches `path`, under
/// `glob`'s default options.
pub uninterp spec fn glob_matches(pattern: Seq<char>, path: Seq<char>) -> bool;

/// Compiles a pattern with `Pattern::new`, which keeps the text it was
/// given and refuses a text that is no valid pattern.
#[verifier::external_body]
fn compile(text: &str) -> (r: Result<Pattern, PatternError>)
    ensures
        r is Ok == glob_accepts(text@),
        r matches Ok(p) ==> pattern_text(p) == text@,
{
    Pattern::new(text)
}

/// The text of a pattern, from `Pattern::as_str`.
#[verifier::external_body]
fn text_of(pattern: &Pattern) -> (r: &str)
    ensures
        r@ == pattern_text(*pattern),
{
    pattern.as_str()
}

/// Whether a pattern matches a path, from `Pattern::matches`. The answer
/// depends on the pattern's text and on the path alone.
#[verifier::external_body]
fn pattern_matches(pattern: &Pattern, path: &str) -> (r: bool)
    ensures
        r == glob_matches(pattern_text(*pattern), path@),
{
    pattern.matches(path)
}

/// The texts of a list of patterns.
pub open spec fn pattern_texts(patterns: Seq<Pattern>) -> Seq<Seq<char>> {
    Seq::new(patterns.len(), |i: int| pattern_text(patterns[i]))
}

/// Whether one of the patterns matches the path.
pub open spec fn spec_any_matches(patterns: Seq<Seq<char>>, path: Seq<char>) -> bool {
    exists|i: int| 0 <= i < patterns.len() && glob_matches(#[trigger] patterns[i], path)
}

/// Whether every text is a valid pattern.
pub open spec fn spec_all_accepted(texts: Seq<Seq<char>>) -> bool {
    forall|i: int| 0 <= i < texts.len() ==> glob_accepts(#[trigger] texts[i])
}

/// The failure of a loader for a text that is no valid pattern: where in
/// the text, about, and why, as `glob` reports it.
pub fn invalid_pattern(e: &PatternError) -> (r: FileLoaderError)
    ensures
        r matches FileLoaderError::InvalidGlobPattern(pos, msg) && pos == e.pos && msg@ == e.msg@,
{
    FileLoaderError::InvalidGlobPattern(e.pos, String::from_str(e.msg))
}

/// Compiles the patterns. Fails with `InvalidGlobPattern`, for the first
/// text that is no valid pattern, exactly when there is such a text.
pub fn compile_patterns(glob_patterns: &Vec<String>) -> (r: Result<Vec<Pattern>, FileLoaderError>)
    ensures
        match r {
            Ok(patterns) => spec_all_accepted(crate::text::string_views(glob_patterns@))
                && pattern_texts(patterns@) == crate::text::string_views(glob_patterns@),
            Err(e) => !spec_all_accepted(crate::text::string_views(glob_patterns@))
                && e is InvalidGlobPattern,
        },
{
    let ghost texts = crate::text::string_views(glob_patterns@);
    let mut patterns: Vec<Pattern> = Vec::new();
    let mut i: usize = 0;
    while i < glob_patterns.len()
        invariant
            i <= glob_patterns@.len(),
            texts == crate::text::string_views(glob_patterns@),
            patterns@.len() == i,
            forall|j: int| 0 <= j < i ==> glob_accepts(#[trigger] texts[j]),
            forall|j: int| 0 <= j < i ==> pattern_text(#[trigger] patterns@[j]) == texts[j],
        decreases glob_patterns@.len() - i,
    {
        match compile(glob_patterns[i].as_str()) {
            Ok(pattern) => patterns.push(pattern),
            Err(e) => {
                assert(!glob_accepts(texts[i as int]));
                return Err(invalid_pattern(&e));
            },
        }
        i += 1;
    }
    assert(pattern_texts(patterns@) =~= texts);
    Ok(patterns)
}

/// Whether one of the patterns matches the path.
pub fn any_matches(patterns: &Vec<Pattern>, path: &str) -> (r: bool)
    ensures
        r == spec_any_matches(pattern_texts(patterns@), path@),
{
    let ghost texts = pattern_texts(patterns@);
    let mut i: usize = 0;
    while i < patterns.len()
        invariant
            i <= patterns@.len(),
            texts == pattern_texts(patterns@),
            forall|j: int| 0 <= j < i ==> !glob_matches(#[trigger] texts[j], path@),
        decreases patterns@.len() - i,
    {
        if pattern_matches(&patterns[i], path) {
            assert(glob_matches(texts[i as int], path@));
            return true;
        }
        i += 1;
    }
    false
}

/// The patterns of a loader that loads its files once.
pub struct FileOnceLoaderBuilder {
    glob_patterns: Vec<String>,
    evaluated: Vec<Pattern>,
}

/// A loader that hands out the documents it was built with.
pub struct FileOnceLoader {
    documents: Vec<Document>,
}

/// The patterns of a loader that watches its files.
pub struct FileUpdatingLoaderBuilder {
    glob_patterns: Vec<String>,
    evaluated_patterns: Vec<Pattern>,
}

/// A loader that watches the files that match its patterns.
pub struct FileUpdatingLoader {
    patterns: Vec<Pattern>,
    capacity: usize,
}

impl FileOnceLoaderBuilder {
    /// The texts of the patterns.
    pub closed spec fn spec_patterns(&self) -> Seq<Seq<char>> {
        crate::text::string_views(self.glob_patterns@)
    }

    /// The compiled patterns are those of the texts.
    #[verifier::type_invariant]
    pub closed spec fn well_formed(&self) -> bool {
        pattern_texts(self.evaluated@) == crate::text::string_views(self.glob_patterns@)
    }

    /// A builder for the given patterns. Fails with `InvalidGlobPattern`
    /// exactly when one of them is no valid pattern.
    pub fn new(glob_patterns: Vec<String>) -> (r: Result<Self, FileLoaderError>)
        ensures
            match r {
                Ok(builder) => spec_all_accepted(crate::text::string_views(glob_patterns@))
                    && builder.spec_patterns() == crate::text::string_views(glob_patterns@),
                Err(e) => !spec_all_accepted(crate::text::string_views(glob_patterns@))
                    && e is InvalidGlobPattern,
            },
    {
        match compile_patterns(&glob_patterns) {
            Ok(evaluated) => Ok(Self { glob_patterns, evaluated }),
            Err(e) => Err(e),
        }
    }

    /// The patterns as they were given.
    pub fn patterns(&self) -> (r: &Vec<String>)
        ensures
            crate::text::string_views(r@) == self.spec_patterns(),
    {
        &self.glob_patterns
    }

    /// The loader for the documents that were loaded from the files that
    /// match. Fails with `NoMatchingDocuments` exactly when there are none.
    pub fn build(self, documents: Vec<Document>) -> (r: Result<FileOnceLoader, FileLoaderError>)
        ensures
            match r {
                Ok(loader) => documents@.len() > 0 && loader.spec_documents() == documents@,
                Err(e) => documents@.len() == 0 && e is NoMatchingDocuments,
            },
    {
        if documents.len() == 0 {
            Err(FileLoaderError::NoMatchingDocuments)
        } else {
            Ok(FileOnceLoader { documents })
        }
    }
}

impl FileOnceLoader {
    /// The documents of the loader.
    pub closed spec fn spec_documents(&self) -> Seq<Document> {
        self.documents@
    }

    /// A builder for the given patterns.
    pub fn new(glob_patterns: Vec<String>) -> (r: Result<FileOnceLoaderBuilder, FileLoaderError>)
        ensures
            match r {
                Ok(builder) => spec_all_accepted(crate::text::string_views(glob_patterns@))
                    && builder.spec_patterns() == crate::text::string_views(glob_patterns@),
                Err(e) => !spec_all_accepted(crate::text::string_views(glob_patterns@))
                    && e is InvalidGlobPattern,
            },
    {
        FileOnceLoaderBuilder::new(glob_patterns)
    }

    /// The documents to hand out.
    pub fn documents(&self) -> (r: &Vec<Document>)
        ensures
            r@ == self.spec_documents(),
    {
        &self.documents
    }

    /// The number of documents that the loader's channel has to buffer:
    /// all of them.
    pub fn capacity(&self) -> (r: usize)
        ensures
            r == self.spec_documents().len(),
    {
        self.documents.len()
    }
}

impl FileUpdatingLoaderBuilder {
    /// The texts of the patterns.
    pub closed spec fn spec_patterns(&self) -> Seq<Seq<char>> {
        crate::text::string_views(self.glob_patterns@)
    }

    /// The compiled patterns are those of the texts.
    #[verifier::type_invariant]
    pub closed spec fn well_formed(&self) -> bool {
        pattern_texts(self.evaluated_patterns@) == crate::text::string_views(self.glob_patterns@)
    }

    /// A builder for the given patterns. Fails with `InvalidGlobPattern`
    /// exactly when one of them is no valid pattern.
    pub fn new(glob_patterns: Vec<String>) -> (r: Result<Self, FileLoaderError>)
        ensures
            match r {
                Ok(builder) => spec_all_accepted(crate::text::string_views(glob_patterns@))
                    && builder.spec_patterns() == crate::text::string_views(glob_patterns@),
                Err(e) => !spec_all_accepted(crate::text::string_views(glob_patterns@))
                    && e is InvalidGlobPattern,
            },
    {
        match compile_patterns(&glob_patterns) {
            Ok(evaluated_patterns) => Ok(Self { glob_patterns, evaluated_patterns }),
            Err(e) => Err(e),
        }
    }

    /// The patterns as they were given.
    pub fn patterns(&self) -> (r: &Vec<String>)
        ensures
            crate::text::string_views(r@) == self.spec_patterns(),
    {
        &self.glob_patterns
    }

    /// The loader, given the number of files that match at first. Its
    /// channel buffers one document per file, and
    /// `DEFAULT_CHANNEL_CAPACITY` documents where no file matches yet.
    pub fn build(self, files: usize) -> (r: FileUpdatingLoader)
        ensures
            r.spec_patterns() == self.spec_patterns(),
            r.spec_capacity() == if files == 0 {
                DEFAULT_CHANNEL_CAPACITY
            } else {
                files
            },
    {
        proof {
            use_type_invariant(&self);
        }
        let capacity = if files == 0 {
            DEFAULT_CHANNEL_CAPACITY
        } else {
            files
        };
        FileUpdatingLoader { patterns: self.evaluated_patterns, capacity }
    }
}

impl FileUpdatingLoader {
    /// The texts of the patterns.
    pub closed spec fn spec_patterns(&self) -> Seq<Seq<char>> {
        pattern_texts(self.patterns@)
    }

    /// The number of documents that the loader's channel buffers.
    pub closed spec fn spec_capacity(&self) -> usize {
        self.capacity
    }

    /// The number of documents that the loader's channel buffers.
    pub fn capacity(&self) -> (r: usize)
        ensures
            r == self.spec_capacity(),
    {
        self.capacity
    }

    /// The patterns of the loader.
    pub fn patterns(&self) -> (r: &Vec<Pattern>)
        ensures
            pattern_texts(r@) == self.spec_patterns(),
    {
        &self.patterns
    }

    /// The texts of the patterns, in order.
    pub fn pattern_strings(&self) -> (r: Vec<String>)
        ensures
            crate::text::string_views(r@) == self.spec_patterns(),
    {
        let mut out: Vec<String> = Vec::new();
        let mut i: usize = 0;
        while i < self.patterns.len()
            invariant
                i <= self.patterns@.len(),
                out@.len() == i,
                forall|j: int| 0 <= j < i ==> (#[trigger] out@[j])@ == pattern_text(self.patterns@[j]),
            decreases self.patterns@.len() - i,
        {
            out.push(String::from_str(text_of(&self.patterns[i])));
            i += 1;
        }
        assert(crate::text::string_views(out@) =~= pattern_texts(self.patterns@));
        out
    }
}

/// Whether enough time has passed since the last event to look at the
/// next ones.
pub fn settled(elapsed_millis: u64) -> (r: bool)
    ensures
        r == (elapsed_millis >= DEBOUNCE_DURATION_MILLIS),
{
    elapsed_millis >= DEBOUNCE_DURATION_MILLIS
}

} // verus!
