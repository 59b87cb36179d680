//! File system events and the documents they stand for.

use vstd::prelude::*;
use crate::document::{Document, DocumentView};
use crate::loader::files::{any_matches, pattern_texts, spec_any_matches};
use glob::Pattern;

verus! {

/// What happened to a watched file.
#[derive(Debug, Clone, Copy, PartialEq, Eq)]
pub enum EventType {
    Modify,
    Create,
    Delete,
}

/// What a file system event reports, as far as the loader tells events
/// apart.
#[derive(Debug, Clone, Copy, PartialEq, Eq)]
pub enum FileEventKind {
    /// A file was created.
    CreateFile,
    /// Something else was created.
    CreateOther,
    /// The contents of a file changed.
    ModifyData,
    /// Something else about a file changed.
    ModifyOther,
    /// A file or a directory was removed.
    Remove,
    /// Anything else.
    Other,
}

/// A file system event: its kind and the paths it is about. A path that is
/// no valid text is `None`.
#[derive(Debug, PartialEq, Eq)]
pub struct FileEvent {
    pub kind: FileEventKind,
    pub paths: Vec<Option<String>>,
}

impl EventType {
    /// Whether the file's text is to be read for the event: not for a
    /// deletion.
    pub fn reads_file(&self) -> (r: bool)
        ensures
            r == !(*self is Delete),
    {
        match self {
            EventType::Modify | EventType::Create => true,
            EventType::Delete => false,
        }
    }
}

/// The document that an event on the file at `path` stands for: the file's
/// text under the path, and no text for a deleted file.
pub open spec fn spec_document_for_event(
    path: Seq<char>,
    et: EventType,
    contents: Seq<char>,
) -> DocumentView {
    DocumentView {
        id: path,
        data: if et is Delete {
            Seq::empty()
        } else {
            contents
        },
    }
}

/// The document for an event on the file at `path`. `contents` is the text
/// read from the file; it is not looked at for a deletion.
pub fn document_for_event(path: &str, et: EventType, contents: &str) -> (r: Document)
    ensures
        r@ == spec_document_for_event(path@, et, contents@),
{
    let data = match et {
        EventType::Modify | EventType::Create => String::from_str(contents),
        EventType::Delete => String::new(),
    };
    Document { id: String::from_str(path), data }
}

/// What a kind of event means for a file.
pub open spec fn spec_event_type(kind: FileEventKind) -> Option<EventType> {
    match kind {
        FileEventKind::CreateFile => Some(EventType::Create),
        FileEventKind::ModifyData => Some(EventType::Modify),
        FileEventKind::Remove => Some(EventType::Delete),
        _ => None,
    }
}

/// What an event means to a loader with the given patterns: the path and
/// what happened to the file there. Only the first path of the event
/// counts; it has to be valid text and to match one of the patterns, and
/// the event has to be the creation of a file, a change of a file's
/// contents or a removal.
pub open spec fn spec_process_event(
    kind: FileEventKind,
    paths: Seq<Option<String>>,
    patterns: Seq<Seq<char>>,
) -> Option<(Seq<char>, EventType)> {
    if paths.len() == 0 {
        None
    } else {
        match paths[0] {
            None => None,
            Some(path) => if spec_any_matches(patterns, path@) {
                match spec_event_type(kind) {
                    Some(et) => Some((path@, et)),
                    None => None,
                }
            } else {
                None
            },
        }
    }
}

/// What an event means to a loader with the given patterns.
pub fn process_event(event: &FileEvent, patterns: &Vec<Pattern>) -> (r: Option<(String, EventType)>)
    ensures
        match r {
            Some((path, et)) => spec_process_event(
                event.kind,
                event.paths@,
                pattern_texts(patterns@),
            ) == Some((path@, et)),
            None => spec_process_event(event.kind, event.paths@, pattern_texts(patterns@))
                is None,
        },
{
    if event.paths.len() == 0 {
        return None;
    }
    let path = match &event.paths[0] {
        Some(path) => path,
        None => {
            return None;
        },
    };
    if !any_matches(patterns, path.as_str()) {
        return None;
    }
    match event.kind {
        FileEventKind::CreateFile => Some((path.clone(), EventType::Create)),
        FileEventKind::ModifyData => Some((path.clone(), EventType::Modify)),
        FileEventKind::Remove => Some((path.clone(), EventType::Delete)),
        _ => None,
    }
}

} // verus!
