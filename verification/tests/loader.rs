use seedframe::document::Document;
use seedframe::loader::events::{document_for_event, process_event, EventType, FileEvent, FileEventKind};
use seedframe::loader::files::{
    any_matches, compile_patterns, settled, FileLoaderError, FileOnceLoader, FileOnceLoaderBuilder,
    FileUpdatingLoaderBuilder, DEFAULT_CHANNEL_CAPACITY,
};
use seedframe::loader::paths::{
    components, covered, get_dirs_to_watch, glob_base, is_same_path, split, starts_with_path,
};

fn strings(items: &[&str]) -> Vec<String> {
    items.iter().map(|s| s.to_string()).collect()
}

fn event(kind: FileEventKind, paths: &[&str]) -> FileEvent {
    FileEvent { kind, paths: paths.iter().map(|p| Some(p.to_string())).collect() }
}

#[test]
fn test_document_for_event_delete() {
    let doc = document_for_event("test.txt", EventType::Delete, "left over");
    assert_eq!(doc.data, "");
}

#[test]
fn test_document_for_event_create() {
    let doc = document_for_event("dir/test.txt", EventType::Create, "test content");
    assert_eq!(doc.id, "dir/test.txt");
    assert_eq!(doc.data, "test content");
}

#[test]
fn a_modified_file_gives_its_new_text() {
    let doc = document_for_event("a.txt", EventType::Modify, "new");
    assert_eq!(doc, Document::new("a.txt".to_string(), "new".to_string()));
    assert!(EventType::Modify.reads_file());
    assert!(EventType::Create.reads_file());
    assert!(!EventType::Delete.reads_file());
}

#[test]
fn test_process_event_matching_pattern() {
    let patterns = compile_patterns(&strings(&["*.txt"])).unwrap();
    let event = event(FileEventKind::CreateFile, &["test.txt"]);
    let result = process_event(&event, &patterns);
    assert!(result.is_some());
    let (path, et) = result.unwrap();
    assert_eq!(path, "test.txt");
    assert!(matches!(et, EventType::Create));
}

#[test]
fn test_process_event_non_matching_pattern() {
    let patterns = compile_patterns(&strings(&["*.md"])).unwrap();
    let event = event(FileEventKind::CreateFile, &["test.txt"]);
    let result = process_event(&event, &patterns);
    assert!(result.is_none());
}

#[test]
fn events_mean_what_their_kind_says() {
    let patterns = compile_patterns(&strings(&["*.md", "*.txt"])).unwrap();
    let on = |kind| process_event(&event(kind, &["a.txt", "b.md"]), &patterns);
    assert_eq!(on(FileEventKind::CreateFile), Some(("a.txt".to_string(), EventType::Create)));
    assert_eq!(on(FileEventKind::ModifyData), Some(("a.txt".to_string(), EventType::Modify)));
    assert_eq!(on(FileEventKind::Remove), Some(("a.txt".to_string(), EventType::Delete)));
    assert_eq!(on(FileEventKind::CreateOther), None);
    assert_eq!(on(FileEventKind::ModifyOther), None);
    assert_eq!(on(FileEventKind::Other), None);
}

#[test]
fn only_the_first_path_of_an_event_counts() {
    let patterns = compile_patterns(&strings(&["*.txt"])).unwrap();
    assert_eq!(process_event(&event(FileEventKind::Remove, &["a.md", "b.txt"]), &patterns), None);
    assert_eq!(process_event(&event(FileEventKind::Remove, &[]), &patterns), None);
    let unreadable = FileEvent { kind: FileEventKind::Remove, paths: vec![None, Some("b.txt".to_string())] };
    assert_eq!(process_event(&unreadable, &patterns), None);
    assert_eq!(process_event(&event(FileEventKind::Remove, &["b.txt"]), &vec![]), None);
}

#[test]
fn test_invalid_glob_patterns() {
    let invalid_patterns = strings(&[
        "*", "?", "[", "]", "{", "}", "!", "*.*", "*.txt*", "*.txt?", "*.txt[a-z]", "*.txt{a,b}", "*.txt!",
        "*.txt,*.pdf", "*.txt *.pdf",
    ]);
    let result = FileOnceLoaderBuilder::new(invalid_patterns);
    assert!(result.is_err());
}

#[test]
fn the_first_invalid_pattern_is_reported() {
    match compile_patterns(&strings(&["*.txt", "a***b", "["])) {
        Err(FileLoaderError::InvalidGlobPattern(pos, msg)) => {
            assert_eq!(pos, 3);
            assert_eq!(msg, "wildcards are either regular `*` or recursive `**`");
        }
        other => panic!("{:?}", other.map(|p| p.len())),
    }
    match compile_patterns(&strings(&["a/**b"])) {
        Err(FileLoaderError::InvalidGlobPattern(pos, msg)) => {
            assert_eq!(pos, 4);
            assert_eq!(msg, "recursive wildcards must form a single path component");
        }
        other => panic!("{:?}", other.map(|p| p.len())),
    }
    assert!(FileUpdatingLoaderBuilder::new(strings(&["["])).is_err());
    assert!(FileOnceLoader::new(strings(&["*.txt", "/tmp/**/*.md"])).is_ok());
}

#[test]
fn patterns_match_as_globs() {
    let patterns = compile_patterns(&strings(&["/tmp/data/**/*.txt", "c?t"])).unwrap();
    assert!(any_matches(&patterns, "/tmp/data/a/b/x.txt"));
    assert!(any_matches(&patterns, "cat"));
    assert!(!any_matches(&patterns, "/tmp/data/a/b/x.md"));
    assert!(any_matches(&patterns, "c?t"));
    assert!(!any_matches(&patterns, "ct"));
    assert!(!any_matches(&vec![], "cat"));
}

#[test]
fn a_once_loader_needs_documents() {
    let builder = FileOnceLoaderBuilder::new(strings(&["*.md"])).unwrap();
    assert_eq!(builder.patterns(), &strings(&["*.md"]));
    assert!(matches!(builder.build(vec![]), Err(FileLoaderError::NoMatchingDocuments)));
    let docs = vec![
        Document::new("t1.txt".to_string(), "test content".to_string()),
        Document::new("t2.txt".to_string(), "test content".to_string()),
    ];
    let loader = FileOnceLoaderBuilder::new(strings(&["*.txt"])).unwrap().build(docs.clone()).unwrap();
    assert_eq!(loader.documents(), &docs);
    assert_eq!(loader.capacity(), 2);
}

#[test]
fn a_watching_loader_buffers_one_document_per_file() {
    let loader = FileUpdatingLoaderBuilder::new(strings(&["*.txt", "a/*"])).unwrap().build(3);
    assert_eq!(loader.capacity(), 3);
    assert_eq!(loader.pattern_strings(), strings(&["*.txt", "a/*"]));
    assert_eq!(loader.patterns().len(), 2);
    let empty = FileUpdatingLoaderBuilder::new(strings(&["*.txt"])).unwrap().build(0);
    assert_eq!(empty.capacity(), DEFAULT_CHANNEL_CAPACITY);
    assert_eq!(DEFAULT_CHANNEL_CAPACITY, 20);
}

#[test]
fn events_are_looked_at_after_half_a_second() {
    assert!(!settled(0));
    assert!(!settled(499));
    assert!(settled(500));
    assert!(settled(u64::MAX));
}

#[test]
fn nested_directories_are_watched_with_their_parents() {
    let paths = strings(&["/a/b", "/a", "/c/d", "/ab", "/a/", "/c/d/e/f"]);
    assert_eq!(get_dirs_to_watch(&paths), strings(&["/a", "/c/d", "/ab", "/a/"]));
    assert_eq!(get_dirs_to_watch(&[]), Vec::<String>::new());
    assert_eq!(get_dirs_to_watch(&strings(&["/x", "/x"])), strings(&["/x", "/x"]));
    assert!(covered(&paths, "/a/b"));
    assert!(!covered(&paths, "/ab"));
    assert!(covered(&paths, "/a/zzz"));
}

#[test]
fn the_base_of_a_pattern_is_what_stands_before_its_first_glob() {
    assert_eq!(glob_base("/tmp/data/**/*.txt"), "/tmp/data");
    assert_eq!(glob_base("/tmp/data/file.txt"), "/tmp/data/file.txt");
    assert_eq!(glob_base("*.txt"), "");
    assert_eq!(glob_base("/*.txt"), "");
    assert_eq!(glob_base("a//b*"), "a/");
    assert_eq!(glob_base("dir/sub/fi?e"), "dir/sub");
    assert_eq!(glob_base("dir/[ab]/x"), "dir");
    assert_eq!(glob_base("dir/no!/x"), "dir");
    assert_eq!(glob_base(""), "");
    assert_eq!(glob_base("é/ü*"), "é");
}

const PATHS: [&str; 22] = [
    "", "/", "//", ".", "./", "./.", "..", "/.", "/..", "a", "a/", "a/b", "a//b", "a/./b", "./a", "/a", "/a/b",
    "/a/b/", "/ab", "a/..", "é/ü", "/a/./b/.",
];

#[test]
fn components_are_those_of_std_paths() {
    for path in PATHS {
        let expected: Vec<String> = std::path::Path::new(path)
            .components()
            .map(|c| c.as_os_str().to_string_lossy().to_string())
            .collect();
        assert_eq!(components(path), expected, "{path:?}");
    }
}

#[test]
fn paths_start_with_and_equal_each_other_as_std_paths_do() {
    for path in PATHS {
        for base in PATHS {
            let (p, b) = (std::path::Path::new(path), std::path::Path::new(base));
            assert_eq!(starts_with_path(path, base), p.starts_with(b), "{path:?} {base:?}");
            assert_eq!(is_same_path(path, base), p == b, "{path:?} {base:?}");
        }
    }
}

#[test]
fn split_is_std_split() {
    for path in PATHS {
        assert_eq!(split(path, '/'), path.split('/').map(|s| s.to_string()).collect::<Vec<String>>());
    }
    assert_eq!(split("a:b::c", ':'), vec!["a", "b", "", "c"]);
}
