use seedframe::codegen::client::{holder, holder_path, parse_tools, ClientMacroError, ExecutionModeType};
use seedframe::codegen::doc::{parse_doc_comment, sections_of, Section};
use seedframe::codegen::loader::{
    get_type, validate_config, BuiltinLoaderType, LoaderConfig, LoaderMacroError, LoaderType,
};
use seedframe::codegen::tool::{plan_tool, ToolMacroError, ToolPlan};
use seedframe::tools::ExecutionStrategy;

/// The reading of a comment as a line-by-line pass over std's string
/// functions.
fn reference(doc: &str) -> (Option<String>, Vec<(String, String)>) {
    let lines: Vec<String> =
        doc.lines().map(|line| line.trim_start_matches("///").trim().to_string()).collect();
    let mut sections = Vec::new();
    let mut current_section = Vec::new();
    let mut current_heading = None;
    for line in &lines {
        if let Some(stripped) = line.strip_prefix("# ") {
            if !current_section.is_empty() || current_heading.is_some() {
                sections.push((current_heading.take(), current_section));
                current_section = Vec::new();
            }
            current_heading = Some(stripped.trim().to_string());
        } else {
            current_section.push(line.to_string());
        }
    }
    sections.push((current_heading.take(), current_section));
    let description = sections
        .iter()
        .find(|(heading, _)| heading.is_none())
        .map(|(_, lines)| lines.join("\n").trim().to_string());
    let mut arguments = Vec::new();
    if let Some((_, args_lines)) = sections.iter().find(|(h, _)| h.as_deref() == Some("Arguments")) {
        for line in args_lines {
            if line.starts_with('*') {
                let content = line[1..].trim();
                if let Some((name_part, desc)) = content.split_once(':') {
                    arguments.push((name_part.trim().trim_matches('`').to_string(), desc.trim().to_string()));
                }
            }
        }
    }
    (description, arguments)
}

const COMMENTS: [&str; 12] = [
    "",
    "Greets a user",
    "/// Greets a user\n/// # Arguments\n/// * `name`: name of the user",
    "Converts temperature between scales\n# Arguments\n* `value`: The temperature value to convert\n* `from`: The scale to convert from\n* `to`: The scale to convert to",
    "# Arguments\n* a: b",
    "first\n\nsecond\n#  Arguments \n*x : y : z\n* no colon here\nnot a bullet: at all\n# Returns\nsomething\n# Arguments\n* late: ignored",
    "text\n#Arguments\n* a: b",
    "/// /// doubled\r\n///# Arguments\r\n///*   ``tick``  :  spaced  \r\n",
    "   \n  lead\n  \n",
    "# Only\n# Arguments\n*:\n*a:\n* : b",
    "a\n# \n* x: y",
    "é\n# Arguments\n* ü: €",
];

#[test]
fn comments_are_read_as_std_reads_them() {
    for doc in COMMENTS {
        assert_eq!(parse_doc_comment(doc), reference(doc), "{doc:?}");
    }
}

#[test]
fn a_comment_gives_the_description_and_the_arguments() {
    let doc = "Greets a user with a personalized message\n# Arguments\n* `name`: The name of the person to greet\n* `mood`: The current mood of the person (happy/tired/excited)";
    assert_eq!(
        parse_doc_comment(doc),
        (
            Some("Greets a user with a personalized message".to_string()),
            vec![
                ("name".to_string(), "The name of the person to greet".to_string()),
                ("mood".to_string(), "The current mood of the person (happy/tired/excited)".to_string()),
            ]
        )
    );
}

#[test]
fn a_comment_that_starts_with_a_heading_has_no_description() {
    assert_eq!(parse_doc_comment("# Arguments\n* a: b"), (None, vec![("a".to_string(), "b".to_string())]));
    assert_eq!(parse_doc_comment(""), (Some(String::new()), vec![]));
}

#[test]
fn sections_follow_the_headings() {
    let lines = vec!["one", "# A", "# B", "two", "three"].into_iter().map(|s| s.to_string()).collect();
    assert_eq!(
        sections_of(lines),
        vec![
            Section { heading: None, lines: vec!["one".to_string()] },
            Section { heading: Some("A".to_string()), lines: vec![] },
            Section { heading: Some("B".to_string()), lines: vec!["two".to_string(), "three".to_string()] },
        ]
    );
    assert_eq!(sections_of(vec![]), vec![Section { heading: None, lines: vec![] }]);
}

#[test]
fn execution_modes_are_known_by_name() {
    assert_eq!(ExecutionModeType::from_str("best_effort"), Ok(ExecutionModeType::BestEffort));
    assert_eq!(ExecutionModeType::from_str("fail_early"), Ok(ExecutionModeType::FailEarly));
    assert_eq!(
        ExecutionModeType::from_str("Fail_Early"),
        Err(ClientMacroError::UnknownExecutionMode("Fail_Early".to_string()))
    );
    assert_eq!(ExecutionModeType::or_default(None), Ok(ExecutionModeType::FailEarly));
    assert_eq!(ExecutionModeType::or_default(Some("best_effort")), Ok(ExecutionModeType::BestEffort));
    assert_eq!(ExecutionModeType::BestEffort.strategy(), ExecutionStrategy::BestEffort);
    assert_eq!(ExecutionModeType::FailEarly.path(), "seedframe::tools::ExecutionStrategy::FailEarly");
    assert_eq!(ExecutionModeType::BestEffort.path(), "seedframe::tools::ExecutionStrategy::BestEffort");
}

#[test]
fn tools_are_held_by_types_named_after_them() {
    assert_eq!(holder("greet"), "__SF_TOOL_greet__");
    assert_eq!(holder_path("greet"), "__SF_TOOL_greet__");
    assert_eq!(holder_path("tools::text::capitalize"), "tools::text::__SF_TOOL_capitalize__");
    assert_eq!(holder_path("a::"), "a::__SF_TOOL___");
    assert_eq!(
        parse_tools(&["capitalize".to_string(), "m::greet".to_string()]),
        vec!["__SF_TOOL_capitalize__".to_string(), "m::__SF_TOOL_greet__".to_string()]
    );
}

#[test]
fn built_in_loaders_are_known_by_name() {
    assert_eq!(BuiltinLoaderType::from_str("FileOnceLoader"), Ok(BuiltinLoaderType::FileOnceLoader));
    assert_eq!(BuiltinLoaderType::from_str("FileUpdatingLoader"), Ok(BuiltinLoaderType::FileUpdatingLoader));
    assert_eq!(
        BuiltinLoaderType::from_str("WebScraper"),
        Err(LoaderMacroError::UnknownLoader("WebScraper".to_string()))
    );
    assert_eq!(BuiltinLoaderType::FileOnceLoader.required_args(), vec!["path"]);
    assert_eq!(BuiltinLoaderType::FileUpdatingLoader.supported_args(), vec!["path"]);
    assert_eq!(
        BuiltinLoaderType::FileOnceLoader.path(),
        "seedframe::loader::builtins::file_loaders::file_once_loader::FileOnceLoader"
    );
}

fn config(kind: Option<&str>, path: Option<&str>, external: Option<&str>) -> LoaderConfig {
    LoaderConfig {
        kind: kind.map(|s| s.to_string()),
        path: path.map(|s| s.to_string()),
        external: external.map(|s| s.to_string()),
        config: None,
    }
}

#[test]
fn loader_declarations_are_checked() {
    assert_eq!(validate_config(&config(Some("FileOnceLoader"), Some("/tmp/*.txt"), None)), Ok(()));
    assert_eq!(validate_config(&config(None, None, Some("WebScraper"))), Ok(()));
    assert_eq!(
        validate_config(&config(Some("FileOnceLoader"), Some("p"), Some("WebScraper"))),
        Err(LoaderMacroError::ParseError(
            "Only one of the attributes `kind` or `external` is supported!".to_string()
        ))
    );
    assert_eq!(
        validate_config(&config(None, Some("p"), None)),
        Err(LoaderMacroError::ParseError(
            "Macro expects one of `kind` or `external` attributes to be specified!".to_string()
        ))
    );
    assert_eq!(
        validate_config(&config(Some("Nope"), Some("p"), None)),
        Err(LoaderMacroError::UnknownLoader("Nope".to_string()))
    );
    assert_eq!(
        validate_config(&config(Some("FileUpdatingLoader"), None, None)),
        Err(LoaderMacroError::MissingArgument(
            "path".to_string(),
            "seedframe::loader::builtins::file_loaders::file_updating_loader::FileUpdatingLoader".to_string()
        ))
    );
    assert_eq!(
        validate_config(&config(None, Some("p"), Some("WebScraper"))),
        Err(LoaderMacroError::UnsupportedArgument("path".to_string(), "external".to_string()))
    );
}

#[test]
fn the_loader_of_a_declaration_is_built_in_or_not() {
    assert_eq!(
        get_type(&config(Some("FileOnceLoader"), Some("p"), None)),
        Ok(LoaderType::BuiltIn(
            "seedframe::loader::builtins::file_loaders::file_once_loader::FileOnceLoader".to_string()
        ))
    );
    assert_eq!(get_type(&config(None, None, Some("WebScraper"))), Ok(LoaderType::External("WebScraper".to_string())));
    assert_eq!(
        get_type(&config(Some("Nope"), None, None)),
        Err(LoaderMacroError::UnknownLoader("Nope".to_string()))
    );
}

fn strings(items: &[&str]) -> Vec<String> {
    items.iter().map(|s| s.to_string()).collect()
}

#[test]
fn a_tool_is_planned_from_its_comment() {
    let docs = strings(&[" Capitalizes all words in a string", " # Arguments", " * `input`: The text to capitalize"]);
    assert_eq!(
        plan_tool("capitalize", None, &docs, &strings(&["input"])),
        Ok(ToolPlan {
            tool_name: "capitalize".to_string(),
            description: "Capitalizes all words in a string".to_string(),
            struct_name: "__SF_TOOL_capitalize__".to_string(),
            args: vec![("input".to_string(), "The text to capitalize".to_string())],
        })
    );
    assert_eq!(
        plan_tool("capitalize", Some("upper".to_string()), &docs, &strings(&[])).map(|p| (p.tool_name, p.struct_name)),
        Ok(("upper".to_string(), "__SF_TOOL_upper__".to_string()))
    );
}

#[test]
fn a_tool_with_an_undescribed_parameter_is_refused_first() {
    let docs = strings(&["# Arguments", "* a: first"]);
    assert_eq!(
        plan_tool("f", None, &docs, &strings(&["a", "b", "c"])),
        Err(ToolMacroError::UndocumentedArg("b".to_string()))
    );
    assert_eq!(
        plan_tool("f", Some("g".to_string()), &docs, &strings(&["a"])),
        Err(ToolMacroError::DescriptionForFnNotFound("g".to_string()))
    );
}
