//! Declarations of clients.

use vstd::prelude::*;
use crate::text::{chars_of, slice, str_eq};
use crate::tools::ExecutionStrategy;

verus! {

/// What is wrong with the declaration of a client.
#[derive(Debug, PartialEq, Eq)]
pub enum ClientMacroError {
    /// The declaration could not be read.
    ParseError(String),
    /// A field carries an attribute that is no plain name.
    UnrecognizedAttribute(String),
    /// The execution mode is neither `fail_early` nor `best_effort`.
    UnknownExecutionMode(String),
}

/// How the tools of a declared client run a batch.
#[derive(Debug, Clone, Copy, PartialEq, Eq)]
pub enum ExecutionModeType {
    FailEarly,
    BestEffort,
}

/// The execution mode that a name stands for.
pub open spec fn spec_execution_mode(name: Seq<char>) -> Option<ExecutionModeType> {
    if name == "best_effort"@ {
        Some(ExecutionModeType::BestEffort)
    } else if name == "fail_early"@ {
        Some(ExecutionModeType::FailEarly)
    } else {
        None
    }
}

impl ExecutionModeType {
    /// The execution mode that a name stands for. Fails with
    /// `UnknownExecutionMode`, which carries the name, for every name but
    /// `best_effort` and `fail_early`.
    pub fn from_str(provider: &str) -> (r: Result<Self, ClientMacroError>)
        ensures
            match r {
                Ok(mode) => spec_execution_mode(provider@) == Some(mode),
                Err(e) => spec_execution_mode(provider@) is None && (
                e matches ClientMacroError::UnknownExecutionMode(name) && name@ == provider@),
            },
    {
        if str_eq(provider, "best_effort") {
            Ok(Self::BestEffort)
        } else if str_eq(provider, "fail_early") {
            Ok(Self::FailEarly)
        } else {
            Err(ClientMacroError::UnknownExecutionMode(String::from_str(provider)))
        }
    }

    /// The mode that a declaration without one gets.
    pub fn or_default(mode: Option<&str>) -> (r: Result<Self, ClientMacroError>)
        ensures
            match mode {
                None => r == Ok::<Self, ClientMacroError>(ExecutionModeType::FailEarly),
                Some(name) => match r {
                    Ok(mode) => spec_execution_mode(name@) == Some(mode),
                    Err(e) => spec_execution_mode(name@) is None && (
                    e matches ClientMacroError::UnknownExecutionMode(text) && text@ == name@),
                },
            },
    {
        match mode {
            Some(name) => Self::from_str(name),
            None => Ok(Self::FailEarly),
        }
    }

    /// The strategy that the mode stands for.
    pub fn strategy(&self) -> (r: ExecutionStrategy)
        ensures
            r == match self {
                ExecutionModeType::FailEarly => ExecutionStrategy::FailEarly,
                ExecutionModeType::BestEffort => ExecutionStrategy::BestEffort,
            },
    {
        match self {
            ExecutionModeType::FailEarly => ExecutionStrategy::FailEarly,
            ExecutionModeType::BestEffort => ExecutionStrategy::BestEffort,
        }
    }

    /// The path of the strategy in generated code.
    pub fn path(&self) -> (r: &'static str)
        ensures
            r@ == match self {
                ExecutionModeType::FailEarly => "seedframe::tools::ExecutionStrategy::FailEarly"@,
                ExecutionModeType::BestEffort => "seedframe::tools::ExecutionStrategy::BestEffort"@,
            },
    {
        match self {
            Self::FailEarly => "seedframe::tools::ExecutionStrategy::FailEarly",
            Self::BestEffort => "seedframe::tools::ExecutionStrategy::BestEffort",
        }
    }
}

/// The index behind the last `::` of a path, or 0 where it has none.
pub open spec fn spec_module_end(path: Seq<char>) -> int {
    crate::schema::spec_last_segment_start(path)
}

/// The name of the type that holds a tool: the tool's name between
/// `__SF_TOOL_` and `__`.
pub open spec fn spec_holder(name: Seq<char>) -> Seq<char> {
    "__SF_TOOL_"@ + name + "__"@
}

/// The path of the type that holds the tool at `path`: the same module,
/// and the holder of the path's last segment.
pub open spec fn spec_holder_path(path: Seq<char>) -> Seq<char> {
    path.subrange(0, spec_module_end(path)) + spec_holder(
        path.subrange(spec_module_end(path), path.len() as int),
    )
}

/// The name of the type that holds a tool.
pub fn holder(name: &str) -> (r: String)
    ensures
        r@ == spec_holder(name@),
{
    let mut out = String::from_str("__SF_TOOL_");
    out.append(name);
    out.append("__");
    out
}

/// The path of the type that holds the tool at `path`.
pub fn holder_path(path: &str) -> (r: String)
    ensures
        r@ == spec_holder_path(path@),
{
    let chars = chars_of(path);
    let n = chars.len();
    let mut end: usize = n;
    proof {
        assert(path@.take(end as int) =~= path@);
    }
    while end >= 2 && !(chars[end - 2] == ':' && chars[end - 1] == ':')
        invariant
            end <= n,
            n == chars@.len(),
            chars@ == path@,
            spec_module_end(path@) == spec_module_end(path@.take(end as int)),
        decreases end,
    {
        proof {
            assert(path@.take(end as int).drop_last() =~= path@.take(end - 1));
        }
        end -= 1;
    }
    let start: usize = if end >= 2 {
        end
    } else {
        0
    };
    let mut out = slice(path, 0, start);
    out.append(holder(slice(path, start, n).as_str()).as_str());
    out
}

/// The paths of the types that hold the tools at `tools`.
pub fn parse_tools(tools: &[String]) -> (r: Vec<String>)
    ensures
        r@.len() == tools@.len(),
        forall|i: int| 0 <= i < tools@.len() ==> (#[trigger] r@[i])@ == spec_holder_path(tools@[i]@),
{
    let mut out: Vec<String> = Vec::new();
    let mut i: usize = 0;
    while i < tools.len()
        invariant
            i <= tools@.len(),
            out@.len() == i,
            forall|j: int| 0 <= j < i ==> (#[trigger] out@[j])@ == spec_holder_path(tools@[j]@),
        decreases tools@.len() - i,
    {
        out.push(holder_path(tools[i].as_str()));
        i += 1;
    }
    out
}

} // verus!
