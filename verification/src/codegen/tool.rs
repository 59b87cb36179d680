//! Declarations of tools.

use vstd::prelude::*;
use crate::codegen::client::{holder, spec_holder};
use crate::codegen::doc::{pairs_view, parse_doc_comment, spec_parse_doc_comment};
use crate::text::{join, spec_join, spec_trim, str_eq, string_views, trim};

verus! {

/// What is wrong with the declaration of a tool.
#[derive(Debug, PartialEq, Eq)]
pub enum ToolMacroError {
    /// A parameter that the comment does not describe.
    UndocumentedArg(String),
    /// The comment does not describe the tool.
    DescriptionForFnNotFound(String),
    /// The declaration could not be read.
    ParseError(String),
}

/// The model of a [`ToolMacroError`].
pub enum ToolMacroErrorView {
    UndocumentedArg(Seq<char>),
    DescriptionForFnNotFound(Seq<char>),
    ParseError(Seq<char>),
}

impl View for ToolMacroError {
    type V = ToolMacroErrorView;

    open spec fn view(&self) -> ToolMacroErrorView {
        match self {
            ToolMacroError::UndocumentedArg(a) => ToolMacroErrorView::UndocumentedArg(a@),
            ToolMacroError::DescriptionForFnNotFound(t) => ToolMacroErrorView::DescriptionForFnNotFound(
                t@,
            ),
            ToolMacroError::ParseError(m) => ToolMacroErrorView::ParseError(m@),
        }
    }
}

/// What is generated for a function that is declared a tool.
#[derive(Debug, PartialEq, Eq)]
pub struct ToolPlan {
    /// The name under which the model calls the tool.
    pub tool_name: String,
    /// What the tool does.
    pub description: String,
    /// The name of the type that holds the tool.
    pub struct_name: String,
    /// The parameters that the model supplies, each with its meaning.
    pub args: Vec<(String, String)>,
}

/// The model of a [`ToolPlan`].
pub struct ToolPlanView {
    pub tool_name: Seq<char>,
    pub description: Seq<char>,
    pub struct_name: Seq<char>,
    pub args: Seq<(Seq<char>, Seq<char>)>,
}

impl View for ToolPlan {
    type V = ToolPlanView;

    open spec fn view(&self) -> ToolPlanView {
        ToolPlanView {
            tool_name: self.tool_name@,
            description: self.description@,
            struct_name: self.struct_name@,
            args: pairs_view(self.args@),
        }
    }
}

/// The meaning that the first of `described` with the name `name` gives.
pub open spec fn spec_meaning(described: Seq<(Seq<char>, Seq<char>)>, name: Seq<char>) -> Option<
    Seq<char>,
>
    decreases described.len(),
{
    if described.len() == 0 {
        None
    } else if described[0].0 == name {
        Some(described[0].1)
    } else {
        spec_meaning(described.drop_first(), name)
    }
}

/// The first of the parameters that the comment does not describe.
pub open spec fn spec_undocumented(
    described: Seq<(Seq<char>, Seq<char>)>,
    params: Seq<Seq<char>>,
) -> Option<Seq<char>>
    decreases params.len(),
{
    if params.len() == 0 {
        None
    } else if spec_meaning(described, params[0]) is None {
        Some(params[0])
    } else {
        spec_undocumented(described, params.drop_first())
    }
}

/// The comment of a function, from the texts of its documentation
/// attributes: each without the white space around it, one per line.
pub open spec fn spec_comment(docs: Seq<Seq<char>>) -> Seq<char> {
    spec_join(Seq::new(docs.len(), |i: int| spec_trim(docs[i])), "\n"@)
}

/// What is generated for a function, from its name, the name that the
/// declaration gives the tool, the texts of its documentation attributes
/// and the names of the parameters that the model supplies.
///
/// Every such parameter has to be described in the comment; the first that
/// is not is reported. Then the tool has to be described itself. The tool
/// is called as the declaration says, or as the function.
pub open spec fn spec_plan(
    function: Seq<char>,
    rename: Option<Seq<char>>,
    docs: Seq<Seq<char>>,
    params: Seq<Seq<char>>,
) -> Result<ToolPlanView, ToolMacroErrorView> {
    let said = spec_parse_doc_comment(spec_comment(docs));
    let tool_name = match rename {
        Some(name) => name,
        None => function,
    };
    match spec_undocumented(said.1, params) {
        Some(param) => Err(ToolMacroErrorView::UndocumentedArg(param)),
        None => match said.0 {
            None => Err(ToolMacroErrorView::DescriptionForFnNotFound(tool_name)),
            Some(description) => Ok(
                ToolPlanView {
                    tool_name,
                    description,
                    struct_name: spec_holder(tool_name),
                    args: Seq::new(
                        params.len(),
                        |i: int| (params[i], spec_meaning(said.1, params[i])->0),
                    ),
                },
            ),
        },
    }
}

/// The meaning that the first of `described` with the name `name` gives.
pub fn meaning(described: &Vec<(String, String)>, name: &str) -> (r: Option<String>)
    ensures
        match r {
            Some(m) => spec_meaning(pairs_view(described@), name@) == Some(m@),
            None => spec_meaning(pairs_view(described@), name@) is None,
        },
{
    let ghost all = pairs_view(described@);
    let mut i: usize = 0;
    proof {
        assert(all.skip(0) =~= all);
    }
    while i < described.len()
        invariant
            i <= described@.len(),
            all == pairs_view(described@),
            spec_meaning(all.skip(i as int), name@) == spec_meaning(all, name@),
        decreases described@.len() - i,
    {
        proof {
            assert(all.skip(i as int)[0] == (described@[i as int].0@, described@[i as int].1@));
            assert(all.skip(i as int).drop_first() =~= all.skip(i + 1));
        }
        if str_eq(described[i].0.as_str(), name) {
            return Some(described[i].1.clone());
        }
        i += 1;
    }
    None
}

/// The model of a plan or of what is wrong with the declaration.
pub open spec fn plan_view(plan: Result<ToolPlan, ToolMacroError>) -> Result<
    ToolPlanView,
    ToolMacroErrorView,
> {
    match plan {
        Ok(p) => Ok(p@),
        Err(e) => Err(e@),
    }
}

/// What is generated for a function that is declared a tool.
pub fn plan_tool(
    function: &str,
    rename: Option<String>,
    docs: &Vec<String>,
    params: &Vec<String>,
) -> (r: Result<ToolPlan, ToolMacroError>)
    ensures
        plan_view(r) == spec_plan(
            function@,
            match rename {
                Some(name) => Some(name@),
                None => None,
            },
            string_views(docs@),
            string_views(params@),
        ),
{
    let mut trimmed: Vec<String> = Vec::new();
    let mut i: usize = 0;
    while i < docs.len()
        invariant
            i <= docs@.len(),
            trimmed@.len() == i,
            forall|j: int| 0 <= j < i ==> (#[trigger] trimmed@[j])@ == spec_trim(docs@[j]@),
        decreases docs@.len() - i,
    {
        trimmed.push(trim(docs[i].as_str()));
        i += 1;
    }
    proof {
        assert(string_views(trimmed@) =~= Seq::new(
            docs@.len(),
            |i: int| spec_trim(string_views(docs@)[i]),
        ));
    }
    let comment = join(&trimmed, "\n");
    assert(comment@ == spec_comment(string_views(docs@)));
    let (description, described) = parse_doc_comment(comment.as_str());
    let ghost said = spec_parse_doc_comment(comment@);
    let ghost names = string_views(params@);
    let mut args: Vec<(String, String)> = Vec::new();
    let mut k: usize = 0;
    proof {
        assert(names.skip(0) =~= names);
    }
    while k < params.len()
        invariant
            k <= params@.len(),
            names == string_views(params@),
            said == spec_parse_doc_comment(spec_comment(string_views(docs@))),
            said.1 == pairs_view(described@),
            args@.len() == k,
            spec_undocumented(said.1, names.skip(k as int)) == spec_undocumented(said.1, names),
            forall|j: int|
                0 <= j < k ==> (#[trigger] args@[j]).0@ == names[j] && spec_meaning(said.1, names[j])
                    == Some(args@[j].1@),
        decreases params@.len() - k,
    {
        proof {
            assert(names.skip(k as int)[0] == params@[k as int]@);
            assert(names.skip(k as int).drop_first() =~= names.skip(k + 1));
        }
        match meaning(&described, params[k].as_str()) {
            Some(m) => args.push((params[k].clone(), m)),
            None => {
                return Err(ToolMacroError::UndocumentedArg(params[k].clone()));
            },
        }
        k += 1;
    }
    let tool_name = match rename {
        Some(name) => name,
        None => String::from_str(function),
    };
    match description {
        None => Err(ToolMacroError::DescriptionForFnNotFound(tool_name)),
        Some(description) => {
            let struct_name = holder(tool_name.as_str());
            proof {
                assert(pairs_view(args@) =~= Seq::new(
                    names.len(),
                    |i: int| (names[i], spec_meaning(said.1, names[i])->0),
                ));
            }
            Ok(ToolPlan { tool_name, description, struct_name, args })
        },
    }
}

} // verus!
