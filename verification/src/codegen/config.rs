//! Configurations in declarations, and names in generated code.

use vstd::prelude::*;
use crate::json::{json_parsed, json_text, Json};
use crate::text::chars_of;

verus! {

/// The capital form of a text.
pub uninterp spec fn upper_text(text: Seq<char>) -> Seq<char>;

/// The capital form of a text, from `str::to_uppercase`. It depends on the
/// text alone.
#[verifier::external_body]
fn uppercase(text: &str) -> (r: String)
    ensures
        r@ == upper_text(text@),
{
    text.to_uppercase()
}

/// The note on a configuration that is no JSON: the parser's complaint
/// behind `Invalid JSON: `.
pub fn invalid_json(complaint: &str) -> (r: String)
    ensures
        r@ == "Invalid JSON: "@ + complaint@,
{
    let mut note = String::from_str("Invalid JSON: ");
    note.append(complaint);
    note
}

/// The configuration of a declaration in the form in which it is handed
/// on: the compact JSON text of the value that it stands for; or, for a
/// configuration that is no JSON, the note on it.
pub open spec fn spec_config_text(config: Seq<char>) -> Result<Seq<char>, Seq<char>> {
    match json_parsed(config) {
        Ok(value) => Ok(json_text(value)),
        Err(complaint) => Err("Invalid JSON: "@ + complaint),
    }
}

/// The model of a configuration that is handed on, or of the note.
pub open spec fn config_text_view(r: Result<String, String>) -> Result<Seq<char>, Seq<char>> {
    match r {
        Ok(text) => Ok(text@),
        Err(note) => Err(note@),
    }
}

/// The configuration of a declaration in the form in which it is handed
/// on.
pub fn config_text(config: &str) -> (r: Result<String, String>)
    ensures
        config_text_view(r) == spec_config_text(config@),
{
    match Json::from_text(config) {
        Ok(value) => Ok(value.render()),
        Err(complaint) => Err(invalid_json(complaint.as_str())),
    }
}

/// The name of an instance, from the capital form of the name of what it
/// is an instance of: that form between `__` and `_INSTANCE`.
pub fn instance_name_of(capitals: &str) -> (r: String)
    ensures
        r@ == "__"@ + capitals@ + "_INSTANCE"@,
{
    let mut name = String::from_str("__");
    name.append(capitals);
    name.append("_INSTANCE");
    name
}

/// The name of the instance of a declared loader: the capital form of the
/// loader's name between `__` and `_INSTANCE`.
pub fn instance_name(loader: &str) -> (r: String)
    ensures
        r@ == "__"@ + upper_text(loader@) + "_INSTANCE"@,
{
    instance_name_of(uppercase(loader).as_str())
}

/// A text without its backslashes.
pub open spec fn spec_without_backslashes(text: Seq<char>) -> Seq<char> {
    text.filter(|c: char| c != '\\')
}

/// The arguments of a tool call as the tool reads them: the text that the
/// model sent without its backslashes and without its first and its last
/// character, which are the quotes around it. A text that has no two
/// characters left has no arguments to read.
pub open spec fn spec_unwrap_arguments(args: Seq<char>) -> Option<Seq<char>> {
    let plain = spec_without_backslashes(args);
    if plain.len() >= 2 {
        Some(plain.subrange(1, plain.len() - 1))
    } else {
        None
    }
}

/// The arguments of a tool call as the tool reads them.
pub fn unwrap_arguments(args: &str) -> (r: Option<String>)
    ensures
        match r {
            Some(text) => spec_unwrap_arguments(args@) == Some(text@),
            None => spec_unwrap_arguments(args@) is None,
        },
{
    let chars = chars_of(args);
    let ghost keep = |c: char| c != '\\';
    let mut kept: Vec<char> = Vec::new();
    let mut plain = String::new();
    let mut i: usize = 0;
    proof {
        assert(chars@.take(0) =~= Seq::<char>::empty());
        crate::text::lemma_filter_empty(keep);
    }
    while i < chars.len()
        invariant
            i <= chars@.len(),
            chars@ == args@,
            keep == (|c: char| c != '\\'),
            kept@ == chars@.take(i as int).filter(keep),
            plain@ == kept@,
        decreases chars@.len() - i,
    {
        proof {
            assert(chars@.take(i + 1) =~= chars@.take(i as int).push(chars@[i as int]));
            crate::text::lemma_filter_push(chars@.take(i as int), keep, chars@[i as int]);
        }
        if chars[i] != '\\' {
            kept.push(chars[i]);
            plain.append(args.substring_char(i, i + 1));
            assert(args@.subrange(i as int, i + 1) =~= seq![chars@[i as int]]);
            assert(plain@ =~= kept@);
        }
        i += 1;
    }
    proof {
        assert(chars@.take(chars@.len() as int) =~= chars@);
    }
    let n = kept.len();
    if n >= 2 {
        Some(crate::text::slice(plain.as_str(), 1, n - 1))
    } else {
        None
    }
}

} // verus!
