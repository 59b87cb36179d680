//! Configurations written as JSON objects.
//!
//! A configuration is an object whose members are known by name. A member
//! that is not known is refused; a member that may be missing reads the
//! same whether it is missing or `null`.

use vstd::prelude::*;
use crate::json::{
    json_parsed, lemma_object_view, members_view, position, spec_member, Json, JsonView,
    NumberView,
};
use crate::text::str_eq;

verus! {

/// What is wrong with a configuration.
#[derive(Debug, PartialEq, Eq)]
pub enum ConfigError {
    /// The text is no JSON.
    NotJson,
    /// The value is no object.
    NotAnObject,
    /// A member that the configuration does not know.
    UnknownField(String),
    /// A member that has to be there is missing.
    MissingField(String),
    /// A member holds a value of the wrong type.
    WrongType(String),
}

/// The model of a [`ConfigError`].
pub enum ConfigErrorView {
    NotJson,
    NotAnObject,
    UnknownField(Seq<char>),
    MissingField(Seq<char>),
    WrongType(Seq<char>),
}

impl View for ConfigError {
    type V = ConfigErrorView;

    open spec fn view(&self) -> ConfigErrorView {
        match self {
            ConfigError::NotJson => ConfigErrorView::NotJson,
            ConfigError::NotAnObject => ConfigErrorView::NotAnObject,
            ConfigError::UnknownField(k) => ConfigErrorView::UnknownField(k@),
            ConfigError::MissingField(k) => ConfigErrorView::MissingField(k@),
            ConfigError::WrongType(k) => ConfigErrorView::WrongType(k@),
        }
    }
}

/// The texts of a list of names.
pub open spec fn names_view(names: Seq<&'static str>) -> Seq<Seq<char>> {
    Seq::new(names.len(), |i: int| names[i]@)
}

/// The key of the first member whose key is not among `known`.
pub open spec fn spec_unknown(members: Seq<(Seq<char>, JsonView)>, known: Seq<Seq<char>>) -> Option<
    Seq<char>,
>
    decreases members.len(),
{
    if members.len() == 0 {
        None
    } else if !known.contains(members[0].0) {
        Some(members[0].0)
    } else {
        spec_unknown(members.drop_first(), known)
    }
}

/// The members of a configuration with the members `known`: those of an
/// object that has no other member.
pub open spec fn spec_fields(value: JsonView, known: Seq<Seq<char>>) -> Result<
    Seq<(Seq<char>, JsonView)>,
    ConfigErrorView,
> {
    match value {
        JsonView::Object(members) => match spec_unknown(members, known) {
            Some(key) => Err(ConfigErrorView::UnknownField(key)),
            None => Ok(members),
        },
        _ => Err(ConfigErrorView::NotAnObject),
    }
}

/// A text that may be missing: the member `key`, where it is there and
/// not `null`.
pub open spec fn spec_optional_text(members: Seq<(Seq<char>, JsonView)>, key: Seq<char>) -> Result<
    Option<Seq<char>>,
    ConfigErrorView,
> {
    match spec_member(members, key) {
        None => Ok(None),
        Some(JsonView::Null) => Ok(None),
        Some(JsonView::Text(text)) => Ok(Some(text)),
        Some(_) => Err(ConfigErrorView::WrongType(key)),
    }
}

/// A text that has to be there.
pub open spec fn spec_required_text(members: Seq<(Seq<char>, JsonView)>, key: Seq<char>) -> Result<
    Seq<char>,
    ConfigErrorView,
> {
    match spec_member(members, key) {
        None => Err(ConfigErrorView::MissingField(key)),
        Some(JsonView::Text(text)) => Ok(text),
        Some(_) => Err(ConfigErrorView::WrongType(key)),
    }
}

/// A non-negative integer that may be missing.
pub open spec fn spec_optional_u64(members: Seq<(Seq<char>, JsonView)>, key: Seq<char>) -> Result<
    Option<u64>,
    ConfigErrorView,
> {
    match spec_member(members, key) {
        None => Ok(None),
        Some(JsonView::Null) => Ok(None),
        Some(JsonView::Number(NumberView::PosInt(n))) => Ok(Some(n)),
        Some(_) => Err(ConfigErrorView::WrongType(key)),
    }
}

/// Whether `name` is among `names`.
fn known_name(names: &Vec<&'static str>, name: &str) -> (r: bool)
    ensures
        r == names_view(names@).contains(name@),
{
    let ghost all = names_view(names@);
    let mut i: usize = 0;
    while i < names.len()
        invariant
            i <= names@.len(),
            all == names_view(names@),
            forall|j: int| 0 <= j < i ==> all[j] != name@,
        decreases names@.len() - i,
    {
        if str_eq(names[i], name) {
            assert(all[i as int] == name@);
            return true;
        }
        i += 1;
    }
    false
}

/// The model of the members of a configuration, or of what is wrong.
pub open spec fn fields_view(r: Result<&Vec<(String, Json)>, ConfigError>) -> Result<
    Seq<(Seq<char>, JsonView)>,
    ConfigErrorView,
> {
    match r {
        Ok(members) => Ok(members_view(members@)),
        Err(e) => Err(e@),
    }
}

/// The members of a configuration with the members `known`.
pub fn fields<'a>(value: &'a Json, known: &Vec<&'static str>) -> (r: Result<
    &'a Vec<(String, Json)>,
    ConfigError,
>)
    ensures
        fields_view(r) == spec_fields(value@, names_view(known@)),
{
    match value {
        Json::Object(members) => {
            let ghost all = members_view(members@);
            let ghost names = names_view(known@);
            let mut i: usize = 0;
            proof {
                lemma_object_view(*members);
                assert(all.skip(0) =~= all);
            }
            while i < members.len()
                invariant
                    i <= members@.len(),
                    all == members_view(members@),
                    names == names_view(known@),
                    value@ == JsonView::Object(all),
                    spec_unknown(all.skip(i as int), names) == spec_unknown(all, names),
                decreases members@.len() - i,
            {
                proof {
                    assert(all.skip(i as int)[0] == all[i as int]);
                    assert(all.skip(i as int).drop_first() =~= all.skip(i + 1));
                }
                if !known_name(known, members[i].0.as_str()) {
                    return Err(ConfigError::UnknownField(members[i].0.clone()));
                }
                i += 1;
            }
            Ok(members)
        },
        _ => Err(ConfigError::NotAnObject),
    }
}

/// The model of a text that may be missing, or of what is wrong.
pub open spec fn optional_text_view(r: Result<Option<String>, ConfigError>) -> Result<
    Option<Seq<char>>,
    ConfigErrorView,
> {
    match r {
        Ok(Some(text)) => Ok(Some(text@)),
        Ok(None) => Ok(None),
        Err(e) => Err(e@),
    }
}

/// A text that may be missing.
pub fn optional_text(members: &Vec<(String, Json)>, key: &str) -> (r: Result<
    Option<String>,
    ConfigError,
>)
    ensures
        optional_text_view(r) == spec_optional_text(members_view(members@), key@),
{
    match position(members, key) {
        None => Ok(None),
        Some(i) => match &members[i].1 {
            Json::Null => Ok(None),
            Json::Text(text) => Ok(Some(text.clone())),
            _ => Err(ConfigError::WrongType(String::from_str(key))),
        },
    }
}

/// The model of a text, or of what is wrong.
pub open spec fn required_text_view(r: Result<String, ConfigError>) -> Result<
    Seq<char>,
    ConfigErrorView,
> {
    match r {
        Ok(text) => Ok(text@),
        Err(e) => Err(e@),
    }
}

/// A text that has to be there.
pub fn required_text(members: &Vec<(String, Json)>, key: &str) -> (r: Result<String, ConfigError>)
    ensures
        required_text_view(r) == spec_required_text(members_view(members@), key@),
{
    match position(members, key) {
        None => Err(ConfigError::MissingField(String::from_str(key))),
        Some(i) => match &members[i].1 {
            Json::Text(text) => Ok(text.clone()),
            _ => Err(ConfigError::WrongType(String::from_str(key))),
        },
    }
}

/// The model of a number that may be missing, or of what is wrong.
pub open spec fn optional_u64_view(r: Result<Option<u64>, ConfigError>) -> Result<
    Option<u64>,
    ConfigErrorView,
> {
    match r {
        Ok(n) => Ok(n),
        Err(e) => Err(e@),
    }
}

/// A non-negative integer that may be missing.
pub fn optional_u64(members: &Vec<(String, Json)>, key: &str) -> (r: Result<
    Option<u64>,
    ConfigError,
>)
    ensures
        optional_u64_view(r) == spec_optional_u64(members_view(members@), key@),
{
    match position(members, key) {
        None => Ok(None),
        Some(i) => match &members[i].1 {
            Json::Null => Ok(None),
            Json::Number(crate::json::Number::PosInt(n)) => Ok(Some(*n)),
            _ => Err(ConfigError::WrongType(String::from_str(key))),
        },
    }
}

/// What a configuration of a backend says, with the key under the member
/// `key_name`: the three settings, each of which may be missing.
pub open spec fn spec_backend_settings(value: JsonView, key_name: Seq<char>) -> Result<
    (Option<Seq<char>>, Option<Seq<char>>, Option<Seq<char>>),
    ConfigErrorView,
> {
    match spec_fields(value, seq![key_name, "api_url"@, "model"@]) {
        Err(e) => Err(e),
        Ok(members) => match spec_optional_text(members, key_name) {
            Err(e) => Err(e),
            Ok(key) => match spec_optional_text(members, "api_url"@) {
                Err(e) => Err(e),
                Ok(url) => match spec_optional_text(members, "model"@) {
                    Err(e) => Err(e),
                    Ok(model) => Ok((key, url, model)),
                },
            },
        },
    }
}

/// What a configuration of a backend says, as a text: that of the value
/// that the text stands for.
pub open spec fn spec_backend_config(text: Seq<char>, key_name: Seq<char>) -> Result<
    (Option<Seq<char>>, Option<Seq<char>>, Option<Seq<char>>),
    ConfigErrorView,
> {
    match json_parsed(text) {
        Err(_) => Err(ConfigErrorView::NotJson),
        Ok(value) => spec_backend_settings(value, key_name),
    }
}

/// The model of the settings of a backend, or of what is wrong.
pub open spec fn settings_view(
    r: Result<(Option<String>, Option<String>, Option<String>), ConfigError>,
) -> Result<(Option<Seq<char>>, Option<Seq<char>>, Option<Seq<char>>), ConfigErrorView> {
    match r {
        Ok((key, url, model)) => Ok(
            (
                crate::embeddings::text_view(key),
                crate::embeddings::text_view(url),
                crate::embeddings::text_view(model),
            ),
        ),
        Err(e) => Err(e@),
    }
}

/// What a configuration of a backend says.
pub fn backend_settings(value: &Json, key_name: &'static str) -> (r: Result<
    (Option<String>, Option<String>, Option<String>),
    ConfigError,
>)
    ensures
        settings_view(r) == spec_backend_settings(value@, key_name@),
{
    let mut known: Vec<&'static str> = Vec::new();
    known.push(key_name);
    known.push("api_url");
    known.push("model");
    proof {
        assert(names_view(known@) =~= seq![key_name@, "api_url"@, "model"@]);
    }
    let members = match fields(value, &known) {
        Ok(members) => members,
        Err(e) => {
            return Err(e);
        },
    };
    let key = match optional_text(members, key_name) {
        Ok(v) => v,
        Err(e) => {
            return Err(e);
        },
    };
    let url = match optional_text(members, "api_url") {
        Ok(v) => v,
        Err(e) => {
            return Err(e);
        },
    };
    let model = match optional_text(members, "model") {
        Ok(v) => v,
        Err(e) => {
            return Err(e);
        },
    };
    Ok((key, url, model))
}

/// What a configuration of a backend says, as a text.
pub fn backend_config(text: &str, key_name: &'static str) -> (r: Result<
    (Option<String>, Option<String>, Option<String>),
    ConfigError,
>)
    ensures
        settings_view(r) == spec_backend_config(text@, key_name@),
{
    match Json::parse(text) {
        None => Err(ConfigError::NotJson),
        Some(value) => backend_settings(&value, key_name),
    }
}

} // verus!
