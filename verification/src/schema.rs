//! JSON schemas as the model backends want them.
//!
//! A schema as a generator writes it carries keys that the backends refuse.
//! The functions here take those out and build, from the result, the
//! declarations of tools and of extraction targets.

use vstd::prelude::*;
use crate::json::{
    items_view, lemma_array_view, lemma_object_view, members_view, remove_member, set_member,
    spec_member, spec_with, spec_without, Json, JsonView,
};
use crate::text::chars_of;
use crate::tools::{args_view, ToolArg, ToolArgView};

verus! {

/// The members without `key`, if its value is a string or a number.
pub open spec fn spec_strip(members: Seq<(Seq<char>, JsonView)>, key: Seq<char>) -> Seq<
    (Seq<char>, JsonView),
> {
    match spec_member(members, key) {
        Some(v) => if v is Text || v is Number {
            spec_without(members, key)
        } else {
            members
        },
        None => members,
    }
}

/// The members of an object as the backends want them: without `$schema`,
/// `format`, `title` and `minimum` where these hold a string or a number;
/// with `oneOf` renamed to `anyOf`; and with `additionalProperties` set to
/// `false` where there are `properties`.
pub open spec fn spec_edit(members: Seq<(Seq<char>, JsonView)>) -> Seq<(Seq<char>, JsonView)> {
    let m1 = spec_strip(members, "$schema"@);
    let m2 = spec_strip(m1, "format"@);
    let m3 = spec_strip(m2, "title"@);
    let m4 = spec_strip(m3, "minimum"@);
    let m5 = match spec_member(m4, "oneOf"@) {
        Some(v) => spec_with(spec_without(m4, "oneOf"@), "anyOf"@, v),
        None => m4,
    };
    if spec_member(m5, "properties"@) is Some {
        spec_with(m5, "additionalProperties"@, JsonView::Bool(false))
    } else {
        m5
    }
}

/// A schema as the backends want it: every object in it, at any depth, has
/// its members edited as `spec_edit` says.
pub open spec fn spec_normalize(j: JsonView) -> JsonView
    decreases j, 1int,
{
    match spec_normalize_within(j) {
        JsonView::Object(members) => JsonView::Object(spec_edit(members)),
        other => other,
    }
}

/// A value with everything inside it rewritten as the backends want it;
/// its own members are left as they are.
pub open spec fn spec_normalize_within(j: JsonView) -> JsonView
    decreases j, 0int,
{
    match j {
        JsonView::Object(members) => JsonView::Object(
            Seq::new(
                members.len(),
                |i: int|
                    if 0 <= i < members.len() {
                        (members[i].0, spec_normalize(members[i].1))
                    } else {
                        (Seq::empty(), JsonView::Null)
                    },
            ),
        ),
        JsonView::Array(items) => JsonView::Array(
            Seq::new(
                items.len(),
                |i: int|
                    if 0 <= i < items.len() {
                        spec_normalize(items[i])
                    } else {
                        JsonView::Null
                    },
            ),
        ),
        other => other,
    }
}

/// Takes `key` out of the members, if its value is a string or a number.
fn strip(members: &mut Vec<(String, Json)>, key: &str)
    ensures
        members_view(final(members)@) == spec_strip(members_view(old(members)@), key@),
{
    let drop = match crate::json::position(members, key) {
        Some(i) => members[i].1.is_string() || members[i].1.is_number(),
        None => false,
    };
    proof {
        crate::json::lemma_position(members_view(members@), key@);
    }
    if drop {
        let _ = remove_member(members, key);
    }
}

/// Edits the members of one object as the backends want them.
pub fn edit_members(members: &mut Vec<(String, Json)>)
    ensures
        members_view(final(members)@) == spec_edit(members_view(old(members)@)),
{
    strip(members, "$schema");
    strip(members, "format");
    strip(members, "title");
    strip(members, "minimum");
    match remove_member(members, "oneOf") {
        Some(v) => set_member(members, "anyOf", v),
        None => {},
    }
    let has_properties = crate::json::position(members, "properties").is_some();
    if has_properties {
        set_member(members, "additionalProperties", Json::Bool(false));
    }
}

/// Rewrites a schema as the backends want it.
pub fn normalize(value: Json) -> (r: Json)
    ensures
        r@ == spec_normalize(value@),
    decreases value,
{
    match value {
        Json::Object(members) => {
            let ghost whole = members;
            let ghost orig = members@;
            let ghost target = Seq::new(
                orig.len(),
                |i: int| (orig[i].0@, spec_normalize(orig[i].1@)),
            );
            let mut rest = members;
            let mut stack: Vec<(String, Json)> = Vec::new();
            while rest.len() > 0
                invariant
                    value == Json::Object(whole),
                    orig == whole@,
                    rest@.len() <= orig.len(),
                    rest@ =~= orig.take(rest@.len() as int),
                    stack@.len() == orig.len() - rest@.len(),
                    forall|j: int|
                        0 <= j < stack@.len() ==> (#[trigger] stack@[j]).0@ == orig[orig.len() - 1
                            - j].0@ && stack@[j].1@ == spec_normalize(orig[orig.len() - 1 - j].1@),
                decreases rest@.len(),
            {
                let ghost n = rest@.len();
                let (k, v) = rest.pop().unwrap();
                proof {
                    assert(value->Object_0 == whole);
                    vstd::std_specs::vec::axiom_vec_index_decreases(whole, n - 1);
                    assert((k, v) == orig[n - 1]);
                }
                let nv = normalize(v);
                stack.push((k, nv));
            }
            let mut out: Vec<(String, Json)> = Vec::new();
            let ghost piled = stack@;
            while stack.len() > 0
                invariant
                    piled.len() == orig.len(),
                    stack@.len() <= piled.len(),
                    stack@ =~= piled.take(stack@.len() as int),
                    out@.len() == piled.len() - stack@.len(),
                    forall|j: int| 0 <= j < out@.len() ==> (#[trigger] out@[j]) == piled[piled.len() - 1 - j],
                decreases stack@.len(),
            {
                let top = stack.pop().unwrap();
                out.push(top);
            }
            let ghost mv = members_view(orig);
            proof {
                assert(members_view(out@) =~= target);
                lemma_object_view(whole);
                assert(value@ == JsonView::Object(mv));
                assert forall|i: int| 0 <= i < mv.len() implies decreases_to!(JsonView::Object(mv) => mv[i].1) by {
                    vstd::seq::axiom_seq_index_decreases(mv, i);
                    assert(JsonView::Object(mv)->Object_0 == mv);
                    assert(decreases_to!(mv[i] => mv[i].1));
                }
                assert(spec_normalize_within(value@)->Object_0 =~= target);
            }
            edit_members(&mut out);
            proof {
                lemma_object_view(out);
            }
            Json::Object(out)
        },
        Json::Array(items) => {
            let ghost whole = items;
            let ghost orig = items@;
            let mut rest = items;
            let mut stack: Vec<Json> = Vec::new();
            while rest.len() > 0
                invariant
                    value == Json::Array(whole),
                    orig == whole@,
                    rest@.len() <= orig.len(),
                    rest@ =~= orig.take(rest@.len() as int),
                    stack@.len() == orig.len() - rest@.len(),
                    forall|j: int|
                        0 <= j < stack@.len() ==> (#[trigger] stack@[j])@ == spec_normalize(
                            orig[orig.len() - 1 - j]@,
                        ),
                decreases rest@.len(),
            {
                let ghost n = rest@.len();
                let v = rest.pop().unwrap();
                proof {
                    assert(value->Array_0 == whole);
                    vstd::std_specs::vec::axiom_vec_index_decreases(whole, n - 1);
                    assert(v == orig[n - 1]);
                }
                let nv = normalize(v);
                stack.push(nv);
            }
            let mut out: Vec<Json> = Vec::new();
            let ghost piled = stack@;
            while stack.len() > 0
                invariant
                    piled.len() == orig.len(),
                    stack@.len() <= piled.len(),
                    stack@ =~= piled.take(stack@.len() as int),
                    out@.len() == piled.len() - stack@.len(),
                    forall|j: int| 0 <= j < out@.len() ==> (#[trigger] out@[j]) == piled[piled.len() - 1 - j],
                decreases stack@.len(),
            {
                let top = stack.pop().unwrap();
                out.push(top);
            }
            proof {
                lemma_array_view(whole);
                lemma_array_view(out);
                assert(spec_normalize_within(value@)->Array_0 =~= items_view(out@));
            }
            Json::Array(out)
        },
        other => other,
    }
}

/// Rewrites a schema in place as the backends want it.
pub fn process_json_value(value: &mut Json)
    ensures
        final(value)@ == spec_normalize(old(value)@),
{
    let mut taken = Json::Null;
    std::mem::swap(value, &mut taken);
    *value = normalize(taken);
}

/// The root of a generated schema without the keys that only describe the
/// generator's output: `$schema`, `format` and `title`, whatever they hold.
pub open spec fn spec_bare_root(members: Seq<(Seq<char>, JsonView)>) -> Seq<
    (Seq<char>, JsonView),
> {
    spec_without(spec_without(spec_without(members, "$schema"@), "format"@), "title"@)
}

/// The schema of a tool parameter, from the schema generated for its type
/// and the parameter's description: the root object loses `$schema`,
/// `format` and `title` and gets the description, and the whole is
/// rewritten as the backends want it. A root that is no object is only
/// rewritten.
pub open spec fn spec_arg_schema(generated: JsonView, description: Seq<char>) -> JsonView {
    spec_normalize(
        match generated {
            JsonView::Object(members) => JsonView::Object(
                spec_with(spec_bare_root(members), "description"@, JsonView::Text(description)),
            ),
            other => other,
        },
    )
}

impl ToolArg {
    /// A parameter called `name`, from the schema generated for its type
    /// and its description.
    #[must_use]
    pub fn new(name: &str, description: &str, generated: Json) -> (r: Self)
        ensures
            r@ == (ToolArgView {
                name: name@,
                description: description@,
                schema: spec_arg_schema(generated@, description@),
            }),
    {
        let schema = match generated {
            Json::Object(mut members) => {
                proof {
                    lemma_object_view(members);
                }
                let _ = remove_member(&mut members, "$schema");
                let _ = remove_member(&mut members, "format");
                let _ = remove_member(&mut members, "title");
                set_member(&mut members, "description", Json::Text(String::from_str(description)));
                proof {
                    lemma_object_view(members);
                }
                Json::Object(members)
            },
            other => other,
        };
        ToolArg {
            name: String::from_str(name),
            description: String::from_str(description),
            schema: normalize(schema),
        }
    }
}

/// The schema of a parameter as it stands in a tool's declaration: without
/// a `minimum` at its root.
pub open spec fn spec_declared_schema(schema: JsonView) -> JsonView {
    match schema {
        JsonView::Object(members) => JsonView::Object(spec_without(members, "minimum"@)),
        other => other,
    }
}

/// The `properties` of a tool's parameters: each parameter's schema under
/// its name, a later parameter replacing an earlier one of the same name.
pub open spec fn spec_properties(args: Seq<ToolArgView>) -> Seq<(Seq<char>, JsonView)>
    decreases args.len(),
{
    if args.len() == 0 {
        Seq::empty()
    } else {
        spec_with(
            spec_properties(args.drop_last()),
            args.last().name,
            spec_declared_schema(args.last().schema),
        )
    }
}

/// The names of the parameters, as JSON strings.
pub open spec fn spec_required(args: Seq<ToolArgView>) -> Seq<JsonView> {
    Seq::new(args.len(), |i: int| JsonView::Text(args[i].name))
}

/// The schema of a tool's parameters: an object that has every parameter
/// as a required property and admits no other.
pub open spec fn spec_parameters_schema(args: Seq<ToolArgView>) -> JsonView {
    JsonView::Object(
        seq![
            ("type"@, JsonView::Text("object"@)),
            ("properties"@, JsonView::Object(spec_properties(args))),
            ("required"@, JsonView::Array(spec_required(args))),
            ("additionalProperties"@, JsonView::Bool(false)),
        ],
    )
}

/// The schema of a tool's parameters.
#[must_use]
pub fn build_parameters_schema(args: &[ToolArg]) -> (r: Json)
    ensures
        r@ == spec_parameters_schema(args_view(args@)),
{
    let ghost all = args_view(args@);
    let mut properties: Vec<(String, Json)> = Vec::new();
    let mut required: Vec<Json> = Vec::new();
    let mut i: usize = 0;
    assert(all.take(0) =~= Seq::empty());
    assert(members_view(properties@) =~= Seq::empty());
    while i < args.len()
        invariant
            i <= args@.len(),
            all == args_view(args@),
            members_view(properties@) == spec_properties(all.take(i as int)),
            required@.len() == i,
            forall|j: int| 0 <= j < i ==> (#[trigger] required@[j])@ == JsonView::Text(all[j].name),
        decreases args@.len() - i,
    {
        let arg = &args[i];
        let schema = match arg.schema.clone() {
            Json::Object(mut members) => {
                proof {
                    lemma_object_view(members);
                }
                let _ = remove_member(&mut members, "minimum");
                proof {
                    lemma_object_view(members);
                }
                Json::Object(members)
            },
            other => other,
        };
        proof {
            assert(all.take(i + 1).drop_last() =~= all.take(i as int));
            assert(all.take(i + 1).last() == all[i as int]);
            assert(all[i as int] == args@[i as int]@);
        }
        set_member(&mut properties, arg.name.as_str(), schema);
        required.push(Json::Text(arg.name.clone()));
        i += 1;
    }
    assert(all.take(args@.len() as int) =~= all);
    proof {
        lemma_array_view(required);
        assert(items_view(required@) =~= spec_required(all));
        lemma_object_view(properties);
    }
    let mut members: Vec<(String, Json)> = Vec::new();
    members.push((String::from_str("type"), Json::Text(String::from_str("object"))));
    members.push((String::from_str("properties"), Json::Object(properties)));
    members.push((String::from_str("required"), Json::Array(required)));
    members.push((String::from_str("additionalProperties"), Json::Bool(false)));
    proof {
        lemma_object_view(members);
        assert(members_view(members@) =~= seq![
            ("type"@, JsonView::Text("object"@)),
            ("properties"@, JsonView::Object(spec_properties(all))),
            ("required"@, JsonView::Array(spec_required(all))),
            ("additionalProperties"@, JsonView::Bool(false)),
        ]);
    }
    Json::Object(members)
}

/// The declaration of a tool as it is sent to a backend: a function with
/// its name, its description and the schema of its parameters, to be held
/// to that schema strictly.
pub open spec fn spec_tool_declaration(
    name: Seq<char>,
    description: Seq<char>,
    args: Seq<ToolArgView>,
) -> JsonView {
    JsonView::Object(
        seq![
            ("type"@, JsonView::Text("function"@)),
            (
                "function"@,
                JsonView::Object(
                    seq![
                        ("name"@, JsonView::Text(name)),
                        ("strict"@, JsonView::Bool(true)),
                        ("description"@, JsonView::Text(description)),
                        ("parameters"@, spec_parameters_schema(args)),
                    ],
                ),
            ),
        ],
    )
}

/// The declaration of a tool as it is sent to a backend.
pub fn tool_declaration(name: &str, description: &str, args: &[ToolArg]) -> (r: Json)
    ensures
        r@ == spec_tool_declaration(name@, description@, args_view(args@)),
{
    let parameters = build_parameters_schema(args);
    let mut function: Vec<(String, Json)> = Vec::new();
    function.push((String::from_str("name"), Json::Text(String::from_str(name))));
    function.push((String::from_str("strict"), Json::Bool(true)));
    function.push((String::from_str("description"), Json::Text(String::from_str(description))));
    function.push((String::from_str("parameters"), parameters));
    proof {
        lemma_object_view(function);
        assert(members_view(function@) =~= seq![
            ("name"@, JsonView::Text(name@)),
            ("strict"@, JsonView::Bool(true)),
            ("description"@, JsonView::Text(description@)),
            ("parameters"@, spec_parameters_schema(args_view(args@))),
        ]);
    }
    let mut members: Vec<(String, Json)> = Vec::new();
    members.push((String::from_str("type"), Json::Text(String::from_str("function"))));
    members.push((String::from_str("function"), Json::Object(function)));
    proof {
        lemma_object_view(members);
        assert(members_view(members@) =~= seq![
            ("type"@, JsonView::Text("function"@)),
            ("function"@, Json::Object(function)@),
        ]);
    }
    Json::Object(members)
}

/// The index behind the last `::` of a path, or 0 where it has none.
pub open spec fn spec_last_segment_start(path: Seq<char>) -> int
    decreases path.len(),
{
    if path.len() < 2 {
        0
    } else if path[path.len() - 2] == ':' && path[path.len() - 1] == ':' {
        path.len() as int
    } else {
        spec_last_segment_start(path.drop_last())
    }
}

/// The last segment of a path: what stands behind its last `::`.
pub open spec fn spec_last_segment(path: Seq<char>) -> Seq<char> {
    path.subrange(spec_last_segment_start(path), path.len() as int)
}

/// The last segment of a path: what stands behind its last `::`.
pub fn last_segment(path: &str) -> (r: String)
    ensures
        r@ == spec_last_segment(path@),
{
    let chars = chars_of(path);
    let mut end: usize = chars.len();
    proof {
        assert(path@.take(end as int) =~= path@);
    }
    while end >= 2 && !(chars[end - 2] == ':' && chars[end - 1] == ':')
        invariant
            end <= chars@.len(),
            chars@ == path@,
            spec_last_segment_start(path@) == spec_last_segment_start(path@.take(end as int)),
        decreases end,
    {
        proof {
            assert(path@.take(end as int).drop_last() =~= path@.take(end - 1));
        }
        end -= 1;
    }
    let start: usize = if end >= 2 {
        end
    } else {
        0
    };
    String::from_str(path.substring_char(start, chars.len()))
}

/// What a backend is told to reply with for an extraction: JSON that is
/// held strictly to the schema, under the name of the type.
pub open spec fn spec_response_format(generated: JsonView, type_path: Seq<char>) -> JsonView {
    let schema = spec_normalize(spec_bare(generated));
    JsonView::Object(
        seq![
            ("type"@, JsonView::Text("json_schema"@)),
            (
                "json_schema"@,
                JsonView::Object(
                    seq![
                        ("name"@, JsonView::Text(spec_last_segment(type_path))),
                        ("strict"@, JsonView::Bool(true)),
                        ("schema"@, schema),
                    ],
                ),
            ),
        ],
    )
}

/// A generated schema without the keys at its root that only describe the
/// generator's output.
pub open spec fn spec_bare(generated: JsonView) -> JsonView {
    match generated {
        JsonView::Object(members) => JsonView::Object(spec_bare_root(members)),
        other => other,
    }
}

/// What a backend is told to reply with for an extraction, from the schema
/// generated for the target type and the type's path.
pub fn default_extractor_serializer(generated: Json, type_path: &str) -> (r: Json)
    ensures
        r@ == spec_response_format(generated@, type_path@),
{
    let bare = match generated {
        Json::Object(mut members) => {
            proof {
                lemma_object_view(members);
            }
            let _ = remove_member(&mut members, "$schema");
            let _ = remove_member(&mut members, "format");
            let _ = remove_member(&mut members, "title");
            proof {
                lemma_object_view(members);
            }
            Json::Object(members)
        },
        other => other,
    };
    assert(bare@ == spec_bare(generated@));
    let schema = normalize(bare);
    let mut inner: Vec<(String, Json)> = Vec::new();
    inner.push((String::from_str("name"), Json::Text(last_segment(type_path))));
    inner.push((String::from_str("strict"), Json::Bool(true)));
    inner.push((String::from_str("schema"), schema));
    proof {
        lemma_object_view(inner);
        assert(members_view(inner@) =~= seq![
            ("name"@, JsonView::Text(spec_last_segment(type_path@))),
            ("strict"@, JsonView::Bool(true)),
            ("schema"@, schema@),
        ]);
    }
    let mut members: Vec<(String, Json)> = Vec::new();
    members.push((String::from_str("type"), Json::Text(String::from_str("json_schema"))));
    members.push((String::from_str("json_schema"), Json::Object(inner)));
    proof {
        lemma_object_view(members);
        assert(members_view(members@) =~= seq![
            ("type"@, JsonView::Text("json_schema"@)),
            ("json_schema"@, Json::Object(inner)@),
        ]);
    }
    Json::Object(members)
}

} // verus!
