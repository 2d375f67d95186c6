//! The published description of the error payload, for the service's
//! OpenAPI document.
use vstd::prelude::*;
use utoipa::openapi::schema::{ObjectBuilder, SchemaType};
use crate::record::{BodyView, ErrorResponse};

verus! {

/// `utoipa::openapi::schema::ObjectBuilder`, an object schema under
/// construction. What it documents is known through [`schema_properties`]
/// and [`schema_required`].
#[verifier::external_type_specification]
#[verifier::external_body]
pub struct ExObjectBuilder(utoipa::openapi::schema::ObjectBuilder);

/// What a documented field of the payload holds.
#[derive(Clone, Copy, Debug, PartialEq, Eq, Structural)]
pub enum FieldKind {
    /// A string.
    Text,
    /// An array of strings.
    TextList,
}

/// The properties that an object schema under construction documents, each
/// by its name.
pub uninterp spec fn schema_properties(builder: ObjectBuilder) -> Map<Seq<char>, FieldKind>;

/// The names that an object schema under construction lists as required, in
/// the order in which they were added.
pub uninterp spec fn schema_required(builder: ObjectBuilder) -> Seq<Seq<char>>;

/// No documented property at all.
pub open spec fn no_properties() -> Map<Seq<char>, FieldKind> {
    Map::empty()
}

/// `ObjectBuilder::new` of utoipa: an object schema that documents no
/// property and requires none.
#[verifier::external_body]
fn empty_object() -> (r: ObjectBuilder)
    ensures
        schema_properties(r) == no_properties(),
        schema_required(r).len() == 0,
{
    ObjectBuilder::new()
}

/// `ObjectBuilder::property` of utoipa with a schema of type string: the
/// property `name` is documented as a string, in place of what was
/// documented under that name before; the required names stay.
#[verifier::external_body]
fn with_text(builder: ObjectBuilder, name: &str) -> (r: ObjectBuilder)
    ensures
        schema_properties(r) == schema_properties(builder).insert(name@, FieldKind::Text),
        schema_required(r) == schema_required(builder),
{
    builder.property(name, ObjectBuilder::new().schema_type(SchemaType::String))
}

/// `ObjectBuilder::property` of utoipa with an array schema whose items are
/// of type string: the property `name` is documented as an array of
/// strings, in place of what was documented under that name before; the
/// required names stay.
#[verifier::external_body]
fn with_text_list(builder: ObjectBuilder, name: &str) -> (r: ObjectBuilder)
    ensures
        schema_properties(r) == schema_properties(builder).insert(name@, FieldKind::TextList),
        schema_required(r) == schema_required(builder),
{
    builder.property(
        name,
        ObjectBuilder::new().schema_type(SchemaType::String).to_array_builder(),
    )
}

/// `ObjectBuilder::required` of utoipa: `name` is added behind the names
/// that are required already; the properties stay.
#[verifier::external_body]
fn with_required(builder: ObjectBuilder, name: &str) -> (r: ObjectBuilder)
    ensures
        schema_properties(r) == schema_properties(builder),
        schema_required(r) == schema_required(builder).push(name@),
{
    builder.required(name)
}

/// The name under which the payload is published, chosen on its own and
/// independent of the name of any type.
pub open spec fn published_name() -> Seq<char> {
    "ServerError"@
}

/// The fields of the payload that are published, with what each holds.
pub open spec fn published_properties() -> Map<Seq<char>, FieldKind> {
    no_properties().insert("code"@, FieldKind::Text).insert("title"@, FieldKind::Text).insert(
        "details"@,
        FieldKind::TextList,
    )
}

/// The fields of the payload that every payload has.
pub open spec fn published_required() -> Seq<Seq<char>> {
    seq!["code"@, "title"@]
}

/// The names of the fields that are present in a payload.
pub open spec fn body_fields(body: BodyView) -> Set<Seq<char>> {
    if body.details is Some {
        set!["code"@, "title"@, "details"@]
    } else {
        set!["code"@, "title"@]
    }
}

impl ErrorResponse {
    /// The published name of the payload and the schema that describes it:
    /// `code` and `title` are strings and required, `details` is an array of
    /// strings and optional, and no other field is documented.
    pub fn schema() -> (r: (&'static str, ObjectBuilder))
        ensures
            r.0@ == published_name(),
            schema_properties(r.1) == published_properties(),
            schema_required(r.1) == published_required(),
    {
        let object = empty_object();
        let object = with_text(object, "code");
        let object = with_required(object, "code");
        let object = with_text(object, "title");
        let object = with_required(object, "title");
        let object = with_text_list(object, "details");
        assert(schema_required(object) =~= published_required());
        ("ServerError", object)
    }
}

/// The published schema documents exactly the fields `code`, `title` and
/// `details`, and requires exactly `code` and `title`. Every payload holds
/// each required field, and holds no field that is not documented.
pub proof fn lemma_schema_covers_every_body(body: BodyView)
    ensures
        published_properties().dom() =~= set!["code"@, "title"@, "details"@],
        published_required().to_set() =~= set!["code"@, "title"@],
        published_required().to_set().subset_of(body_fields(body)),
        body_fields(body).subset_of(published_properties().dom()),
{
    let required = published_required();
    assert(required[0] == "code"@);
    assert(required[1] == "title"@);
    assert(required.to_set() =~= set!["code"@, "title"@]) by {
        assert(required.contains(required[0]));
        assert(required.contains(required[1]));
    }
}

} // verus!
