//! What the exported records say of the service that wrote them.

use crate::configs::AppConfigs;
use opentelemetry::KeyValue;
use opentelemetry_sdk::resource::ResourceBuilder;
use opentelemetry_sdk::Resource;
use vstd::prelude::*;

verus! {

/// `opentelemetry_sdk::Resource`, the attributes that describe the service.
#[verifier::external_type_specification]
#[verifier::external_body]
pub struct ExResource(Resource);

/// `opentelemetry_sdk::resource::ResourceBuilder`, a resource in the making.
#[verifier::external_type_specification]
#[verifier::external_body]
pub struct ExResourceBuilder(ResourceBuilder);

/// The attributes of a resource: each key that `Resource::iter` yields, with
/// its value as text (`Value::as_str`).
pub uninterp spec fn resource_attributes(resource: Resource) -> Map<Seq<char>, Seq<char>>;

/// The attributes of the resource that a builder holds.
pub uninterp spec fn builder_attributes(builder: ResourceBuilder) -> Map<Seq<char>, Seq<char>>;

/// `Resource::builder`: a builder that starts from what the SDK detects of
/// the process and its surroundings. Nothing is claimed of what that is.
pub assume_specification[ Resource::builder ]() -> (r: ResourceBuilder)
;

/// `ResourceBuilder::build`: the resource that the builder holds.
pub assume_specification[ ResourceBuilder::build ](builder: ResourceBuilder) -> (r: Resource)
    ensures
        resource_attributes(r) == builder_attributes(builder),
;

/// `ResourceBuilder::with_service_name`: the attribute `service.name` is
/// set to `name`, over a value that it had, and the others are kept.
#[verifier::external_body]
pub(crate) fn with_service_name(builder: ResourceBuilder, name: &str) -> (r: ResourceBuilder)
    ensures
        builder_attributes(r) == builder_attributes(builder).insert("service.name"@, name@),
{
    builder.with_service_name(name.to_owned())
}

/// `ResourceBuilder::with_attribute` of `KeyValue::new`: the attribute `key`
/// is set to `value`, over a value that it had, and the others are kept.
#[verifier::external_body]
pub(crate) fn with_attribute(builder: ResourceBuilder, key: &str, value: &str) -> (r:
    ResourceBuilder)
    ensures
        builder_attributes(r) == builder_attributes(builder).insert(key@, value@),
{
    builder.with_attribute(KeyValue::new(key.to_owned(), value.to_owned()))
}

/// Whether the attributes give `key` the value `value`.
pub open spec fn says(
    attributes: Map<Seq<char>, Seq<char>>,
    key: Seq<char>,
    value: Seq<char>,
) -> bool {
    attributes.contains_key(key) && attributes[key] == value
}

/// Whether the attributes name the service of `cfg`, its environment and the
/// language it is written in.
pub open spec fn describes_service(attributes: Map<Seq<char>, Seq<char>>, cfg: AppConfigs) -> bool {
    &&& says(attributes, "service.name"@, cfg.name@)
    &&& says(attributes, "environment"@, cfg.env.label())
    &&& says(attributes, "library.language"@, "rust"@)
}

/// The keys of the attributes that the installers set differ in length, so
/// setting one leaves the others as they were.
pub proof fn lemma_attribute_keys()
    ensures
        "service.name"@.len() == 12,
        "service.namespace"@.len() == 17,
        "environment"@.len() == 11,
        "library.language"@.len() == 16,
{
    reveal_strlit("service.name");
    reveal_strlit("service.namespace");
    reveal_strlit("environment");
    reveal_strlit("library.language");
}

} // verus!
