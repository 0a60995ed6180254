use vstd::prelude::*;

verus! {

/// A category as it was read from its file, not yet checked.
#[verifier::external_type_specification]
#[verifier::external_body]
pub struct ExSourceCategory(cooplan_definitions_lib::source_category::SourceCategory);

/// A category whose ids were all found present.
#[verifier::external_type_specification]
#[verifier::external_body]
pub struct ExValidatedSourceCategory(
    cooplan_definitions_lib::validated_source_category::ValidatedSourceCategory,
);

/// A versioned set of validated categories.
#[verifier::external_type_specification]
#[verifier::external_body]
pub struct ExDefinition(cooplan_definitions_lib::definition::Definition);

/// What checking a category gives: the checked category, or the message of
/// the failure. It depends on the category alone.
pub uninterp spec fn validation_of(
    category: cooplan_definitions_lib::source_category::SourceCategory,
) -> Result<cooplan_definitions_lib::validated_source_category::ValidatedSourceCategory, Seq<char>>;

/// The definition made of a version and categories, in their order.
pub uninterp spec fn definition_of(
    version: Seq<char>,
    categories: Seq<cooplan_definitions_lib::validated_source_category::ValidatedSourceCategory>,
) -> cooplan_definitions_lib::definition::Definition;

/// What turning a definition into JSON gives: the JSON, or the message of the
/// failure. It depends on the definition alone.
pub uninterp spec fn definition_json(
    definition: cooplan_definitions_lib::definition::Definition,
) -> Result<serde_json::Value, Seq<char>>;

/// The outcome of a check, its failure taken as text.
pub open spec fn checked(
    outcome: Result<cooplan_definitions_lib::validated_source_category::ValidatedSourceCategory, String>,
) -> Result<cooplan_definitions_lib::validated_source_category::ValidatedSourceCategory, Seq<char>> {
    match outcome {
        Ok(category) => Ok(category),
        Err(message) => Err(message@),
    }
}

/// The outcome of a conversion to JSON, its failure taken as text.
pub open spec fn json_text(outcome: Result<serde_json::Value, String>) -> Result<
    serde_json::Value,
    Seq<char>,
> {
    match outcome {
        Ok(value) => Ok(value),
        Err(message) => Err(message@),
    }
}

/// Checks a category read from a file.
///
/// Calls `ValidatedSourceCategory::try_from`, which fails with a message when
/// the category or one of its attributes has no id, and otherwise copies the
/// category with its attributes checked. Its outcome depends on the category
/// alone and is named `validation_of`.
#[verifier::external_body]
pub(crate) fn validate_source_category(
    category: cooplan_definitions_lib::source_category::SourceCategory,
) -> (outcome: Result<
    cooplan_definitions_lib::validated_source_category::ValidatedSourceCategory,
    String,
>)
    ensures
        checked(outcome) == validation_of(category),
{
    cooplan_definitions_lib::validated_source_category::ValidatedSourceCategory::try_from(category)
}

/// Builds a definition from its version and its categories.
///
/// Calls `Definition::new`, which stores both as they are; the definition
/// depends on them alone and is named `definition_of`.
#[verifier::external_body]
pub(crate) fn new_definition(
    version: String,
    categories: Vec<cooplan_definitions_lib::validated_source_category::ValidatedSourceCategory>,
) -> (definition: cooplan_definitions_lib::definition::Definition)
    ensures
        definition == definition_of(version@, categories@),
{
    cooplan_definitions_lib::definition::Definition::new(version, categories)
}

/// Turns a definition into JSON.
///
/// Calls `serde_json::to_value`. A definition holds texts, lists, options and
/// booleans and no map, so the outcome depends on the definition alone; it is
/// named `definition_json`. A failure comes back as its message.
#[verifier::external_body]
pub(crate) fn definition_to_json(
    definition: cooplan_definitions_lib::definition::Definition,
) -> (outcome: Result<serde_json::Value, String>)
    ensures
        json_text(outcome) == definition_json(definition),
{
    match serde_json::to_value(definition) {
        Ok(value) => Ok(value),
        Err(error) => Err(error.to_string()),
    }
}

} // verus!
