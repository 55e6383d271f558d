//! The rich representation: meaning groups written as a JSON document.
//!
//! The same schema describes what the dictionary sends and what the word
//! table keeps: an array of objects, each with a `partOfSpeech` label and a
//! `definitions` array, whose objects hold a `definition` text and, where
//! there is one, an `example`.  This module maps documents to meaning groups
//! and back, and proves that the way back undoes the way there.

use vstd::prelude::*;
use vstd::string::StringExecFns;
use crate::json::{
    JsonMap, JsonTree, array_value, as_array, as_str, error_text, is_null, json_tree, json_trees,
    map_insert, member, new_map, null_value, object_value, parse_text, parsed_json, print_value,
    printed_json, text_value,
};
use crate::models::{ApiDefinition, ApiMeaning, Definition, Meaning};

verus! {

/// The key of a meaning group's label.
pub open spec fn key_part_of_speech() -> Seq<char> {
    "partOfSpeech"@
}

/// The key of a meaning group's definitions.
pub open spec fn key_definitions() -> Seq<char> {
    "definitions"@
}

/// The key of a definition's text.
pub open spec fn key_definition() -> Seq<char> {
    "definition"@
}

/// The key of a definition's example.
pub open spec fn key_example() -> Seq<char> {
    "example"@
}

/// An object of two members.
pub open spec fn object_of_two(
    k1: Seq<char>,
    v1: JsonTree,
    k2: Seq<char>,
    v2: JsonTree,
) -> JsonTree {
    JsonTree::Object(Map::empty().insert(k1, v1).insert(k2, v2))
}

/// The document of an example: its text, or `null` where there is none.
pub open spec fn example_tree(example: Option<Seq<char>>) -> JsonTree {
    match example {
        Some(text) => JsonTree::Text(text),
        None => JsonTree::Null,
    }
}

/// The document of one definition.
pub open spec fn definition_tree(definition: Definition) -> JsonTree {
    object_of_two(
        key_definition(),
        JsonTree::Text(definition.text),
        key_example(),
        example_tree(definition.example),
    )
}

/// The documents of a sequence of definitions, in order.
pub open spec fn definition_trees(definitions: Seq<Definition>) -> Seq<JsonTree> {
    Seq::new(definitions.len(), |i: int| definition_tree(definitions[i]))
}

/// The document of one meaning group.
pub open spec fn meaning_tree(meaning: Meaning) -> JsonTree {
    object_of_two(
        key_part_of_speech(),
        JsonTree::Text(meaning.part_of_speech),
        key_definitions(),
        JsonTree::Array(definition_trees(meaning.definitions)),
    )
}

/// The documents of a sequence of meaning groups, in order.
pub open spec fn meaning_trees(meanings: Seq<Meaning>) -> Seq<JsonTree> {
    Seq::new(meanings.len(), |i: int| meaning_tree(meanings[i]))
}

/// The rich representation of a word's meaning groups, as a document.
pub open spec fn meanings_tree(meanings: Seq<Meaning>) -> JsonTree {
    JsonTree::Array(meaning_trees(meanings))
}

/// The example that a definition object carries.  A missing member and
/// `null` both mean that there is none; a member that is neither `null` nor a
/// string makes the object unreadable (`None`).
pub open spec fn tree_example(tree: JsonTree) -> Option<Option<Seq<char>>> {
    match tree.member(key_example()) {
        None => Some(None),
        Some(JsonTree::Null) => Some(None),
        Some(JsonTree::Text(text)) => Some(Some(text)),
        Some(_) => None,
    }
}

/// The definition that a document holds: an object whose `definition` is a
/// string and whose `example` is readable.
pub open spec fn tree_definition(tree: JsonTree) -> Option<Definition> {
    match (tree.member(key_definition()), tree_example(tree)) {
        (Some(JsonTree::Text(text)), Some(example)) => Some(Definition { text, example }),
        _ => None,
    }
}

/// The definitions that a document holds: an array of readable definitions.
pub open spec fn tree_definitions(tree: JsonTree) -> Option<Seq<Definition>> {
    match tree {
        JsonTree::Array(items) => if forall|i: int|
            0 <= i < items.len() ==> (#[trigger] tree_definition(items[i])) is Some {
            Some(Seq::new(items.len(), |i: int| tree_definition(items[i]).unwrap()))
        } else {
            None
        },
        _ => None,
    }
}

/// The meaning group that a document holds: an object whose `partOfSpeech`
/// is a string and whose `definitions` are readable.
pub open spec fn tree_meaning(tree: JsonTree) -> Option<Meaning> {
    match (tree.member(key_part_of_speech()), tree.member(key_definitions())) {
        (Some(JsonTree::Text(part_of_speech)), Some(list)) => match tree_definitions(list) {
            Some(definitions) => Some(Meaning { part_of_speech, definitions }),
            None => None,
        },
        _ => None,
    }
}

/// The meaning groups that a document holds: an array of readable groups.
pub open spec fn tree_meanings(tree: JsonTree) -> Option<Seq<Meaning>> {
    match tree {
        JsonTree::Array(items) => if forall|i: int|
            0 <= i < items.len() ==> (#[trigger] tree_meaning(items[i])) is Some {
            Some(Seq::new(items.len(), |i: int| tree_meaning(items[i]).unwrap()))
        } else {
            None
        },
        _ => None,
    }
}

/// Reads one definition out of a document.
pub fn decode_definition(value: &serde_json::Value) -> (r: Option<ApiDefinition>)
    ensures
        r.deep_view() == tree_definition(json_tree(*value)),
{
    let text = match member(value, "definition") {
        Some(found) => match as_str(found) {
            Some(text) => text,
            None => {
                return None;
            },
        },
        None => {
            return None;
        },
    };
    let example = match member(value, "example") {
        None => None,
        Some(found) => if is_null(found) {
            None
        } else {
            match as_str(found) {
                Some(text) => Some(String::from_str(text)),
                None => {
                    return None;
                },
            }
        },
    };
    Some(ApiDefinition { definition: String::from_str(text), example })
}

/// Reads the definitions of a meaning group out of a document.
pub fn decode_definitions(value: &serde_json::Value) -> (r: Option<Vec<ApiDefinition>>)
    ensures
        r.deep_view() == tree_definitions(json_tree(*value)),
{
    let items = match as_array(value) {
        Some(items) => items,
        None => {
            return None;
        },
    };
    let ghost trees = json_trees(items@);
    let mut definitions: Vec<ApiDefinition> = Vec::new();
    let mut i: usize = 0;
    while i < items.len()
        invariant
            i <= items.len(),
            trees == json_trees(items@),
            json_tree(*value) == JsonTree::Array(trees),
            definitions.len() == i,
            forall|j: int|
                0 <= j < i ==> #[trigger] tree_definition(trees[j]) == Some(definitions[j]@),
        decreases items.len() - i,
    {
        match decode_definition(&items[i]) {
            Some(definition) => {
                definitions.push(definition);
            },
            None => {
                assert(tree_definition(trees[i as int]) is None);
                return None;
            },
        }
        i += 1;
    }
    Some(definitions)
}

/// Reads one meaning group out of a document.
pub fn decode_meaning(value: &serde_json::Value) -> (r: Option<ApiMeaning>)
    ensures
        r.deep_view() == tree_meaning(json_tree(*value)),
{
    let label = match member(value, "partOfSpeech") {
        Some(found) => match as_str(found) {
            Some(text) => text,
            None => {
                return None;
            },
        },
        None => {
            return None;
        },
    };
    let definitions = match member(value, "definitions") {
        Some(found) => match decode_definitions(found) {
            Some(definitions) => definitions,
            None => {
                return None;
            },
        },
        None => {
            return None;
        },
    };
    Some(ApiMeaning { part_of_speech: String::from_str(label), definitions })
}

/// Reads the meaning groups of a word out of a document: the inverse of
/// [`encode_meanings`].  `None` where the document is not an array of
/// meaning groups.
pub fn decode_meanings(value: &serde_json::Value) -> (r: Option<Vec<ApiMeaning>>)
    ensures
        r.deep_view() == tree_meanings(json_tree(*value)),
{
    let items = match as_array(value) {
        Some(items) => items,
        None => {
            return None;
        },
    };
    let ghost trees = json_trees(items@);
    let mut meanings: Vec<ApiMeaning> = Vec::new();
    let mut i: usize = 0;
    while i < items.len()
        invariant
            i <= items.len(),
            trees == json_trees(items@),
            json_tree(*value) == JsonTree::Array(trees),
            meanings.len() == i,
            forall|j: int| 0 <= j < i ==> #[trigger] tree_meaning(trees[j]) == Some(meanings[j]@),
        decreases items.len() - i,
    {
        match decode_meaning(&items[i]) {
            Some(meaning) => {
                meanings.push(meaning);
            },
            None => {
                assert(tree_meaning(trees[i as int]) is None);
                return None;
            },
        }
        i += 1;
    }
    Some(meanings)
}

/// An object with the two given members.
fn object_with(k1: &str, v1: serde_json::Value, k2: &str, v2: serde_json::Value) -> (r:
    serde_json::Value)
    ensures
        json_tree(r) == object_of_two(k1@, json_tree(v1), k2@, json_tree(v2)),
{
    let mut members: JsonMap = new_map();
    map_insert(&mut members, String::from_str(k1), v1);
    map_insert(&mut members, String::from_str(k2), v2);
    object_value(members)
}

/// Writes one definition as a document.
pub fn encode_definition(definition: &ApiDefinition) -> (r: serde_json::Value)
    ensures
        json_tree(r) == definition_tree(definition@),
{
    let example = match &definition.example {
        Some(text) => text_value(text.as_str()),
        None => null_value(),
    };
    object_with("definition", text_value(definition.definition.as_str()), "example", example)
}

/// Writes one meaning group as a document.
pub fn encode_meaning(meaning: &ApiMeaning) -> (r: serde_json::Value)
    ensures
        json_tree(r) == meaning_tree(meaning@),
{
    let mut items: Vec<serde_json::Value> = Vec::new();
    let mut i: usize = 0;
    while i < meaning.definitions.len()
        invariant
            i <= meaning.definitions.len(),
            items.len() == i,
            forall|j: int|
                0 <= j < i ==> #[trigger] json_tree(items[j]) == definition_tree(
                    meaning.definitions[j]@,
                ),
        decreases meaning.definitions.len() - i,
    {
        items.push(encode_definition(&meaning.definitions[i]));
        i += 1;
    }
    assert(json_trees(items@) =~= definition_trees(meaning@.definitions));
    object_with(
        "partOfSpeech",
        text_value(meaning.part_of_speech.as_str()),
        "definitions",
        array_value(items),
    )
}

/// Writes the meaning groups of a word as one document, the rich
/// representation.
pub fn encode_meanings(meanings: &Vec<ApiMeaning>) -> (r: serde_json::Value)
    ensures
        json_tree(r) == meanings_tree(meanings.deep_view()),
{
    let mut items: Vec<serde_json::Value> = Vec::new();
    let mut i: usize = 0;
    while i < meanings.len()
        invariant
            i <= meanings.len(),
            items.len() == i,
            forall|j: int|
                0 <= j < i ==> #[trigger] json_tree(items[j]) == meaning_tree(meanings[j]@),
        decreases meanings.len() - i,
    {
        items.push(encode_meaning(&meanings[i]));
        i += 1;
    }
    assert(json_trees(items@) =~= meaning_trees(meanings.deep_view()));
    array_value(items)
}

/// The text of the rich representation of a word's meaning groups, or the
/// message of the writer where it fails.
pub open spec fn rich_text_of(meanings: Seq<Meaning>) -> Result<Seq<char>, Seq<char>> {
    printed_json(meanings_tree(meanings))
}

/// The view of a text, or of the message that stands in its place.
pub open spec fn text_result(result: Result<String, String>) -> Result<Seq<char>, Seq<char>> {
    match result {
        Ok(text) => Ok(text@),
        Err(message) => Err(message@),
    }
}

/// Writes the meaning groups of a word as the text that the word table
/// keeps: the JSON text of their document.  Where the writer fails, the
/// error is its message.
pub fn rich_text(meanings: &Vec<ApiMeaning>) -> (r: Result<String, String>)
    ensures
        text_result(r) == rich_text_of(meanings.deep_view()),
{
    let document = encode_meanings(meanings);
    match print_value(&document) {
        Ok(text) => Ok(text),
        Err(error) => Err(error_text(&error)),
    }
}

/// A stored definition as a mathematical value.
pub ghost enum StoredDefinitionModel {
    Rich(Seq<Meaning>),
    Flat(Seq<char>),
}

/// A stored definition, read: either it is the rich representation of
/// meaning groups, or it is plain text.
#[derive(Debug, PartialEq, Eq)]
pub enum StoredDefinition {
    Rich(Vec<ApiMeaning>),
    Flat(String),
}

impl View for StoredDefinition {
    type V = StoredDefinitionModel;

    open spec fn view(&self) -> StoredDefinitionModel {
        match self {
            StoredDefinition::Rich(meanings) => StoredDefinitionModel::Rich(meanings.deep_view()),
            StoredDefinition::Flat(text) => StoredDefinitionModel::Flat(text@),
        }
    }
}

/// How a stored text reads, given what the JSON reader made of it: rich
/// where the reader gave a document that holds meaning groups, else plain.
pub open spec fn reading_of_parsed(
    text: Seq<char>,
    parsed: Result<JsonTree, Seq<char>>,
) -> StoredDefinitionModel {
    match parsed {
        Ok(tree) => match tree_meanings(tree) {
            Some(meanings) => StoredDefinitionModel::Rich(meanings),
            None => StoredDefinitionModel::Flat(text),
        },
        Err(_) => StoredDefinitionModel::Flat(text),
    }
}

/// How a stored text reads.
pub open spec fn reading_of(text: Seq<char>) -> StoredDefinitionModel {
    reading_of_parsed(text, parsed_json(text))
}

/// Reads a stored definition whose text is a JSON document: rich where the
/// document holds meaning groups, else the text as it is.
pub fn definition_of_document(text: &str, document: &serde_json::Value) -> (r: StoredDefinition)
    ensures
        r@ == reading_of_parsed(text@, Ok(json_tree(*document))),
{
    match decode_meanings(document) {
        Some(meanings) => StoredDefinition::Rich(meanings),
        None => StoredDefinition::Flat(String::from_str(text)),
    }
}

/// Reads a stored definition.  The table keeps both representations in one
/// column and does not say which is which: a text that is the JSON document
/// of meaning groups is read as those groups, any other text as itself.
pub fn read_definition(text: &str) -> (r: StoredDefinition)
    ensures
        r@ == reading_of(text@),
{
    match parse_text(text) {
        Ok(document) => definition_of_document(text, &document),
        Err(_) => StoredDefinition::Flat(String::from_str(text)),
    }
}

/// The two keys of a definition differ, and so do the two of a meaning group.
pub proof fn lemma_keys_differ()
    ensures
        key_definition() != key_example(),
        key_part_of_speech() != key_definitions(),
{
    reveal_strlit("definition");
    reveal_strlit("example");
    reveal_strlit("partOfSpeech");
    reveal_strlit("definitions");
    assert(key_definition().len() != key_example().len());
    assert(key_part_of_speech().len() != key_definitions().len());
}

/// Reading the document of a definition gives the definition back.
pub proof fn lemma_definition_round_trip(definition: Definition)
    ensures
        tree_definition(definition_tree(definition)) == Some(definition),
{
    lemma_keys_differ();
}

/// Reading the documents of a sequence of definitions gives the sequence back.
pub proof fn lemma_definitions_round_trip(definitions: Seq<Definition>)
    ensures
        tree_definitions(JsonTree::Array(definition_trees(definitions))) == Some(definitions),
{
    let items = definition_trees(definitions);
    assert forall|i: int| 0 <= i < items.len() implies #[trigger] tree_definition(items[i])
        == Some(definitions[i]) by {
        lemma_definition_round_trip(definitions[i]);
    }
}

/// Reading the document of a meaning group gives the group back.
pub proof fn lemma_meaning_round_trip(meaning: Meaning)
    ensures
        tree_meaning(meaning_tree(meaning)) == Some(meaning),
{
    lemma_keys_differ();
    lemma_definitions_round_trip(meaning.definitions);
}

/// The rich representation loses nothing: reading the document written for
/// a sequence of meaning groups gives back the same groups, with the same
/// labels, definitions and examples, in the same order.
pub proof fn lemma_meanings_round_trip(meanings: Seq<Meaning>)
    ensures
        tree_meanings(meanings_tree(meanings)) == Some(meanings),
{
    let items = meaning_trees(meanings);
    assert forall|i: int| 0 <= i < items.len() implies #[trigger] tree_meaning(items[i]) == Some(
        meanings[i],
    ) by {
        lemma_meaning_round_trip(meanings[i]);
    }
}

} // verus!
