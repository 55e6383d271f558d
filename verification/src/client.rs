//! The dictionary client: which address to ask, and what a reply means.
//!
//! The request itself is made by the caller.  The client gives the address,
//! takes what came back (a status and a body, or the failure of the
//! transport) and reduces it to one of three outcomes.

use vstd::prelude::*;
use vstd::string::StringExecFns;
use crate::json::{
    JsonTree, as_array, as_str, error_text, json_tree, json_trees, member, parse_text, parsed_json,
};
use crate::models::{ApiMeaning, ApiResponseWordEntry, Meaning, ResponseEntry};
use crate::rich::{decode_meanings, tree_meanings};
use crate::text::{decimal_text, natural};

verus! {

/// What the transport handed back, as a mathematical value.
pub ghost enum ReplyModel {
    Response { status: int, body: Seq<char> },
    Failed { detail: Seq<char> },
}

/// What the transport handed back for one request: the status and the body of
/// a response, whatever the status, or the reason why there is no response.
#[derive(Debug, PartialEq, Eq)]
pub enum Reply {
    Response { status: u16, body: String },
    Failed { detail: String },
}

impl View for Reply {
    type V = ReplyModel;

    open spec fn view(&self) -> ReplyModel {
        match self {
            Reply::Response { status, body } => ReplyModel::Response {
                status: *status as int,
                body: body@,
            },
            Reply::Failed { detail } => ReplyModel::Failed { detail: detail@ },
        }
    }
}

/// The outcome of a lookup, as a mathematical value.
pub ghost enum OutcomeModel {
    Found(Seq<Meaning>),
    NotFound,
    TransportOrServiceError(Seq<char>),
}

/// The outcome of a lookup.
#[derive(Debug, PartialEq, Eq)]
pub enum Outcome {
    /// The meaning groups of the word, at least one.
    Found(Vec<ApiMeaning>),
    /// The dictionary does not have the word, or has no meaning for it.
    NotFound,
    /// The request failed, the service refused it, or the body could not be
    /// read; with the reason, for display.
    TransportOrServiceError(String),
}

impl View for Outcome {
    type V = OutcomeModel;

    open spec fn view(&self) -> OutcomeModel {
        match self {
            Outcome::Found(meanings) => OutcomeModel::Found(meanings.deep_view()),
            Outcome::NotFound => OutcomeModel::NotFound,
            Outcome::TransportOrServiceError(detail) => OutcomeModel::TransportOrServiceError(
                detail@,
            ),
        }
    }
}

/// The address of the dictionary's entries; the word follows it.
pub open spec fn base_url() -> Seq<char> {
    "https://api.dictionaryapi.dev/api/v2/entries/en/"@
}

/// The address to ask for a word.
pub open spec fn url_of(word: Seq<char>) -> Seq<char> {
    base_url() + word
}

/// The address to ask for a word: the word follows the base address as it is,
/// without any encoding.
pub fn lookup_url(word: &str) -> (r: String)
    ensures
        r@ == url_of(word@),
{
    let mut url = String::from_str("https://api.dictionaryapi.dev/api/v2/entries/en/");
    url.append(word);
    url
}

/// Whether a status reports success (200 to 299).
pub open spec fn is_success(status: int) -> bool {
    200 <= status <= 299
}

/// Whether the body of a response with this status is read at all: only a
/// success has a body that matters.  A caller may skip the body of any
/// other response.
pub fn wants_body(status: u16) -> (r: bool)
    ensures
        r == is_success(status as int),
{
    200 <= status && status <= 299
}

/// The reason given for a status that is neither success nor 404.
pub open spec fn status_error_text(status: int, word: Seq<char>) -> Seq<char> {
    "HTTP status "@ + decimal_text(status) + " for url ("@ + url_of(word) + ")"@
}

/// The reason given for a body that is JSON but not a list of entries.
pub open spec fn schema_error_text() -> Seq<char> {
    "the response is not a list of dictionary entries"@
}

/// The key of an entry's word.
pub open spec fn key_word() -> Seq<char> {
    "word"@
}

/// The key of an entry's meaning groups.
pub open spec fn key_meanings() -> Seq<char> {
    "meanings"@
}

/// The word that an entry object carries: its `word` member where that is a
/// string, else the empty word.  Nothing depends on it.
pub open spec fn tree_word(tree: JsonTree) -> Seq<char> {
    match tree.member(key_word()) {
        Some(JsonTree::Text(word)) => word,
        _ => Seq::empty(),
    }
}

/// The entry that a document holds: an object whose `meanings` are readable.
pub open spec fn tree_entry(tree: JsonTree) -> Option<ResponseEntry> {
    match tree.member(key_meanings()) {
        Some(list) => match tree_meanings(list) {
            Some(meanings) => Some(ResponseEntry { word: tree_word(tree), meanings }),
            None => None,
        },
        None => None,
    }
}

/// The entries that a document holds: an array of readable entries.
pub open spec fn tree_entries(tree: JsonTree) -> Option<Seq<ResponseEntry>> {
    match tree {
        JsonTree::Array(items) => if forall|i: int|
            0 <= i < items.len() ==> (#[trigger] tree_entry(items[i])) is Some {
            Some(Seq::new(items.len(), |i: int| tree_entry(items[i]).unwrap()))
        } else {
            None
        },
        _ => None,
    }
}

/// The outcome that a list of entries stands for: the meaning groups of the
/// first entry, if there is a first entry and it has any.
pub open spec fn outcome_of_entries(entries: Seq<ResponseEntry>) -> OutcomeModel {
    if entries.len() == 0 || entries[0].meanings.len() == 0 {
        OutcomeModel::NotFound
    } else {
        OutcomeModel::Found(entries[0].meanings)
    }
}

/// The outcome that the document of a successful response stands for.
pub open spec fn outcome_of_tree(tree: JsonTree) -> OutcomeModel {
    match tree_entries(tree) {
        Some(entries) => outcome_of_entries(entries),
        None => OutcomeModel::TransportOrServiceError(schema_error_text()),
    }
}

/// Reads one entry out of a document.
pub fn decode_entry(value: &serde_json::Value) -> (r: Option<ApiResponseWordEntry>)
    ensures
        r.deep_view() == tree_entry(json_tree(*value)),
{
    let word = match member(value, "word") {
        Some(found) => match as_str(found) {
            Some(text) => String::from_str(text),
            None => String::new(),
        },
        None => String::new(),
    };
    let meanings = match member(value, "meanings") {
        Some(found) => match decode_meanings(found) {
            Some(meanings) => meanings,
            None => {
                return None;
            },
        },
        None => {
            return None;
        },
    };
    Some(ApiResponseWordEntry { word, meanings })
}

/// Reads the entries of a response out of its document.
pub fn decode_entries(value: &serde_json::Value) -> (r: Option<Vec<ApiResponseWordEntry>>)
    ensures
        r.deep_view() == tree_entries(json_tree(*value)),
{
    let items = match as_array(value) {
        Some(items) => items,
        None => {
            return None;
        },
    };
    let ghost trees = json_trees(items@);
    let mut entries: Vec<ApiResponseWordEntry> = Vec::new();
    let mut i: usize = 0;
    while i < items.len()
        invariant
            i <= items.len(),
            trees == json_trees(items@),
            json_tree(*value) == JsonTree::Array(trees),
            entries.len() == i,
            forall|j: int| 0 <= j < i ==> #[trigger] tree_entry(trees[j]) == Some(entries[j]@),
        decreases items.len() - i,
    {
        match decode_entry(&items[i]) {
            Some(entry) => {
                entries.push(entry);
            },
            None => {
                assert(tree_entry(trees[i as int]) is None);
                return None;
            },
        }
        i += 1;
    }
    Some(entries)
}

/// Picks the outcome out of the entries of a response: the meaning groups of
/// the first entry; `NotFound` where there is no entry or the first has no
/// meaning group.  The other entries are dropped.
pub fn select_meanings(entries: Vec<ApiResponseWordEntry>) -> (r: Outcome)
    ensures
        r@ == outcome_of_entries(entries.deep_view()),
{
    let mut entries = entries;
    if entries.len() == 0 {
        return Outcome::NotFound;
    }
    let first = entries.remove(0);
    if first.meanings.len() == 0 {
        Outcome::NotFound
    } else {
        Outcome::Found(first.meanings)
    }
}

/// The outcome that the document of a successful response stands for.  A
/// document that is not a list of entries is an error of the service.
pub fn outcome_of_document(document: &serde_json::Value) -> (r: Outcome)
    ensures
        r@ == outcome_of_tree(json_tree(*document)),
{
    match decode_entries(document) {
        Some(entries) => select_meanings(entries),
        None => Outcome::TransportOrServiceError(
            String::from_str("the response is not a list of dictionary entries"),
        ),
    }
}

/// What a reply means for the word that was asked for.
pub open spec fn outcome_of_reply(word: Seq<char>, reply: ReplyModel) -> OutcomeModel {
    match reply {
        ReplyModel::Failed { detail } => OutcomeModel::TransportOrServiceError(detail),
        ReplyModel::Response { status, body } => if status == 404 {
            OutcomeModel::NotFound
        } else if !is_success(status) {
            OutcomeModel::TransportOrServiceError(status_error_text(status, word))
        } else {
            match parsed_json(body) {
                Ok(tree) => outcome_of_tree(tree),
                Err(detail) => OutcomeModel::TransportOrServiceError(detail),
            }
        },
    }
}

/// What a reply means for the word that was asked for.
///
/// No response: an error, with the transport's reason.  Status 404: the word
/// is not found, whatever the body says.  Any other status outside 200 to
/// 299: an error that names the status.  Otherwise the body is read as JSON:
/// a body that is not JSON is an error, with the reader's message, and a JSON
/// document gives the outcome of [`outcome_of_document`].
pub fn fetch_definition(word: &str, reply: Reply) -> (r: Outcome)
    ensures
        r@ == outcome_of_reply(word@, reply@),
        r@ matches OutcomeModel::Found(meanings) ==> meanings.len() >= 1,
{
    match reply {
        Reply::Failed { detail } => Outcome::TransportOrServiceError(detail),
        Reply::Response { status, body } => {
            if status == 404 {
                Outcome::NotFound
            } else if !wants_body(status) {
                let mut detail = String::from_str("HTTP status ");
                detail.append(natural(status as u64).as_str());
                detail.append(" for url (");
                detail.append(lookup_url(word).as_str());
                detail.append(")");
                Outcome::TransportOrServiceError(detail)
            } else {
                match parse_text(body.as_str()) {
                    Ok(document) => outcome_of_document(&document),
                    Err(error) => Outcome::TransportOrServiceError(error_text(&error)),
                }
            }
        },
    }
}

} // verus!
