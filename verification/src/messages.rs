//! What to tell the person in front of the screen when a request fails.
//!
//! The kind of an error is what callers branch on; the message is for
//! display, and names the word or the key that the request was about.

use vstd::prelude::*;
use vstd::string::StringExecFns;
use crate::pipeline::{AcquisitionError, AcquisitionErrorModel, AddError, AddErrorModel};
use crate::store::{DeleteError, DeleteErrorModel};
use crate::text::{decimal, decimal_text};

verus! {

/// The message for a failed acquisition of `word`.
pub open spec fn acquisition_message_of(word: Seq<char>, error: AcquisitionErrorModel) -> Seq<
    char,
> {
    match error {
        AcquisitionErrorModel::NotFound => "Definition not found via API for word: "@ + word,
        AcquisitionErrorModel::RemoteError(detail) => {
            "API Error while fetching definition for '"@ + word + "': "@ + detail
        },
        AcquisitionErrorModel::SerializationError(detail) => {
            "Failed to serialize rich definition for '"@ + word + "': "@ + detail
        },
        AcquisitionErrorModel::AlreadyExists => {
            "Word '"@ + word + "' already exists in the database."@
        },
        AcquisitionErrorModel::StorageError(detail) => {
            "Failed to save word '"@ + word + "' to database: "@ + detail
        },
    }
}

/// The message for a failed manual add of `word`.
pub open spec fn addition_message_of(word: Seq<char>, error: AddErrorModel) -> Seq<char> {
    match error {
        AddErrorModel::AlreadyExists => "Word '"@ + word + "' already exists in the database."@,
        AddErrorModel::StorageError(detail) => "Failed to add word '"@ + word + "': "@ + detail,
    }
}

/// The message for a failed delete of the word with key `id`.
pub open spec fn deletion_message_of(id: int, error: DeleteErrorModel) -> Seq<char> {
    match error {
        DeleteErrorModel::RowNotFound => {
            "Word with ID "@ + decimal_text(id) + " not found for deletion."@
        },
        DeleteErrorModel::StorageError(detail) => {
            "Failed to delete word with ID "@ + decimal_text(id) + ": "@ + detail
        },
    }
}

/// Writes the message for a failed acquisition of `word`.
pub fn acquisition_message(word: &str, error: &AcquisitionError) -> (r: String)
    ensures
        r@ == acquisition_message_of(word@, error@),
{
    match error {
        AcquisitionError::NotFound => {
            let mut text = String::from_str("Definition not found via API for word: ");
            text.append(word);
            text
        },
        AcquisitionError::RemoteError(detail) => {
            let mut text = String::from_str("API Error while fetching definition for '");
            text.append(word);
            text.append("': ");
            text.append(detail.as_str());
            text
        },
        AcquisitionError::SerializationError(detail) => {
            let mut text = String::from_str("Failed to serialize rich definition for '");
            text.append(word);
            text.append("': ");
            text.append(detail.as_str());
            text
        },
        AcquisitionError::AlreadyExists => {
            let mut text = String::from_str("Word '");
            text.append(word);
            text.append("' already exists in the database.");
            text
        },
        AcquisitionError::StorageError(detail) => {
            let mut text = String::from_str("Failed to save word '");
            text.append(word);
            text.append("' to database: ");
            text.append(detail.as_str());
            text
        },
    }
}

/// Writes the message for a failed manual add of `word`.
pub fn addition_message(word: &str, error: &AddError) -> (r: String)
    ensures
        r@ == addition_message_of(word@, error@),
{
    match error {
        AddError::AlreadyExists => {
            let mut text = String::from_str("Word '");
            text.append(word);
            text.append("' already exists in the database.");
            text
        },
        AddError::StorageError(detail) => {
            let mut text = String::from_str("Failed to add word '");
            text.append(word);
            text.append("': ");
            text.append(detail.as_str());
            text
        },
    }
}

/// Writes the message for a failed delete of the word with key `id`.
pub fn deletion_message(id: i64, error: &DeleteError) -> (r: String)
    ensures
        r@ == deletion_message_of(id as int, error@),
{
    match error {
        DeleteError::RowNotFound => {
            let mut text = String::from_str("Word with ID ");
            text.append(decimal(id).as_str());
            text.append(" not found for deletion.");
            text
        },
        DeleteError::StorageError(detail) => {
            let mut text = String::from_str("Failed to delete word with ID ");
            text.append(decimal(id).as_str());
            text.append(": ");
            text.append(detail.as_str());
            text
        },
    }
}

} // verus!
