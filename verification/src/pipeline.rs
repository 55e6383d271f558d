//! The acquisition pipeline: from the outcome of a lookup to a row in the
//! word table, and the other operations on the table that callers see.
//!
//! Nothing here is tried a second time.  A lookup that fails, a document
//! that cannot be written and a write that is refused each end the request
//! with an error of their own kind, and none of them leaves a row behind.

use vstd::prelude::*;
use vstd::string::StringExecFns;
use crate::client::{Outcome, OutcomeModel, Reply, fetch_definition, outcome_of_reply};
use crate::models::WordEntry;
use crate::rich::{rich_text, rich_text_of};
use crate::store::{
    DeleteError, InsertError, InsertErrorModel, Table, WordStore, WriteReply, conclude_insert,
    delete_result, insert_result, result_model,
};

verus! {

/// Why an acquisition failed, as a mathematical value.
pub ghost enum AcquisitionErrorModel {
    NotFound,
    RemoteError(Seq<char>),
    SerializationError(Seq<char>),
    AlreadyExists,
    StorageError(Seq<char>),
}

/// Why an acquisition failed.
#[derive(Debug, PartialEq, Eq)]
pub enum AcquisitionError {
    /// The lookup yielded nothing.
    NotFound,
    /// The network or the service failed, with the reason.
    RemoteError(String),
    /// The meaning groups could not be written as text, with the reason.
    SerializationError(String),
    /// The word is in the table already.
    AlreadyExists,
    /// Any other failure of the write, with the reason.
    StorageError(String),
}

impl View for AcquisitionError {
    type V = AcquisitionErrorModel;

    open spec fn view(&self) -> AcquisitionErrorModel {
        match self {
            AcquisitionError::NotFound => AcquisitionErrorModel::NotFound,
            AcquisitionError::RemoteError(detail) => AcquisitionErrorModel::RemoteError(detail@),
            AcquisitionError::SerializationError(detail) => {
                AcquisitionErrorModel::SerializationError(detail@)
            },
            AcquisitionError::AlreadyExists => AcquisitionErrorModel::AlreadyExists,
            AcquisitionError::StorageError(detail) => AcquisitionErrorModel::StorageError(detail@),
        }
    }
}

/// Why a manual add failed, as a mathematical value.
pub ghost enum AddErrorModel {
    AlreadyExists,
    StorageError(Seq<char>),
}

/// Why a manual add failed.
#[derive(Debug, PartialEq, Eq)]
pub enum AddError {
    /// The word is in the table already.
    AlreadyExists,
    /// Any other failure of the write, with the reason.
    StorageError(String),
}

impl View for AddError {
    type V = AddErrorModel;

    open spec fn view(&self) -> AddErrorModel {
        match self {
            AddError::AlreadyExists => AddErrorModel::AlreadyExists,
            AddError::StorageError(detail) => AddErrorModel::StorageError(detail@),
        }
    }
}

/// A row to write, as a mathematical value.
pub ghost struct InsertionModel {
    pub word: Seq<char>,
    pub definition: Seq<char>,
}

/// A row to write: the word and the text of its definition.
#[derive(Debug, PartialEq, Eq)]
pub struct Insertion {
    pub word: String,
    pub definition: String,
}

impl View for Insertion {
    type V = InsertionModel;

    open spec fn view(&self) -> InsertionModel {
        InsertionModel { word: self.word@, definition: self.definition@ }
    }
}

/// The view of what the preparation of a write gave.
pub open spec fn prepared_model(result: Result<Insertion, AcquisitionError>) -> Result<
    InsertionModel,
    AcquisitionErrorModel,
> {
    match result {
        Ok(insertion) => Ok(insertion@),
        Err(error) => Err(error@),
    }
}

/// What is to be written for a word after its lookup: the rich text of its
/// meaning groups, where the lookup found at least one and the text could be
/// written; else the error that ends the acquisition.
pub open spec fn prepared(word: Seq<char>, outcome: OutcomeModel) -> Result<
    InsertionModel,
    AcquisitionErrorModel,
> {
    match outcome {
        OutcomeModel::NotFound => Err(AcquisitionErrorModel::NotFound),
        OutcomeModel::TransportOrServiceError(detail) => Err(
            AcquisitionErrorModel::RemoteError(detail),
        ),
        OutcomeModel::Found(meanings) => if meanings.len() == 0 {
            Err(AcquisitionErrorModel::NotFound)
        } else {
            match rich_text_of(meanings) {
                Ok(definition) => Ok(InsertionModel { word, definition }),
                Err(detail) => Err(AcquisitionErrorModel::SerializationError(detail)),
            }
        },
    }
}

/// How the acquisition ends, given how the insert ended.
pub open spec fn acquisition_of(inserted: Result<(), InsertErrorModel>) -> Result<
    (),
    AcquisitionErrorModel,
> {
    match inserted {
        Ok(_) => Ok(()),
        Err(InsertErrorModel::Conflict) => Err(AcquisitionErrorModel::AlreadyExists),
        Err(InsertErrorModel::StorageError(detail)) => Err(
            AcquisitionErrorModel::StorageError(detail),
        ),
    }
}

/// How a manual add ends, given how the insert ended.
pub open spec fn addition_of(inserted: Result<(), InsertErrorModel>) -> Result<(), AddErrorModel> {
    match inserted {
        Ok(_) => Ok(()),
        Err(InsertErrorModel::Conflict) => Err(AddErrorModel::AlreadyExists),
        Err(InsertErrorModel::StorageError(detail)) => Err(AddErrorModel::StorageError(detail)),
    }
}

/// How the acquisition of a word ends on a table, given the outcome of the
/// lookup.
pub open spec fn acquire_result(table: Table, word: Seq<char>, outcome: OutcomeModel) -> Result<
    (),
    AcquisitionErrorModel,
> {
    match prepared(word, outcome) {
        Ok(insertion) => acquisition_of(insert_result(table.insert_reply(insertion.word))),
        Err(error) => Err(error),
    }
}

/// The table after the acquisition of a word, given the outcome of the
/// lookup: the table as it was, unless a row was written.
pub open spec fn after_acquire(table: Table, word: Seq<char>, outcome: OutcomeModel) -> Table {
    match prepared(word, outcome) {
        Ok(insertion) => table.after_insert(insertion.word, insertion.definition),
        Err(_) => table,
    }
}

/// Decides what to write for a word after its lookup.  `NotFound` and an
/// error of the lookup end the acquisition; so does a lookup that found no
/// meaning group at all.  Otherwise the meaning groups are written as rich
/// text, and the row to insert is the word with that text.
pub fn prepare(word: &str, outcome: Outcome) -> (r: Result<Insertion, AcquisitionError>)
    ensures
        prepared_model(r) == prepared(word@, outcome@),
{
    match outcome {
        Outcome::NotFound => Err(AcquisitionError::NotFound),
        Outcome::TransportOrServiceError(detail) => Err(AcquisitionError::RemoteError(detail)),
        Outcome::Found(meanings) => {
            if meanings.len() == 0 {
                return Err(AcquisitionError::NotFound);
            }
            match rich_text(&meanings) {
                Ok(definition) => Ok(Insertion { word: String::from_str(word), definition }),
                Err(detail) => Err(AcquisitionError::SerializationError(detail)),
            }
        },
    }
}

/// Ends an acquisition on the engine's answer to the insert: a conflict
/// means that the word exists already, any other failure is passed on.
pub fn conclude_acquisition(reply: WriteReply) -> (r: Result<(), AcquisitionError>)
    ensures
        result_model(r) == acquisition_of(insert_result(reply@)),
{
    match conclude_insert(reply) {
        Ok(()) => Ok(()),
        Err(InsertError::Conflict) => Err(AcquisitionError::AlreadyExists),
        Err(InsertError::StorageError(detail)) => Err(AcquisitionError::StorageError(detail)),
    }
}

/// Ends a manual add on the engine's answer to the insert.
pub fn conclude_addition(reply: WriteReply) -> (r: Result<(), AddError>)
    ensures
        result_model(r) == addition_of(insert_result(reply@)),
{
    match conclude_insert(reply) {
        Ok(()) => Ok(()),
        Err(InsertError::Conflict) => Err(AddError::AlreadyExists),
        Err(InsertError::StorageError(detail)) => Err(AddError::StorageError(detail)),
    }
}

/// Acquires a word, given the outcome of its lookup: writes the word with
/// the rich text of its meaning groups into the table.  Whenever it fails,
/// the table is as it was.
pub fn acquire(word: &str, outcome: Outcome, store: &mut WordStore) -> (r: Result<
    (),
    AcquisitionError,
>)
    ensures
        result_model(r) == acquire_result(old(store)@, word@, outcome@),
        final(store)@ == after_acquire(old(store)@, word@, outcome@),
        final(store)@.wf(),
        r is Ok <==> prepared(word@, outcome@) is Ok && !old(store)@.has_word(word@) && !old(
            store,
        )@.is_full(),
        r is Err ==> final(store)@ == old(store)@,
{
    proof {
        use_type_invariant(&*store);
    }
    match prepare(word, outcome) {
        Ok(insertion) => {
            let reply = store.execute_insert(insertion.word.as_str(), insertion.definition.as_str());
            conclude_acquisition(reply)
        },
        Err(error) => Err(error),
    }
}

/// Acquires a word, given what the transport handed back for its lookup:
/// reads the reply as the dictionary client does, then goes on as
/// [`acquire`].
pub fn add_word_from_api(word: String, reply: Reply, store: &mut WordStore) -> (r: Result<
    (),
    AcquisitionError,
>)
    ensures
        result_model(r) == acquire_result(old(store)@, word@, outcome_of_reply(word@, reply@)),
        final(store)@ == after_acquire(old(store)@, word@, outcome_of_reply(word@, reply@)),
        final(store)@.wf(),
{
    let outcome = fetch_definition(word.as_str(), reply);
    acquire(word.as_str(), outcome, store)
}

/// Adds a word with a definition that the caller wrote, as plain text.
pub fn add_word(word: String, definition: String, store: &mut WordStore) -> (r: Result<
    (),
    AddError,
>)
    ensures
        result_model(r) == addition_of(insert_result(old(store)@.insert_reply(word@))),
        final(store)@ == old(store)@.after_insert(word@, definition@),
        final(store)@.wf(),
        r is Ok <==> !old(store)@.has_word(word@) && !old(store)@.is_full(),
        r matches Err(AddError::AlreadyExists) <==> old(store)@.has_word(word@),
        r is Err ==> final(store)@ == old(store)@,
{
    let reply = store.execute_insert(word.as_str(), definition.as_str());
    conclude_addition(reply)
}

/// Deletes the word with the given key.
pub fn delete_word(id: i64, store: &mut WordStore) -> (r: Result<(), DeleteError>)
    ensures
        result_model(r) == delete_result(old(store)@.delete_reply(id as int)),
        final(store)@ == old(store)@.after_delete(id as int),
        final(store)@.wf(),
        r is Ok <==> old(store)@.has_id(id as int),
        r matches Err(DeleteError::RowNotFound) <==> !old(store)@.has_id(id as int),
        !final(store)@.has_id(id as int),
{
    store.delete(id)
}

/// Every word of the table, in ascending order of key.
pub fn get_words(store: &WordStore) -> (rows: Vec<WordEntry>)
    ensures
        rows.deep_view() == store@.rows,
        rows.len() == store@.rows.len(),
        forall|i: int| 0 <= i < rows.len() ==> (#[trigger] rows[i])@ == store@.rows[i],
        forall|i: int, j: int|
            0 <= i < j < rows.len() ==> (#[trigger] rows[i]).id < (#[trigger] rows[j]).id,
        store@.wf(),
{
    store.list()
}

} // verus!
