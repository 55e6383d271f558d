//! What holds of the pipeline as a whole.
//!
//! Each law is stated over the same mathematical values as the contracts of
//! the functions it speaks of, so it holds of every run of those functions.

use vstd::prelude::*;
use crate::client::{OutcomeModel, ReplyModel, is_success, outcome_of_reply, status_error_text};
use crate::json::parsed_json;
use crate::models::{Meaning, StoredWord};
use crate::pipeline::{
    AcquisitionErrorModel, AddErrorModel, acquire_result, addition_of, after_acquire,
};
use crate::rich::{
    StoredDefinitionModel, lemma_meanings_round_trip, meanings_tree, reading_of, rich_text_of,
};
use crate::store::{
    DeleteErrorModel, Table, delete_result, insert_result, lemma_delete_keeps_well_formed,
    lemma_insert_keeps_well_formed,
};

verus! {

/// A row with the word stands among the rows, and only one does.
pub open spec fn listed_once(rows: Seq<StoredWord>, word: Seq<char>) -> bool {
    exists|i: int|
        {
            &&& 0 <= i < rows.len()
            &&& (#[trigger] rows[i]).word == word
            &&& forall|j: int| 0 <= j < rows.len() && (#[trigger] rows[j]).word == word ==> j == i
        }
}

/// The row that a done insert adds is the last one, it has the next key, and
/// the word is listed once.
pub proof fn lemma_inserted_word_is_listed_once(
    table: Table,
    word: Seq<char>,
    definition: Seq<char>,
)
    requires
        table.wf(),
        !table.has_word(word),
        !table.is_full(),
    ensures
        table.after_insert(word, definition) == table.with_row(word, definition),
        table.after_insert(word, definition).wf(),
        table.after_insert(word, definition).has_word(word),
        listed_once(table.after_insert(word, definition).rows, word),
{
    lemma_insert_keeps_well_formed(table, word, definition);
    let after = table.with_row(word, definition);
    assert(after.rows[table.rows.len() as int].word == word);
}

/// A word that a lookup found comes out of the table as it went in.
///
/// Let a word be absent from a table that has keys left, and let its lookup
/// have found at least one meaning group.  Where the groups can be written as
/// text, the acquisition succeeds; afterwards the word is listed exactly
/// once, under the next key, and its definition is that text.  Where the
/// JSON reader gives back the document that the writer was given, reading the
/// stored definition yields the same meaning groups, with the same
/// definitions and examples.
pub proof fn law_acquired_word_reads_back(table: Table, word: Seq<char>, meanings: Seq<Meaning>)
    requires
        table.wf(),
        !table.has_word(word),
        !table.is_full(),
        meanings.len() >= 1,
    ensures
        rich_text_of(meanings) matches Ok(text) ==> {
            let outcome = OutcomeModel::Found(meanings);
            let after = after_acquire(table, word, outcome);
            &&& acquire_result(table, word, outcome) is Ok
            &&& after.wf()
            &&& listed_once(after.rows, word)
            &&& after.rows == table.rows.push(
                StoredWord { id: table.last_id + 1, word, definition: text },
            )
            &&& (parsed_json(text) matches Ok(tree) && tree == meanings_tree(meanings)
                ==> reading_of(text) == StoredDefinitionModel::Rich(meanings))
        },
{
    if rich_text_of(meanings) is Ok {
        let text = rich_text_of(meanings)->Ok_0;
        lemma_inserted_word_is_listed_once(table, word, text);
        lemma_meanings_round_trip(meanings);
    }
}

/// A word is acquired once.
///
/// Let a word be absent from a table that has keys left.  Of two
/// acquisitions of the word, each after a lookup that found meaning groups
/// which can be written as text, the first succeeds and the second fails
/// with `AlreadyExists`; the second leaves the table as the first left it,
/// with the word listed exactly once.
pub proof fn law_second_acquisition_is_refused(
    table: Table,
    word: Seq<char>,
    first: Seq<Meaning>,
    second: Seq<Meaning>,
)
    requires
        table.wf(),
        !table.has_word(word),
        !table.is_full(),
        first.len() >= 1,
        second.len() >= 1,
    ensures
        rich_text_of(first) is Ok && rich_text_of(second) is Ok ==> {
            let once = after_acquire(table, word, OutcomeModel::Found(first));
            let twice = after_acquire(once, word, OutcomeModel::Found(second));
            &&& acquire_result(table, word, OutcomeModel::Found(first)) is Ok
            &&& acquire_result(once, word, OutcomeModel::Found(second)) == Err::<
                (),
                AcquisitionErrorModel,
            >(AcquisitionErrorModel::AlreadyExists)
            &&& twice == once
            &&& listed_once(twice.rows, word)
        },
{
    if rich_text_of(first) is Ok && rich_text_of(second) is Ok {
        lemma_inserted_word_is_listed_once(table, word, rich_text_of(first)->Ok_0);
    }
}

/// A word that the dictionary does not have leaves no row.
///
/// Whatever the body of a response with status 404 holds, the lookup ends in
/// `NotFound`, the acquisition fails with `NotFound`, and the table is as it
/// was.
pub proof fn law_not_found_writes_nothing(table: Table, word: Seq<char>, body: Seq<char>)
    ensures
        ({
            let outcome = outcome_of_reply(word, ReplyModel::Response { status: 404, body });
            &&& outcome == OutcomeModel::NotFound
            &&& acquire_result(table, word, outcome) == Err::<(), AcquisitionErrorModel>(
                AcquisitionErrorModel::NotFound,
            )
            &&& after_acquire(table, word, outcome) == table
        }),
{
}

/// A failure of the service leaves no row.
///
/// Whatever the body of a response with status 500 holds, the lookup ends in
/// an error, the acquisition fails with `RemoteError`, and the table is as it
/// was.
pub proof fn law_server_error_writes_nothing(table: Table, word: Seq<char>, body: Seq<char>)
    ensures
        ({
            let outcome = outcome_of_reply(word, ReplyModel::Response { status: 500, body });
            &&& outcome is TransportOrServiceError
            &&& acquire_result(table, word, outcome) matches Err(
                AcquisitionErrorModel::RemoteError(_),
            )
            &&& after_acquire(table, word, outcome) == table
        }),
{
}

/// A status that is neither a success nor 404 ends the acquisition with
/// `RemoteError`, whatever the body holds; the error names the status and
/// the address, and the table is as it was.
pub proof fn law_refused_status_is_a_remote_error(
    table: Table,
    word: Seq<char>,
    status: int,
    body: Seq<char>,
)
    requires
        status != 404,
        !is_success(status),
    ensures
        ({
            let outcome = outcome_of_reply(word, ReplyModel::Response { status, body });
            &&& outcome == OutcomeModel::TransportOrServiceError(status_error_text(status, word))
            &&& acquire_result(table, word, outcome) == Err::<(), AcquisitionErrorModel>(
                AcquisitionErrorModel::RemoteError(status_error_text(status, word)),
            )
            &&& after_acquire(table, word, outcome) == table
        }),
{
}

/// An acquisition that fails leaves the table as it was, whatever the cause.
pub proof fn law_failed_acquisition_writes_nothing(
    table: Table,
    word: Seq<char>,
    outcome: OutcomeModel,
)
    ensures
        acquire_result(table, word, outcome) is Err ==> after_acquire(table, word, outcome)
            == table,
        !(outcome is Found) ==> acquire_result(table, word, outcome) is Err,
{
}

/// A delete takes out the row with the key, and nothing else.
///
/// Where no row has the key, the delete fails with `RowNotFound` and the
/// table is as it was.  Where a row has it, the delete succeeds and the
/// table has one row less.  Either way no row has the key afterwards, every
/// row with another key is still there, and the greatest key handed out is
/// what it was.
pub proof fn law_delete_removes_the_row(table: Table, id: int)
    requires
        table.wf(),
    ensures
        table.after_delete(id).wf(),
        !table.after_delete(id).has_id(id),
        table.after_delete(id).last_id == table.last_id,
        forall|row: StoredWord|
            #[trigger] table.after_delete(id).rows.contains(row) <==> table.rows.contains(row)
                && row.id != id,
        !table.has_id(id) ==> {
            &&& delete_result(table.delete_reply(id)) == Err::<(), DeleteErrorModel>(
                DeleteErrorModel::RowNotFound,
            )
            &&& table.after_delete(id) == table
        },
        table.has_id(id) ==> {
            &&& delete_result(table.delete_reply(id)) is Ok
            &&& table.after_delete(id).rows.len() + 1 == table.rows.len()
        },
{
    lemma_delete_keeps_well_formed(table, id);
    let keep = |row: StoredWord| row.id != id;
    assert forall|row: StoredWord| #[trigger]
        table.after_delete(id).rows.contains(row) <==> table.rows.contains(row) && row.id
            != id by {
        if table.after_delete(id).rows.contains(row) {
            table.rows.lemma_filter_contains_rev(keep, row);
        }
        if table.rows.contains(row) && row.id != id {
            let i = choose|i: int| 0 <= i < table.rows.len() && table.rows[i] == row;
            table.rows.lemma_filter_contains(keep, i);
        }
    }
}

/// A write to the table.
pub ghost enum Write {
    Insert { word: Seq<char>, definition: Seq<char> },
    Delete { id: int },
}

/// The table after one write.
pub open spec fn written(table: Table, write: Write) -> Table {
    match write {
        Write::Insert { word, definition } => table.after_insert(word, definition),
        Write::Delete { id } => table.after_delete(id),
    }
}

/// The table after a sequence of writes, the first one first.
pub open spec fn written_all(table: Table, writes: Seq<Write>) -> Table
    decreases writes.len(),
{
    if writes.len() == 0 {
        table
    } else {
        written(written_all(table, writes.drop_last()), writes.last())
    }
}

/// An acquisition changes the table by at most one write: the insert of the
/// word with the rich text of its meaning groups.
pub proof fn law_acquisition_is_at_most_one_write(
    table: Table,
    word: Seq<char>,
    outcome: OutcomeModel,
)
    ensures
        after_acquire(table, word, outcome) == table || (outcome matches OutcomeModel::Found(
            meanings,
        ) && rich_text_of(meanings) matches Ok(definition) && after_acquire(table, word, outcome)
            == written(table, Write::Insert { word, definition })),
{
}

/// Writes keep a table well-formed and never lower the greatest key handed
/// out; a key that was handed out and whose row is gone stays without a row.
pub proof fn law_key_is_never_reused(table: Table, id: int, writes: Seq<Write>)
    requires
        table.wf(),
        id <= table.last_id,
        !table.has_id(id),
    ensures
        written_all(table, writes).wf(),
        table.last_id <= written_all(table, writes).last_id,
        !written_all(table, writes).has_id(id),
    decreases writes.len(),
{
    if writes.len() > 0 {
        let before = written_all(table, writes.drop_last());
        law_key_is_never_reused(table, id, writes.drop_last());
        match writes.last() {
            Write::Insert { word, definition } => {
                lemma_insert_keeps_well_formed(before, word, definition);
            },
            Write::Delete { id: gone } => {
                law_delete_removes_the_row(before, gone);
                let after = before.after_delete(gone);
                assert forall|i: int| 0 <= i < after.rows.len() implies (#[trigger] after.rows[i]).id
                    != id by {
                    assert(after.rows.contains(after.rows[i]));
                }
            },
        }
    }
}

/// The key of a deleted row is never handed out again: after the delete, no
/// sequence of writes brings a row with that key into the table.
pub proof fn law_deleted_key_is_never_reused(table: Table, id: int, writes: Seq<Write>)
    requires
        table.wf(),
        table.has_id(id),
    ensures
        !written_all(table.after_delete(id), writes).has_id(id),
{
    law_delete_removes_the_row(table, id);
    law_key_is_never_reused(table.after_delete(id), id, writes);
}

/// A word is added once.
///
/// Let a word be absent from a table that has keys left.  Of two manual adds
/// of the word, the first succeeds and the second fails with
/// `AlreadyExists`, whatever definition it brings; afterwards the word is
/// listed exactly once, with the definition of the first add.
pub proof fn law_second_add_is_refused(
    table: Table,
    word: Seq<char>,
    first: Seq<char>,
    second: Seq<char>,
)
    requires
        table.wf(),
        !table.has_word(word),
        !table.is_full(),
    ensures
        ({
            let once = table.after_insert(word, first);
            let twice = once.after_insert(word, second);
            &&& addition_of(insert_result(table.insert_reply(word))) is Ok
            &&& addition_of(insert_result(once.insert_reply(word))) == Err::<(), AddErrorModel>(
                AddErrorModel::AlreadyExists,
            )
            &&& twice == once
            &&& listed_once(once.rows, word)
            &&& once.rows == table.rows.push(
                StoredWord { id: table.last_id + 1, word, definition: first },
            )
        }),
{
    lemma_inserted_word_is_listed_once(table, word, first);
}

} // verus!
