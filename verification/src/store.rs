//! The word store: one table of words, and what a write to it answers.
//!
//! A storage engine answers every write with a [`WriteReply`].  This module
//! says what each answer means for the caller, and holds the table itself in
//! memory as [`WordStore`]: every word at most once, keys handed out in
//! ascending order and never a second time.

use vstd::prelude::*;
use vstd::string::StringExecFns;
use crate::models::{StoredWord, WordEntry};

verus! {

/// The answer of the storage engine to a write, as a mathematical value.
pub ghost enum WriteReplyModel {
    Done { rows_affected: int },
    Failed { unique_violation: bool, detail: Seq<char> },
}

/// The answer of the storage engine to a write: how many rows it changed, or
/// why it changed none, and whether the reason is the uniqueness constraint.
#[derive(Debug, PartialEq, Eq)]
pub enum WriteReply {
    Done { rows_affected: u64 },
    Failed { unique_violation: bool, detail: String },
}

impl View for WriteReply {
    type V = WriteReplyModel;

    open spec fn view(&self) -> WriteReplyModel {
        match self {
            WriteReply::Done { rows_affected } => WriteReplyModel::Done {
                rows_affected: *rows_affected as int,
            },
            WriteReply::Failed { unique_violation, detail } => WriteReplyModel::Failed {
                unique_violation: *unique_violation,
                detail: detail@,
            },
        }
    }
}

/// Why an insert failed, as a mathematical value.
pub ghost enum InsertErrorModel {
    Conflict,
    StorageError(Seq<char>),
}

/// Why an insert failed.
#[derive(Debug, PartialEq, Eq)]
pub enum InsertError {
    /// The word is in the table already.
    Conflict,
    /// Any other failure of the write, with the engine's reason.
    StorageError(String),
}

impl View for InsertError {
    type V = InsertErrorModel;

    open spec fn view(&self) -> InsertErrorModel {
        match self {
            InsertError::Conflict => InsertErrorModel::Conflict,
            InsertError::StorageError(detail) => InsertErrorModel::StorageError(detail@),
        }
    }
}

/// Why a delete failed, as a mathematical value.
pub ghost enum DeleteErrorModel {
    RowNotFound,
    StorageError(Seq<char>),
}

/// Why a delete failed.
#[derive(Debug, PartialEq, Eq)]
pub enum DeleteError {
    /// No row has the key: it never had one, or the row is gone already.
    RowNotFound,
    /// Any other failure of the write, with the engine's reason.
    StorageError(String),
}

impl View for DeleteError {
    type V = DeleteErrorModel;

    open spec fn view(&self) -> DeleteErrorModel {
        match self {
            DeleteError::RowNotFound => DeleteErrorModel::RowNotFound,
            DeleteError::StorageError(detail) => DeleteErrorModel::StorageError(detail@),
        }
    }
}

/// The view of a result without a value.
pub open spec fn result_model<E: View>(result: Result<(), E>) -> Result<(), E::V> {
    match result {
        Ok(_) => Ok(()),
        Err(error) => Err(error@),
    }
}

/// What the answer to an insert means: done, a conflict where the uniqueness
/// constraint refused the row, a storage error for any other failure.
pub open spec fn insert_result(reply: WriteReplyModel) -> Result<(), InsertErrorModel> {
    match reply {
        WriteReplyModel::Done { .. } => Ok(()),
        WriteReplyModel::Failed { unique_violation, detail } => if unique_violation {
            Err(InsertErrorModel::Conflict)
        } else {
            Err(InsertErrorModel::StorageError(detail))
        },
    }
}

/// What the answer to a delete means: done where a row was changed, no such
/// row where none was, a storage error for any failure.
pub open spec fn delete_result(reply: WriteReplyModel) -> Result<(), DeleteErrorModel> {
    match reply {
        WriteReplyModel::Done { rows_affected } => if rows_affected > 0 {
            Ok(())
        } else {
            Err(DeleteErrorModel::RowNotFound)
        },
        WriteReplyModel::Failed { detail, .. } => Err(DeleteErrorModel::StorageError(detail)),
    }
}

/// Says what the engine's answer to an insert means.
pub fn conclude_insert(reply: WriteReply) -> (r: Result<(), InsertError>)
    ensures
        result_model(r) == insert_result(reply@),
{
    match reply {
        WriteReply::Done { .. } => Ok(()),
        WriteReply::Failed { unique_violation, detail } => if unique_violation {
            Err(InsertError::Conflict)
        } else {
            Err(InsertError::StorageError(detail))
        },
    }
}

/// Says what the engine's answer to a delete means.  That no row was changed
/// is the only sign that the key was absent.
pub fn conclude_delete(reply: WriteReply) -> (r: Result<(), DeleteError>)
    ensures
        result_model(r) == delete_result(reply@),
{
    match reply {
        WriteReply::Done { rows_affected } => if rows_affected > 0 {
            Ok(())
        } else {
            Err(DeleteError::RowNotFound)
        },
        WriteReply::Failed { detail, .. } => Err(DeleteError::StorageError(detail)),
    }
}

/// How many connections to the engine the pool keeps at most.
pub const MAX_CONNECTIONS: u32 = 5;

/// The address at which the engine opens the table file at `path`, creating
/// the file where it is missing.
pub open spec fn database_url_of(path: Seq<char>) -> Seq<char> {
    "sqlite:"@ + path + "?mode=rwc"@
}

/// The address at which the engine opens the table file at `path`.
pub fn database_url(path: &str) -> (r: String)
    ensures
        r@ == database_url_of(path@),
{
    let mut url = String::from_str("sqlite:");
    url.append(path);
    url.append("?mode=rwc");
    url
}

/// The reason the engine gives where the uniqueness constraint refuses a row.
pub open spec fn unique_violation_text() -> Seq<char> {
    "UNIQUE constraint failed: words.word"@
}

/// The reason the engine gives where no key is left to hand out.
pub open spec fn table_full_text() -> Seq<char> {
    "database or disk is full"@
}

/// The word table as a mathematical value: its rows in the order of their
/// keys, and the greatest key it ever handed out.
pub ghost struct Table {
    pub rows: Seq<StoredWord>,
    pub last_id: int,
}

impl Table {
    /// The table as created: no row, no key handed out.
    pub open spec fn empty() -> Table {
        Table { rows: Seq::empty(), last_id: 0 }
    }

    /// What holds of every table: keys are positive, ascend along the rows
    /// and are at most the greatest key handed out; no word occurs twice.
    pub open spec fn wf(self) -> bool {
        &&& 0 <= self.last_id <= i64::MAX
        &&& forall|i: int|
            0 <= i < self.rows.len() ==> 1 <= (#[trigger] self.rows[i]).id <= self.last_id
        &&& forall|i: int, j: int|
            0 <= i < j < self.rows.len() ==> (#[trigger] self.rows[i]).id < (
            #[trigger] self.rows[j]).id
        &&& forall|i: int, j: int|
            0 <= i < j < self.rows.len() ==> (#[trigger] self.rows[i]).word != (
            #[trigger] self.rows[j]).word
    }

    /// Whether some row holds the word.
    pub open spec fn has_word(self, word: Seq<char>) -> bool {
        exists|i: int| 0 <= i < self.rows.len() && (#[trigger] self.rows[i]).word == word
    }

    /// Whether some row has the key.
    pub open spec fn has_id(self, id: int) -> bool {
        exists|i: int| 0 <= i < self.rows.len() && (#[trigger] self.rows[i]).id == id
    }

    /// Whether every key has been handed out.
    pub open spec fn is_full(self) -> bool {
        self.last_id >= i64::MAX
    }

    /// The table with one more row, under the next key.
    pub open spec fn with_row(self, word: Seq<char>, definition: Seq<char>) -> Table {
        Table {
            rows: self.rows.push(StoredWord { id: self.last_id + 1, word, definition }),
            last_id: self.last_id + 1,
        }
    }

    /// The engine's answer to an insert of `word`.
    pub open spec fn insert_reply(self, word: Seq<char>) -> WriteReplyModel {
        if self.has_word(word) {
            WriteReplyModel::Failed { unique_violation: true, detail: unique_violation_text() }
        } else if self.is_full() {
            WriteReplyModel::Failed { unique_violation: false, detail: table_full_text() }
        } else {
            WriteReplyModel::Done { rows_affected: 1 }
        }
    }

    /// The table after an insert of `word` with `definition`: one row more
    /// where the insert is done, the same table where it fails.
    pub open spec fn after_insert(self, word: Seq<char>, definition: Seq<char>) -> Table {
        if self.insert_reply(word) is Done {
            self.with_row(word, definition)
        } else {
            self
        }
    }

    /// The engine's answer to a delete of the row with key `id`.
    pub open spec fn delete_reply(self, id: int) -> WriteReplyModel {
        WriteReplyModel::Done { rows_affected: if self.has_id(id) { 1 } else { 0 } }
    }

    /// The table after a delete of the row with key `id`: the rows with
    /// another key, in their order.
    pub open spec fn after_delete(self, id: int) -> Table {
        Table { rows: rows_without(self.rows, id), last_id: self.last_id }
    }
}

/// The rows whose key is not `id`, in their order.
pub open spec fn rows_without(rows: Seq<StoredWord>, id: int) -> Seq<StoredWord> {
    rows.filter(|row: StoredWord| row.id != id)
}

/// The word table, held in memory.
pub struct WordStore {
    rows: Vec<WordEntry>,
    last_id: i64,
}

impl View for WordStore {
    type V = Table;

    closed spec fn view(&self) -> Table {
        Table { rows: self.rows.deep_view(), last_id: self.last_id as int }
    }
}

impl WordStore {
    /// Every store holds a well-formed table.
    #[verifier::type_invariant]
    pub open spec fn well_formed(self) -> bool {
        self@.wf()
    }

    /// An empty table.
    pub fn new() -> (store: WordStore)
        ensures
            store@ == Table::empty(),
            store@.wf(),
    {
        let store = WordStore { rows: Vec::new(), last_id: 0 };
        assert(store@.rows =~= Seq::empty());
        store
    }

    /// Every row, in ascending order of key.
    pub fn list(&self) -> (rows: Vec<WordEntry>)
        ensures
            rows.deep_view() == self@.rows,
            rows.len() == self@.rows.len(),
            forall|i: int| 0 <= i < rows.len() ==> (#[trigger] rows[i])@ == self@.rows[i],
            forall|i: int, j: int|
                0 <= i < j < rows.len() ==> (#[trigger] rows[i]).id < (#[trigger] rows[j]).id,
            self@.wf(),
    {
        proof {
            use_type_invariant(self);
        }
        let mut rows: Vec<WordEntry> = Vec::new();
        let mut i: usize = 0;
        while i < self.rows.len()
            invariant
                i <= self.rows.len(),
                rows.len() == i,
                forall|j: int| 0 <= j < i ==> (#[trigger] rows[j])@ == self.rows[j]@,
            decreases self.rows.len() - i,
        {
            let row = &self.rows[i];
            rows.push(
                WordEntry { id: row.id, word: row.word.clone(), definition: row.definition.clone() },
            );
            i += 1;
        }
        assert forall|i: int, j: int| 0 <= i < j < rows.len() implies (#[trigger] rows[i]).id < (
        #[trigger] rows[j]).id by {
            assert(self@.rows[i].id < self@.rows[j].id);
        }
        rows
    }

    /// Where the row with the word stands, if there is one.
    fn find_word(&self, word: &String) -> (r: Option<usize>)
        ensures
            match r {
                Some(i) => i < self@.rows.len() && self@.rows[i as int].word == word@,
                None => !self@.has_word(word@),
            },
    {
        let mut i: usize = 0;
        while i < self.rows.len()
            invariant
                i <= self.rows.len(),
                forall|j: int| 0 <= j < i ==> (#[trigger] self@.rows[j]).word != word@,
            decreases self.rows.len() - i,
        {
            if self.rows[i].word == *word {
                return Some(i);
            }
            i += 1;
        }
        None
    }

    /// Where the row with the key stands, if there is one.
    fn find_id(&self, id: i64) -> (r: Option<usize>)
        ensures
            match r {
                Some(i) => i < self@.rows.len() && self@.rows[i as int].id == id,
                None => !self@.has_id(id as int),
            },
    {
        let mut i: usize = 0;
        while i < self.rows.len()
            invariant
                i <= self.rows.len(),
                forall|j: int| 0 <= j < i ==> (#[trigger] self@.rows[j]).id != id,
            decreases self.rows.len() - i,
        {
            if self.rows[i].id == id {
                return Some(i);
            }
            i += 1;
        }
        None
    }

    /// Does what the engine does on an insert, and answers as it answers:
    /// the uniqueness constraint refuses a word that is in the table; a
    /// table that has handed out every key takes no row; otherwise the row
    /// goes in under the next key.
    pub fn execute_insert(&mut self, word: &str, definition: &str) -> (reply: WriteReply)
        ensures
            reply@ == old(self)@.insert_reply(word@),
            final(self)@ == old(self)@.after_insert(word@, definition@),
            final(self)@.wf(),
    {
        proof {
            use_type_invariant(&*self);
        }
        let word = String::from_str(word);
        if self.find_word(&word).is_some() {
            return WriteReply::Failed {
                unique_violation: true,
                detail: String::from_str("UNIQUE constraint failed: words.word"),
            };
        }
        if self.last_id == i64::MAX {
            return WriteReply::Failed {
                unique_violation: false,
                detail: String::from_str("database or disk is full"),
            };
        }
        let ghost before = self@;
        let id = self.last_id + 1;
        let mut rows: Vec<WordEntry> = Vec::new();
        core::mem::swap(&mut self.rows, &mut rows);
        rows.push(WordEntry { id, word, definition: String::from_str(definition) });
        self.last_id = id;
        proof {
            assert(rows.deep_view() =~= before.with_row(word@, definition@).rows);
            lemma_insert_keeps_well_formed(before, word@, definition@);
        }
        core::mem::swap(&mut self.rows, &mut rows);
        WriteReply::Done { rows_affected: 1 }
    }

    /// Does what the engine does on a delete, and answers as it answers: the
    /// row with the key leaves the table, and the answer counts it.
    pub fn execute_delete(&mut self, id: i64) -> (reply: WriteReply)
        ensures
            reply@ == old(self)@.delete_reply(id as int),
            final(self)@ == old(self)@.after_delete(id as int),
            final(self)@.wf(),
    {
        proof {
            use_type_invariant(&*self);
        }
        let ghost before = self@;
        match self.find_id(id) {
            Some(i) => {
                let mut rows: Vec<WordEntry> = Vec::new();
                core::mem::swap(&mut self.rows, &mut rows);
                rows.remove(i);
                proof {
                    lemma_delete_keeps_well_formed(before, id as int);
                    lemma_key_stands_once(before, i as int);
                    lemma_without_present_key(before.rows, i as int, id as int);
                    assert(rows.deep_view() =~= before.rows.remove(i as int));
                }
                core::mem::swap(&mut self.rows, &mut rows);
                WriteReply::Done { rows_affected: 1 }
            },
            None => {
                proof {
                    lemma_without_absent_key(before.rows, id as int);
                }
                WriteReply::Done { rows_affected: 0 }
            },
        }
    }

    /// Puts a word with its definition into the table.  Fails with a
    /// conflict where the word is there already, and leaves the table as it
    /// was whenever it fails.
    pub fn insert(&mut self, word: &str, definition: &str) -> (r: Result<(), InsertError>)
        ensures
            result_model(r) == insert_result(old(self)@.insert_reply(word@)),
            final(self)@ == old(self)@.after_insert(word@, definition@),
            final(self)@.wf(),
            r is Ok <==> !old(self)@.has_word(word@) && !old(self)@.is_full(),
            r matches Err(InsertError::Conflict) <==> old(self)@.has_word(word@),
            r is Err ==> final(self)@ == old(self)@,
    {
        let reply = self.execute_insert(word, definition);
        conclude_insert(reply)
    }

    /// Takes the row with the key out of the table.  Fails where no row has
    /// the key.
    pub fn delete(&mut self, id: i64) -> (r: Result<(), DeleteError>)
        ensures
            result_model(r) == delete_result(old(self)@.delete_reply(id as int)),
            final(self)@ == old(self)@.after_delete(id as int),
            final(self)@.wf(),
            r is Ok <==> old(self)@.has_id(id as int),
            r matches Err(DeleteError::RowNotFound) <==> !old(self)@.has_id(id as int),
            !final(self)@.has_id(id as int),
    {
        proof {
            use_type_invariant(&*self);
            lemma_delete_keeps_well_formed(self@, id as int);
        }
        let reply = self.execute_delete(id);
        conclude_delete(reply)
    }
}

/// An insert leaves a well-formed table well-formed.
pub proof fn lemma_insert_keeps_well_formed(table: Table, word: Seq<char>, definition: Seq<char>)
    requires
        table.wf(),
    ensures
        table.after_insert(word, definition).wf(),
{
}

/// In a well-formed table no other row has the key of a given row.
pub proof fn lemma_key_stands_once(table: Table, k: int)
    requires
        table.wf(),
        0 <= k < table.rows.len(),
    ensures
        forall|i: int|
            0 <= i < table.rows.len() && i != k ==> (#[trigger] table.rows[i]).id
                != table.rows[k].id,
{
}

/// Taking out a key that no row has changes nothing.
pub proof fn lemma_without_absent_key(rows: Seq<StoredWord>, id: int)
    requires
        forall|i: int| 0 <= i < rows.len() ==> (#[trigger] rows[i]).id != id,
    ensures
        rows_without(rows, id) == rows,
    decreases rows.len(),
{
    reveal(Seq::filter);
    if rows.len() > 0 {
        lemma_without_absent_key(rows.drop_last(), id);
    }
}

/// Taking out a key that exactly one row has removes that row.
pub proof fn lemma_without_present_key(rows: Seq<StoredWord>, k: int, id: int)
    requires
        0 <= k < rows.len(),
        rows[k].id == id,
        forall|i: int| 0 <= i < rows.len() && i != k ==> (#[trigger] rows[i]).id != id,
    ensures
        rows_without(rows, id) == rows.remove(k),
    decreases rows.len(),
{
    reveal(Seq::filter);
    if k == rows.len() - 1 {
        lemma_without_absent_key(rows.drop_last(), id);
    } else {
        lemma_without_present_key(rows.drop_last(), k, id);
    }
}

/// A delete leaves a well-formed table well-formed, and without the key.
pub proof fn lemma_delete_keeps_well_formed(table: Table, id: int)
    requires
        table.wf(),
    ensures
        table.after_delete(id).wf(),
        !table.after_delete(id).has_id(id),
        !table.has_id(id) ==> table.after_delete(id) == table,
        table.has_id(id) ==> table.after_delete(id).rows.len() + 1 == table.rows.len(),
{
    if table.has_id(id) {
        let k = choose|k: int| 0 <= k < table.rows.len() && (#[trigger] table.rows[k]).id == id;
        lemma_key_stands_once(table, k);
        lemma_without_present_key(table.rows, k, id);
    } else {
        lemma_without_absent_key(table.rows, id);
    }
}

} // verus!
