//! The statements by which a clip store is kept in a relational database
//! with the one table `clips(text TEXT PRIMARY KEY)`. Clip text is never
//! part of a statement: it is bound to the statement's one parameter.

use crate::store::{DeleteOutcome, InsertOutcome};
use vstd::prelude::*;

verus! {

/// The statements of the store.
#[derive(Clone, Copy, Debug, PartialEq, Eq, Structural)]
pub enum Statement {
    /// Creates the table unless it exists; safe on every open.
    CreateTable,
    /// Inserts the bound text unless it is already a row.
    Insert,
    /// Deletes the row whose text equals the bound text.
    Delete,
    /// Selects every text, in the order the rows were inserted.
    List,
}

impl Statement {
    /// The statement's text.
    pub open spec fn text(self) -> Seq<char> {
        match self {
            Statement::CreateTable => "CREATE TABLE IF NOT EXISTS clips (text TEXT PRIMARY KEY)"@,
            Statement::Insert => "INSERT OR IGNORE INTO clips (text) VALUES (?)"@,
            Statement::Delete => "DELETE FROM clips WHERE text = ?"@,
            Statement::List => "SELECT text FROM clips ORDER BY rowid"@,
        }
    }

    /// How many parameters the statement takes: one, the clip's text, for a
    /// mutation by value, and none otherwise.
    pub open spec fn parameters(self) -> nat {
        match self {
            Statement::Insert | Statement::Delete => 1,
            Statement::CreateTable | Statement::List => 0,
        }
    }

    /// The statement's text, the same for every clip.
    pub fn sql(self) -> (text: &'static str)
        ensures
            text@ == self.text(),
    {
        match self {
            Statement::CreateTable => "CREATE TABLE IF NOT EXISTS clips (text TEXT PRIMARY KEY)",
            Statement::Insert => "INSERT OR IGNORE INTO clips (text) VALUES (?)",
            Statement::Delete => "DELETE FROM clips WHERE text = ?",
            Statement::List => "SELECT text FROM clips ORDER BY rowid",
        }
    }

    /// The number of parameters to bind.
    pub fn parameter_count(self) -> (n: usize)
        ensures
            n == self.parameters(),
    {
        match self {
            Statement::Insert => 1,
            Statement::Delete => 1,
            Statement::CreateTable => 0,
            Statement::List => 0,
        }
    }
}

/// What an insert did, from the number of rows it changed.
pub fn insert_outcome(changed_rows: usize) -> (outcome: InsertOutcome)
    ensures
        outcome == (if changed_rows == 0 {
            InsertOutcome::AlreadyPresent
        } else {
            InsertOutcome::Inserted
        }),
{
    if changed_rows == 0 {
        InsertOutcome::AlreadyPresent
    } else {
        InsertOutcome::Inserted
    }
}

/// What a delete did, from the number of rows it changed.
pub fn delete_outcome(changed_rows: usize) -> (outcome: DeleteOutcome)
    ensures
        outcome == (if changed_rows == 0 {
            DeleteOutcome::NotFound
        } else {
            DeleteOutcome::Deleted
        }),
{
    if changed_rows == 0 {
        DeleteOutcome::NotFound
    } else {
        DeleteOutcome::Deleted
    }
}

} // verus!
