//! The clip store: a deduplicated, ordered set of text clips.

use crate::model::{delete_text, insert_text, is_clip_set, lemma_delete_text, lemma_insert_text, texts};
use vstd::prelude::*;

verus! {

/// What an insert did.
#[derive(Clone, Copy, Debug, PartialEq, Eq, Structural)]
pub enum InsertOutcome {
    Inserted,
    AlreadyPresent,
}

/// What a delete did.
#[derive(Clone, Copy, Debug, PartialEq, Eq, Structural)]
pub enum DeleteOutcome {
    Deleted,
    NotFound,
}

/// Why the store refused a request.
#[derive(Clone, Copy, Debug, PartialEq, Eq, Structural)]
pub enum StoreError {
    /// The text of a clip was empty.
    InvalidArgument,
}

/// Whether `text` can be a clip: a clip is never empty.
pub fn is_clip(text: &str) -> (r: bool)
    ensures
        r == (text@.len() > 0),
{
    !text.is_empty()
}

/// A clip store held in memory, its clips in their natural order: the order
/// in which they were recorded. A store kept in a database through the
/// statements of `crate::statement` answers as this one does.
pub struct ClipStore {
    clips: Vec<String>,
}

impl View for ClipStore {
    type V = Seq<Seq<char>>;

    closed spec fn view(&self) -> Seq<Seq<char>> {
        texts(self.clips@)
    }
}

impl ClipStore {
    /// The store's invariant: no clip is empty and none occurs twice. Every
    /// constructor establishes it and every method keeps it.
    pub open spec fn well_formed(&self) -> bool {
        is_clip_set(self@)
    }

    /// A store without clips.
    pub fn new() -> (store: Self)
        ensures
            store.well_formed(),
            store@ == Seq::<Seq<char>>::empty(),
    {
        let store = ClipStore { clips: Vec::new() };
        assert(store@ =~= Seq::<Seq<char>>::empty());
        store
    }

    /// The index at which `text` stands, if it is a member.
    fn position(&self, text: &String) -> (found: Option<usize>)
        ensures
            match found {
                Some(i) => i < self@.len() && self@[i as int] == text@,
                None => !self@.contains(text@),
            },
    {
        let mut i: usize = 0;
        while i < self.clips.len()
            invariant
                i <= self.clips.len(),
                forall|k: int| 0 <= k < i ==> self@[k] != text@,
            decreases self.clips.len() - i,
        {
            if self.clips[i] == *text {
                return Some(i);
            }
            i += 1;
        }
        None
    }

    /// Records `text` unless it is already a member. Empty text is refused
    /// and leaves the store as it was.
    pub fn insert(&mut self, text: &str) -> (r: Result<InsertOutcome, StoreError>)
        requires
            old(self).well_formed(),
        ensures
            final(self).well_formed(),
            final(self)@ == insert_text(old(self)@, text@),
            r == (if text@.len() == 0 {
                Err(StoreError::InvalidArgument)
            } else if old(self)@.contains(text@) {
                Ok(InsertOutcome::AlreadyPresent)
            } else {
                Ok(InsertOutcome::Inserted)
            }),
            text@.len() > 0 ==> final(self)@.contains(text@),
    {
        proof {
            lemma_insert_text(self@, text@);
        }
        if !is_clip(text) {
            return Err(StoreError::InvalidArgument);
        }
        let owned = text.to_owned();
        match self.position(&owned) {
            Some(_) => Ok(InsertOutcome::AlreadyPresent),
            None => {
                assert(texts(self.clips@.push(owned)) =~= self@.push(text@));
                self.clips.push(owned);
                Ok(InsertOutcome::Inserted)
            },
        }
    }

    /// Removes the clip whose text equals `text`, if there is one.
    pub fn delete(&mut self, text: &str) -> (r: DeleteOutcome)
        requires
            old(self).well_formed(),
        ensures
            final(self).well_formed(),
            final(self)@ == delete_text(old(self)@, text@),
            r == (if old(self)@.contains(text@) {
                DeleteOutcome::Deleted
            } else {
                DeleteOutcome::NotFound
            }),
            !final(self)@.contains(text@),
    {
        proof {
            lemma_delete_text(self@, text@);
        }
        let owned = text.to_owned();
        match self.position(&owned) {
            Some(i) => {
                assert(texts(self.clips@.remove(i as int)) =~= self@.remove(i as int));
                let _ = self.clips.remove(i);
                DeleteOutcome::Deleted
            },
            None => DeleteOutcome::NotFound,
        }
    }

    /// All clips in natural order, as a sequence that the caller owns.
    pub fn list(&self) -> (snapshot: Vec<String>)
        ensures
            texts(snapshot@) == self@,
    {
        let mut snapshot: Vec<String> = Vec::new();
        let mut i: usize = 0;
        while i < self.clips.len()
            invariant
                i <= self.clips.len(),
                snapshot@.len() == i,
                forall|k: int| 0 <= k < i ==> snapshot@[k]@ == self.clips@[k]@,
            decreases self.clips.len() - i,
        {
            snapshot.push(self.clips[i].clone());
            i += 1;
        }
        assert(texts(snapshot@) =~= self@);
        snapshot
    }

    /// Whether `text` is a member.
    pub fn contains(&self, text: &str) -> (r: bool)
        ensures
            r == self@.contains(text@),
    {
        let owned = text.to_owned();
        self.position(&owned).is_some()
    }

    /// The number of clips.
    pub fn len(&self) -> (n: usize)
        ensures
            n == self@.len(),
    {
        self.clips.len()
    }

    /// Whether the store holds no clip.
    pub fn is_empty(&self) -> (r: bool)
        ensures
            r == (self@.len() == 0),
    {
        self.clips.len() == 0
    }
}

} // verus!
