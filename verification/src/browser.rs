//! The interactive browser's selection protocol: a snapshot of clips, a
//! selection, and what each key does to them.

use crate::model::{delete_text, is_clip_set, lemma_delete_text, texts};
use crate::store::ClipStore;
use vstd::prelude::*;

verus! {

/// The longest wait for a key, in milliseconds, that keeps the list
/// responsive.
pub const EVENT_POLL_LIMIT_MS: u64 = 100;

/// The wait for a key to use, in milliseconds, given the wait that was asked
/// for: at least one, so that the loop does not spin, and at most the limit.
pub open spec fn poll_timeout_for(requested_ms: u64) -> u64 {
    if requested_ms == 0 {
        1
    } else if requested_ms > EVENT_POLL_LIMIT_MS {
        EVENT_POLL_LIMIT_MS
    } else {
        requested_ms
    }
}

/// Bounds the wait for a key.
pub fn poll_timeout_ms(requested_ms: u64) -> (timeout_ms: u64)
    ensures
        timeout_ms == poll_timeout_for(requested_ms),
        1 <= timeout_ms <= EVENT_POLL_LIMIT_MS,
{
    if requested_ms == 0 {
        1
    } else if requested_ms > EVENT_POLL_LIMIT_MS {
        EVENT_POLL_LIMIT_MS
    } else {
        requested_ms
    }
}

/// A key as the browser understands it.
#[derive(Clone, Copy, Debug, PartialEq, Eq, Structural)]
pub enum Key {
    Up,
    Down,
    Enter,
    Delete,
    Esc,
    /// Any key without a binding.
    Other,
}

/// What the caller has to do after a key was handled.
#[derive(Debug, PartialEq, Eq)]
pub enum BrowserAction {
    /// Nothing; the session goes on.
    Stay,
    /// Write this text to the clipboard, then end the session.
    Confirm(String),
    /// Delete this text from the store; the session goes on.
    Delete(String),
    /// End the session without copying.
    Cancel,
}

/// A `BrowserAction` as a mathematical value.
pub ghost enum BrowserActionView {
    Stay,
    Confirm(Seq<char>),
    Delete(Seq<char>),
    Cancel,
}

impl View for BrowserAction {
    type V = BrowserActionView;

    open spec fn view(&self) -> BrowserActionView {
        match *self {
            BrowserAction::Stay => BrowserActionView::Stay,
            BrowserAction::Confirm(text) => BrowserActionView::Confirm(text@),
            BrowserAction::Delete(text) => BrowserActionView::Delete(text@),
            BrowserAction::Cancel => BrowserActionView::Cancel,
        }
    }
}

impl BrowserAction {
    /// Whether the session ends with this action.
    pub fn ends_session(&self) -> (r: bool)
        ensures
            r == (self@ is Confirm || self@ is Cancel),
    {
        match self {
            BrowserAction::Confirm(_) => true,
            BrowserAction::Cancel => true,
            _ => false,
        }
    }
}

/// A browser session as a mathematical value: the snapshot and the selected
/// index, `None` standing for "no selection".
pub ghost struct BrowserView {
    pub snapshot: Seq<Seq<char>>,
    pub selection: Option<int>,
}

/// The selection is absent exactly when the snapshot is empty, and otherwise
/// an index into it.
pub open spec fn valid_session(v: BrowserView) -> bool {
    match v.selection {
        Some(i) => 0 <= i < v.snapshot.len(),
        None => v.snapshot.len() == 0,
    }
}

/// A session at its start: the first clip selected, if there is one.
pub open spec fn initial_session(snapshot: Seq<Seq<char>>) -> BrowserView {
    BrowserView { snapshot, selection: if snapshot.len() == 0 { None } else { Some(0) } }
}

/// The session after a key. `Up` and `Down` move the selection by one without
/// wrapping; `Delete` removes the selected clip and clamps the selection to
/// what is left; every other key leaves the session as it is.
pub open spec fn after_key(v: BrowserView, key: Key) -> BrowserView {
    match (key, v.selection) {
        (Key::Up, Some(i)) => BrowserView {
            snapshot: v.snapshot,
            selection: Some(if i >= 1 { i - 1 } else { 0 }),
        },
        (Key::Down, Some(i)) => BrowserView {
            snapshot: v.snapshot,
            selection: Some(if i + 1 <= v.snapshot.len() - 1 { i + 1 } else { v.snapshot.len() - 1 }),
        },
        (Key::Delete, Some(i)) => BrowserView {
            snapshot: v.snapshot.remove(i),
            selection: if v.snapshot.len() - 1 == 0 {
                None
            } else if i <= v.snapshot.len() - 2 {
                Some(i)
            } else {
                Some(v.snapshot.len() - 2)
            },
        },
        _ => v,
    }
}

/// What a key asks of the caller: `Esc` cancels; `Enter` and `Delete` name
/// the selected clip and are ignored when nothing is selected.
pub open spec fn action_for(v: BrowserView, key: Key) -> BrowserActionView {
    match (key, v.selection) {
        (Key::Esc, _) => BrowserActionView::Cancel,
        (Key::Enter, Some(i)) => BrowserActionView::Confirm(v.snapshot[i]),
        (Key::Delete, Some(i)) => BrowserActionView::Delete(v.snapshot[i]),
        _ => BrowserActionView::Stay,
    }
}

/// Index stability: a key other than `Delete` leaves every clip at its index,
/// and `Delete` leaves the clips before the selected one at theirs and moves
/// those behind it down by one. Every key keeps the session valid.
pub proof fn lemma_index_stability(v: BrowserView, key: Key)
    requires
        valid_session(v),
    ensures
        valid_session(after_key(v, key)),
        !(key is Delete) ==> after_key(v, key).snapshot == v.snapshot,
        key is Delete && v.selection is Some ==> {
            let sel = v.selection->Some_0;
            &&& after_key(v, key).snapshot.len() == v.snapshot.len() - 1
            &&& forall|i: int| 0 <= i < sel ==> #[trigger] after_key(v, key).snapshot[i] == v.snapshot[i]
            &&& forall|i: int|
                sel <= i < v.snapshot.len() - 1 ==> #[trigger] after_key(v, key).snapshot[i]
                    == v.snapshot[i + 1]
        },
{
}

/// The store after the caller did what a key asks of it: a delete removes
/// the named clip, anything else leaves the store as it was.
pub open spec fn store_after_key(v: BrowserView, store: Seq<Seq<char>>, key: Key) -> Seq<Seq<char>> {
    match action_for(v, key) {
        BrowserActionView::Delete(text) => delete_text(store, text),
        _ => store,
    }
}

/// A browser whose snapshot equals the store's list stays equal to it, key
/// after key, as long as nobody else writes to the store.
pub proof fn lemma_snapshot_follows_store(v: BrowserView, key: Key)
    requires
        valid_session(v),
        is_clip_set(v.snapshot),
    ensures
        after_key(v, key).snapshot == store_after_key(v, v.snapshot, key),
        is_clip_set(after_key(v, key).snapshot),
{
    if key is Delete && v.selection is Some {
        let i = v.selection->Some_0;
        lemma_delete_text(v.snapshot, v.snapshot[i]);
    }
}

/// One browser session: a snapshot of the store and the selection in it.
pub struct Browser {
    clips: Vec<String>,
    selected: Option<usize>,
}

impl View for Browser {
    type V = BrowserView;

    closed spec fn view(&self) -> BrowserView {
        BrowserView {
            snapshot: texts(self.clips@),
            selection: match self.selected {
                Some(i) => Some(i as int),
                None => None,
            },
        }
    }
}

impl Browser {
    /// The session's invariant, which `new` establishes and every key keeps.
    pub open spec fn well_formed(&self) -> bool {
        valid_session(self@)
    }

    /// Opens a session on `snapshot`, with the first clip selected if there
    /// is one.
    pub fn new(snapshot: Vec<String>) -> (browser: Self)
        ensures
            browser.well_formed(),
            browser@ == initial_session(texts(snapshot@)),
    {
        let selected = if snapshot.len() == 0 { None } else { Some(0usize) };
        Browser { clips: snapshot, selected }
    }

    /// Handles one key: updates snapshot and selection, and says what the
    /// caller has to do.
    pub fn handle_key(&mut self, key: Key) -> (action: BrowserAction)
        requires
            old(self).well_formed(),
        ensures
            final(self).well_formed(),
            final(self)@ == after_key(old(self)@, key),
            action@ == action_for(old(self)@, key),
            !(key is Delete) ==> final(self)@.snapshot == old(self)@.snapshot,
    {
        match key {
            Key::Esc => BrowserAction::Cancel,
            Key::Up => {
                match self.selected {
                    Some(i) => {
                        if i > 0 {
                            self.selected = Some(i - 1);
                        }
                    },
                    None => {},
                }
                BrowserAction::Stay
            },
            Key::Down => {
                match self.selected {
                    Some(i) => {
                        let count: usize = self.clips.len();
                        if i + 1 < count {
                            self.selected = Some(i + 1);
                        }
                    },
                    None => {},
                }
                BrowserAction::Stay
            },
            Key::Enter => {
                match self.selected {
                    Some(i) => BrowserAction::Confirm(self.clips[i].clone()),
                    None => BrowserAction::Stay,
                }
            },
            Key::Delete => {
                match self.selected {
                    Some(i) => {
                        assert(texts(self.clips@.remove(i as int)) =~= texts(self.clips@).remove(
                            i as int,
                        ));
                        let clip = self.clips.remove(i);
                        let left: usize = self.clips.len();
                        self.selected = if left == 0 {
                            None
                        } else if i < left {
                            Some(i)
                        } else {
                            Some(left - 1)
                        };
                        BrowserAction::Delete(clip)
                    },
                    None => BrowserAction::Stay,
                }
            },
            Key::Other => BrowserAction::Stay,
        }
    }

    /// Handles one key against a store held in memory: decides as
    /// `handle_key` does and carries out the delete it asks for.
    pub fn handle_key_on(&mut self, store: &mut ClipStore, key: Key) -> (action: BrowserAction)
        requires
            old(self).well_formed(),
            old(store).well_formed(),
        ensures
            final(self).well_formed(),
            final(store).well_formed(),
            final(self)@ == after_key(old(self)@, key),
            final(store)@ == store_after_key(old(self)@, old(store)@, key),
            action@ == action_for(old(self)@, key),
    {
        let action = self.handle_key(key);
        match &action {
            BrowserAction::Delete(text) => {
                let _ = store.delete(text.as_str());
            },
            _ => {},
        }
        action
    }

    /// The selected index, or `None` when the snapshot is empty.
    pub fn selected(&self) -> (r: Option<usize>)
        ensures
            match r {
                Some(i) => self@.selection == Some(i as int),
                None => self@.selection is None,
            },
    {
        self.selected
    }

    /// The clips of the snapshot, in order.
    pub fn snapshot(&self) -> (clips: &Vec<String>)
        ensures
            texts(clips@) == self@.snapshot,
    {
        &self.clips
    }

    /// The number of clips in the snapshot.
    pub fn len(&self) -> (n: usize)
        ensures
            n == self@.snapshot.len(),
    {
        self.clips.len()
    }
}

} // verus!
