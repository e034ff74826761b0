//! The clipboard monitor's decisions: one tick per poll of the clipboard.

use crate::model::{holds_once, insert_text, is_clip_set, lemma_insert_text};
use crate::store::ClipStore;
use vstd::prelude::*;

verus! {

/// The time between two polls of the clipboard, in milliseconds, unless the
/// caller is configured otherwise.
pub const DEFAULT_TICK_MS: u64 = 1000;

/// What one poll of the clipboard gave.
#[derive(Debug, PartialEq, Eq)]
pub enum ClipboardRead {
    /// The clipboard holds this text; empty when it holds nothing.
    Text(String),
    /// The clipboard could not be read.
    Unavailable,
}

/// A `ClipboardRead` as a mathematical value.
pub ghost enum ReadView {
    Text(Seq<char>),
    Unavailable,
}

impl View for ClipboardRead {
    type V = ReadView;

    open spec fn view(&self) -> ReadView {
        match *self {
            ClipboardRead::Text(text) => ReadView::Text(text@),
            ClipboardRead::Unavailable => ReadView::Unavailable,
        }
    }
}

/// What the caller has to do before it sleeps until the next tick.
#[derive(Debug, PartialEq, Eq)]
pub enum MonitorAction {
    /// Insert `text` into the store. Then, if `reassert` is set, write it
    /// back to the clipboard so that it outlives the program it came from.
    Record { text: String, reassert: bool },
    /// Nothing.
    Idle,
}

/// A `MonitorAction` as a mathematical value.
pub ghost enum MonitorActionView {
    Record { text: Seq<char>, reassert: bool },
    Idle,
}

impl View for MonitorAction {
    type V = MonitorActionView;

    open spec fn view(&self) -> MonitorActionView {
        match *self {
            MonitorAction::Record { text, reassert } => MonitorActionView::Record {
                text: text@,
                reassert,
            },
            MonitorAction::Idle => MonitorActionView::Idle,
        }
    }
}

/// The clipboard changed: it was read, is not empty, and differs from what
/// was seen last.
pub open spec fn is_change(last_seen: Option<Seq<char>>, read: ReadView) -> bool {
    match read {
        ReadView::Text(current) => current.len() > 0 && last_seen != Some(current),
        ReadView::Unavailable => false,
    }
}

/// What was seen last, after a tick.
pub open spec fn after_tick(last_seen: Option<Seq<char>>, read: ReadView) -> Option<Seq<char>> {
    if is_change(last_seen, read) {
        Some(read->Text_0)
    } else {
        last_seen
    }
}

/// What a tick asks of the caller. `reassert` says whether the clipboard is
/// one whose content lives with the program that set it.
pub open spec fn tick_action(
    last_seen: Option<Seq<char>>,
    read: ReadView,
    reassert: bool,
) -> MonitorActionView {
    if is_change(last_seen, read) {
        MonitorActionView::Record { text: read->Text_0, reassert }
    } else {
        MonitorActionView::Idle
    }
}

/// The store after one tick: a change is inserted, anything else leaves the
/// store as it was.
pub open spec fn store_after_tick(
    last_seen: Option<Seq<char>>,
    store: Seq<Seq<char>>,
    read: ReadView,
) -> Seq<Seq<char>> {
    if is_change(last_seen, read) {
        insert_text(store, read->Text_0)
    } else {
        store
    }
}

/// What was seen last and the store, after one tick for each of `reads`.
pub open spec fn run_ticks(
    last_seen: Option<Seq<char>>,
    store: Seq<Seq<char>>,
    reads: Seq<ReadView>,
) -> (Option<Seq<char>>, Seq<Seq<char>>)
    decreases reads.len(),
{
    if reads.len() == 0 {
        (last_seen, store)
    } else {
        let before = run_ticks(last_seen, store, reads.drop_last());
        (after_tick(before.0, reads.last()), store_after_tick(before.0, before.1, reads.last()))
    }
}

/// `n` polls that all read the text `v`.
pub open spec fn constant_reads(v: Seq<char>, n: nat) -> Seq<ReadView> {
    Seq::new(n, |i: int| ReadView::Text(v))
}

/// Whatever the clipboard gives over any number of ticks, the store stays a
/// clip set and loses no clip.
pub proof fn lemma_run_ticks_keeps_set(
    last_seen: Option<Seq<char>>,
    store: Seq<Seq<char>>,
    reads: Seq<ReadView>,
)
    requires
        is_clip_set(store),
    ensures
        is_clip_set(run_ticks(last_seen, store, reads).1),
        forall|y: Seq<char>|
            store.contains(y) ==> #[trigger] run_ticks(last_seen, store, reads).1.contains(y),
    decreases reads.len(),
{
    if reads.len() > 0 {
        lemma_run_ticks_keeps_set(last_seen, store, reads.drop_last());
        let before = run_ticks(last_seen, store, reads.drop_last());
        if is_change(before.0, reads.last()) {
            lemma_insert_text(before.1, reads.last()->Text_0);
        }
    }
}

/// A change is recorded: after a tick that reads a non-empty text other than
/// the one seen last, the store holds that text exactly once and the monitor
/// remembers it.
pub proof fn lemma_change_is_recorded(
    last_seen: Option<Seq<char>>,
    store: Seq<Seq<char>>,
    text: Seq<char>,
)
    requires
        is_clip_set(store),
        text.len() > 0,
        last_seen != Some(text),
    ensures
        store_after_tick(last_seen, store, ReadView::Text(text)) == insert_text(store, text),
        holds_once(store_after_tick(last_seen, store, ReadView::Text(text)), text),
        after_tick(last_seen, ReadView::Text(text)) == Some(text),
{
    lemma_insert_text(store, text);
}

/// Dedup across ticks: a monitor that starts fresh and reads the same text on
/// each of one or more ticks leaves the store as one insert of that text
/// does, so a non-empty text stands in it exactly once, and an empty one is
/// never recorded.
pub proof fn lemma_constant_clipboard(store: Seq<Seq<char>>, v: Seq<char>, n: nat)
    requires
        is_clip_set(store),
        n >= 1,
    ensures
        run_ticks(None, store, constant_reads(v, n)).1 == insert_text(store, v),
        run_ticks(None, store, constant_reads(v, n)).0 == (if v.len() > 0 {
            Some(v)
        } else {
            None
        }),
        v.len() > 0 ==> holds_once(run_ticks(None, store, constant_reads(v, n)).1, v),
    decreases n,
{
    let reads = constant_reads(v, n);
    assert(reads.drop_last() =~= constant_reads(v, (n - 1) as nat));
    assert(reads.last() == ReadView::Text(v));
    lemma_insert_text(store, v);
    if n == 1 {
        assert(run_ticks(None, store, reads.drop_last()) == (None::<Seq<char>>, store));
    } else {
        lemma_constant_clipboard(store, v, (n - 1) as nat);
    }
}

/// The monitor's memory: the text it recorded last, if any.
pub struct Monitor {
    last_seen: Option<String>,
    reassert: bool,
}

impl View for Monitor {
    type V = Option<Seq<char>>;

    closed spec fn view(&self) -> Option<Seq<char>> {
        match self.last_seen {
            Some(text) => Some(text@),
            None => None,
        }
    }
}

impl Monitor {
    /// Whether recorded text is written back to the clipboard.
    pub closed spec fn reasserts(&self) -> bool {
        self.reassert
    }

    /// A monitor that has seen nothing yet. `reassert` is the clipboard's
    /// own word on whether its content lives with the program that set it.
    pub fn new(reassert: bool) -> (monitor: Self)
        ensures
            monitor@ is None,
            monitor.reasserts() == reassert,
    {
        Monitor { last_seen: None, reassert }
    }

    /// One tick: compares what the clipboard gave with what was seen last.
    /// A failed read and an empty clipboard count as no change.
    pub fn tick(&mut self, read: ClipboardRead) -> (action: MonitorAction)
        ensures
            final(self)@ == after_tick(old(self)@, read@),
            final(self).reasserts() == old(self).reasserts(),
            action@ == tick_action(old(self)@, read@, old(self).reasserts()),
    {
        match read {
            ClipboardRead::Text(current) => {
                if current.as_str().is_empty() {
                    return MonitorAction::Idle;
                }
                let same = match &self.last_seen {
                    Some(previous) => *previous == current,
                    None => false,
                };
                if same {
                    MonitorAction::Idle
                } else {
                    self.last_seen = Some(current.clone());
                    MonitorAction::Record { text: current, reassert: self.reassert }
                }
            },
            ClipboardRead::Unavailable => MonitorAction::Idle,
        }
    }

    /// One tick against a store held in memory: decides as `tick` does and
    /// inserts what is to be recorded.
    pub fn tick_on(&mut self, store: &mut ClipStore, read: ClipboardRead) -> (action: MonitorAction)
        requires
            old(store).well_formed(),
        ensures
            final(store).well_formed(),
            final(store)@ == store_after_tick(old(self)@, old(store)@, read@),
            final(self)@ == after_tick(old(self)@, read@),
            final(self).reasserts() == old(self).reasserts(),
            action@ == tick_action(old(self)@, read@, old(self).reasserts()),
    {
        let action = self.tick(read);
        match &action {
            MonitorAction::Record { text, reassert: _ } => {
                let _ = store.insert(text.as_str());
            },
            MonitorAction::Idle => {},
        }
        action
    }

    /// The text recorded last, if any.
    pub fn last_seen(&self) -> (r: Option<&String>)
        ensures
            match r {
                Some(text) => self@ == Some(text@),
                None => self@ is None,
            },
    {
        self.last_seen.as_ref()
    }
}

} // verus!
