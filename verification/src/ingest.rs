//! One-shot ingestion of a blob of text.

use crate::model::insert_text;
use crate::store::ClipStore;
use vstd::prelude::*;

verus! {

/// What to do with a blob that was read to its end.
#[derive(Debug, PartialEq, Eq)]
pub enum IngestPlan {
    /// The blob is empty: touch neither the store nor the clipboard.
    Skip,
    /// Insert this text into the store, then write it to the clipboard.
    Record(String),
}

/// An `IngestPlan` as a mathematical value.
pub ghost enum IngestPlanView {
    Skip,
    Record(Seq<char>),
}

impl View for IngestPlan {
    type V = IngestPlanView;

    open spec fn view(&self) -> IngestPlanView {
        match *self {
            IngestPlan::Skip => IngestPlanView::Skip,
            IngestPlan::Record(text) => IngestPlanView::Record(text@),
        }
    }
}

/// The plan for a blob: skip it when it holds nothing, otherwise record it
/// whole, with nothing trimmed.
pub open spec fn plan_for(input: Seq<char>) -> IngestPlanView {
    if input.len() == 0 {
        IngestPlanView::Skip
    } else {
        IngestPlanView::Record(input)
    }
}

/// Decides what to do with `input`.
pub fn plan_ingest(input: String) -> (plan: IngestPlan)
    ensures
        plan@ == plan_for(input@),
{
    if input.as_str().is_empty() {
        IngestPlan::Skip
    } else {
        IngestPlan::Record(input)
    }
}

/// Ingests `input` into a store held in memory and returns the plan, which
/// names the text that is still to be written to the clipboard.
pub fn ingest_into(store: &mut ClipStore, input: String) -> (plan: IngestPlan)
    requires
        old(store).well_formed(),
    ensures
        final(store).well_formed(),
        final(store)@ == insert_text(old(store)@, input@),
        plan@ == plan_for(input@),
{
    let plan = plan_ingest(input);
    match &plan {
        IngestPlan::Record(text) => {
            let _ = store.insert(text.as_str());
        },
        IngestPlan::Skip => {},
    }
    plan
}

} // verus!
