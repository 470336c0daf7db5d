//! The decisions of the periodic publication review. Listing the pending
//! tasks, fetching each publication and acknowledging it are remote calls
//! made around these decisions.
use vstd::prelude::*;

verus! {

/// How far back a publication must have last changed to be reviewed.
pub const REVIEW_DELAY_MS: i64 = 480000;

/// What to do with one pending publication.
#[derive(Debug, Clone, Copy, PartialEq, Eq)]
pub enum ReviewStep {
    /// Leave it for a later round: withdrawn, or changed too recently.
    Skip,
    /// Mark it published (status 1), then acknowledge the task.
    Publish,
    /// Already reviewed: only acknowledge the task.
    Acknowledge,
}

/// The step for a publication with this status and last update time.
pub open spec fn review_step_of(status: i8, updated_at: i64, cutoff: i64) -> ReviewStep {
    if status < 0 || updated_at > cutoff {
        ReviewStep::Skip
    } else if status == 0 {
        ReviewStep::Publish
    } else {
        ReviewStep::Acknowledge
    }
}

/// Chooses the step for a publication with this status and last update
/// time (ms), given the review cutoff (ms).
pub fn review_step(status: i8, updated_at: i64, cutoff: i64) -> (r: ReviewStep)
    ensures
        r == review_step_of(status, updated_at, cutoff),
{
    if status < 0 || updated_at > cutoff {
        ReviewStep::Skip
    } else if status == 0 {
        ReviewStep::Publish
    } else {
        ReviewStep::Acknowledge
    }
}

/// The cutoff of a review round started at `now_ms`: `REVIEW_DELAY_MS`
/// earlier, the time read as a signed number that saturates.
pub fn review_cutoff(now_ms: u64) -> (r: i64)
    ensures
        r == (if now_ms > i64::MAX as u64 {
            i64::MAX as int
        } else {
            now_ms as int
        }) - REVIEW_DELAY_MS,
{
    let now: i64 = if now_ms > i64::MAX as u64 {
        i64::MAX
    } else {
        now_ms as i64
    };
    now - REVIEW_DELAY_MS
}

/// The status a publication takes when a step is applied to it.
pub fn status_after(step: ReviewStep, status: i8) -> (r: i8)
    ensures
        r == (if step is Publish {
            1
        } else {
            status
        }),
{
    match step {
        ReviewStep::Publish => 1,
        _ => status,
    }
}

} // verus!
