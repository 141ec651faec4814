//! The download dispatcher's per-job decision, and the isolation law for
//! failed fetches.

use vstd::prelude::*;
use crate::flatten::Message;

verus! {

/// One materialization job: the fetched raw bytes and the path the
/// re-encoded PNG is to be written to. Consumed exactly once by one pool
/// worker.
#[derive(Debug)]
pub struct MaterializationJob {
    pub raw_bytes: Vec<u8>,
    pub save_path: String,
}

/// Decides what one finished fetch contributes: a successful fetch hands
/// its bytes on to materialization at the job's own path; a failed fetch
/// is dropped — logged by the caller — and contributes nothing.
pub fn handle_fetch(job: Message, body: Option<Vec<u8>>) -> (r: Option<MaterializationJob>)
    ensures
        r is Some <==> body is Some,
        r matches Some(m) ==> (body matches Some(b) && m.raw_bytes@ == b@ && m.save_path@
            == job.save_path@),
{
    match body {
        Some(b) => Some(MaterializationJob { raw_bytes: b, save_path: job.save_path }),
        None => None,
    }
}

/// The set of job positions whose images reach materialization, given
/// each fetch's outcome.
pub open spec fn materialized_positions(outcomes: Seq<Option<Seq<u8>>>) -> Set<int> {
    Set::new(|j: int| 0 <= j < outcomes.len() && outcomes[j] is Some)
}

/// A failed fetch is isolated: it neither blocks nor aborts the other
/// fetches of the chapter, so every position with a successful outcome is
/// still materialized and the chapter ends up missing only the failed
/// position's own numbered file.
pub proof fn lemma_failed_fetch_isolated(outcomes: Seq<Option<Seq<u8>>>, failed: int, j: int)
    requires
        0 <= failed < outcomes.len(),
        0 <= j < outcomes.len(),
        j != failed,
        outcomes[failed] is None,
        outcomes[j] is Some,
    ensures
        materialized_positions(outcomes).contains(j),
        !materialized_positions(outcomes).contains(failed),
{
}

/// Whether one position is materialized depends on its own outcome alone:
/// changing any other position's outcome leaves it untouched.
pub proof fn lemma_fetch_outcome_local(
    outcomes: Seq<Option<Seq<u8>>>,
    p: int,
    o: Option<Seq<u8>>,
    j: int,
)
    requires
        0 <= p < outcomes.len(),
        0 <= j < outcomes.len(),
        j != p,
    ensures
        materialized_positions(outcomes.update(p, o)).contains(j) == materialized_positions(
            outcomes,
        ).contains(j),
{
}

} // verus!
