use vstd::prelude::*;

use crate::contract::{
    already_picked_error, already_set_error, deliver_spec, not_set_error, pick_spec, request_spec,
    slot_of_spec, execute_spec, ExecuteOutcome, RequestView,
};
use crate::error::ContractError;
use crate::msg::ExecuteMsg;
use crate::selection::selection;
use crate::state::{Slot, StateView};

verus! {

/// Randomness is written once per slot: after a delivery succeeded, every
/// later delivery by the proxy of 32 bytes to the same slot fails with the
/// slot's "already set" error, whatever those bytes, and the first randomness
/// stays. (Bytes of another length are refused as invalid before that.)
pub proof fn lemma_seed_written_once(
    s: StateView,
    sender: Seq<char>,
    job_id: Seq<char>,
    seed: Seq<u8>,
    job_id2: Seq<char>,
    seed2: Seq<u8>,
)
    requires
        s.wf(),
        deliver_spec(s, sender, job_id, seed).0 is Ok,
        slot_of_spec(job_id2) == slot_of_spec(job_id),
        seed2.len() == 32,
    ensures
        ({
            let slot = slot_of_spec(job_id);
            let s1 = deliver_spec(s, sender, job_id, seed).1;
            &&& s1.wf()
            &&& s1.seed(slot) == Some(seed)
            &&& deliver_spec(s1, s.nois_proxy, job_id2, seed2) == (
                Err::<(), ContractError>(already_set_error(slot)),
                s1,
            )
        }),
{
}

/// A draw needs its randomness and runs once: before the slot's randomness is
/// delivered the draw fails with the slot's "not set" error and changes
/// nothing; after delivery the draw succeeds with the selection over that
/// randomness; a second draw fails with the slot's "already picked" error and
/// leaves the first winners in place.
pub proof fn lemma_draw_needs_seed_and_runs_once(
    s: StateView,
    slot: Slot,
    sender: Seq<char>,
    job_id: Seq<char>,
    seed: Seq<u8>,
)
    requires
        s.wf(),
        s.seed(slot) is None,
        sender == s.admin,
        slot_of_spec(job_id) == slot,
        seed.len() == 32,
    ensures
        pick_spec(s, slot, sender) == (Err::<Seq<u32>, ContractError>(not_set_error(slot)), s),
        ({
            let d = deliver_spec(s, s.nois_proxy, job_id, seed);
            let p = pick_spec(d.1, slot, sender);
            let w = selection(seed, s.participant_count);
            &&& d.0 is Ok
            &&& p.0 == Ok::<Seq<u32>, ContractError>(w)
            &&& p.1.result(slot) == Some(w)
            &&& pick_spec(p.1, slot, sender) == (
                Err::<Seq<u32>, ContractError>(already_picked_error(slot)),
                p.1,
            )
        }),
{
}

/// Only the administrator requests randomness, and only the proxy delivers
/// it: anyone else gets `Unauthorized`, no request, and an unchanged state.
pub proof fn lemma_only_authorized_callers(
    s: StateView,
    sender: Seq<char>,
    job_id: Seq<char>,
    delay_in_mins: u64,
    now_nanos: u64,
    randomness: Seq<u8>,
)
    ensures
        sender != s.admin ==> request_spec(s, sender, job_id, delay_in_mins, now_nanos) == Err::<
            RequestView,
            ContractError,
        >(ContractError::Unauthorized {}),
        sender != s.nois_proxy ==> deliver_spec(s, sender, job_id, randomness) == (
            Err::<(), ContractError>(ContractError::Unauthorized {}),
            s,
        ),
{
}

/// Every operation keeps the configuration fixed, never overwrites a filled
/// seed or winner slot, and changes nothing when it fails.
pub proof fn lemma_execute_keeps_configuration_and_slots(
    s: StateView,
    sender: Seq<char>,
    msg: ExecuteMsg,
    now_nanos: u64,
    r: Result<ExecuteOutcome, ContractError>,
    s1: StateView,
)
    requires
        s.wf(),
        execute_spec(s, sender, msg, now_nanos, r, s1),
    ensures
        s1.participant_count == s.participant_count,
        s1.admin == s.admin,
        s1.nois_proxy == s.nois_proxy,
        forall|slot: Slot| #[trigger] s.seed(slot) is Some ==> s1.seed(slot) == s.seed(slot),
        forall|slot: Slot| #[trigger] s.result(slot) is Some ==> s1.result(slot) == s.result(slot),
        r is Err ==> s1 == s,
{
}

} // verus!
