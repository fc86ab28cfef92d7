use vstd::prelude::*;

verus! {

/// Parameters of a new raffle.
pub struct InstantiateMsg {
    pub participant_count: u32,
    pub nois_proxy_address: String,
}

/// What the randomness proxy hands back: the job the randomness belongs to and
/// its bytes.
pub struct RandomnessCallback {
    pub job_id: String,
    pub randomness: Vec<u8>,
}

/// The operations that change or act on a raffle.
pub enum ExecuteMsg {
    RequestRandomness { job_id: String, delay_in_mins: u64 },
    NoisReceive { callback: RandomnessCallback },
    PickTestWinners {},
    PickWinners {},
}

/// The read-only questions that a raffle answers.
#[derive(Debug, Clone, Copy, PartialEq, Eq, Structural)]
pub enum QueryMsg {
    ParticipantCount {},
    Winners {},
    Admin {},
    NoisProxy {},
    TestWinners {},
}

} // verus!
