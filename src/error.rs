use vstd::prelude::*;

verus! {

/// Every way an operation of the raffle can fail.
#[derive(Debug, Clone, Copy, PartialEq, Eq, Structural)]
pub enum ContractError {
    Unauthorized {},
    InvalidProxyAddress {},
    InvalidParticipantCount {},
    InvalidRandomness {},
    WinnersAlreadyPicked {},
    TestWinnersAlreadyPicked {},
    TestRandomnessNotSet {},
    FinalRandomnessNotSet {},
    FinalRandomnessAlreadySet {},
    TestRandomnessAlreadySet {},
    NotFound {},
}

} // verus!
