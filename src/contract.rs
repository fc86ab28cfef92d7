use vstd::prelude::*;
use vstd::std_specs::iter::IteratorSpec;

use crate::error::ContractError;
use crate::msg::{ExecuteMsg, InstantiateMsg, QueryMsg, RandomnessCallback};
use crate::selection::{select_winners, selection};
use crate::state::{Slot, State, StateView};

verus! {

/// Nanoseconds in a minute.
pub const NANOS_PER_MINUTE: u64 = 60_000_000_000;

/// Whether `pat` occurs in `s` as a contiguous run.
pub open spec fn has_infix(s: Seq<char>, pat: Seq<char>) -> bool {
    exists|i: int| 0 <= i && i + pat.len() <= s.len() && #[trigger] s.subrange(i, i + pat.len()) == pat
}

/// The characters of `s`, in order.
fn chars_of(s: &str) -> (r: Vec<char>)
    ensures
        r@ == s@,
{
    broadcast use vstd::string::axiom_spec_iter, vstd::string::next_postcondition;

    let mut it = s.chars();
    let mut out: Vec<char> = Vec::new();
    loop
        invariant
            it.obeys_prophetic_iter_laws(),
            it.decrease() is Some,
            out@ + it.remaining() == s@,
        decreases it.decrease()->0,
    {
        match it.next() {
            Some(c) => {
                out.push(c);
            },
            None => {
                assert(out@ =~= s@);
                return out;
            },
        }
    }
}

/// Whether `pat` occurs in `s` starting at position `i`.
fn matches_at(s: &Vec<char>, pat: &Vec<char>, i: usize) -> (r: bool)
    requires
        i + pat@.len() <= s@.len(),
    ensures
        r == (s@.subrange(i as int, i + pat@.len()) == pat@),
{
    let slen: usize = s.len();
    let mut k: usize = 0;
    while k < pat.len()
        invariant
            slen == s@.len(),
            i + pat@.len() <= s@.len(),
            k <= pat@.len(),
            forall|m: int| 0 <= m < k ==> s@[i + m] == pat@[m],
        decreases pat@.len() - k,
    {
        if s[i + k] != pat[k] {
            assert(s@.subrange(i as int, i + pat@.len())[k as int] != pat@[k as int]);
            return false;
        }
        k = k + 1;
    }
    assert(s@.subrange(i as int, i + pat@.len()) =~= pat@);
    true
}

/// Whether `pat` occurs in `s` as a contiguous run.
fn contains_infix(s: &str, pat: &str) -> (r: bool)
    ensures
        r == has_infix(s@, pat@),
{
    let sc = chars_of(s);
    let pc = chars_of(pat);
    if pc.len() > sc.len() {
        return false;
    }
    let last: usize = sc.len() - pc.len();
    let mut i: usize = 0;
    while i < last
        invariant
            i <= last,
            last == sc@.len() - pc@.len(),
            sc@ == s@,
            pc@ == pat@,
            forall|j: int| 0 <= j < i ==> #[trigger] s@.subrange(j, j + pat@.len()) != pat@,
        decreases last - i,
    {
        if matches_at(&sc, &pc, i) {
            return true;
        }
        i = i + 1;
    }
    if matches_at(&sc, &pc, last) {
        return true;
    }
    assert forall|j: int| 0 <= j && j + pat@.len() <= s@.len() implies #[trigger] s@.subrange(
        j,
        j + pat@.len(),
    ) != pat@ by {
        assert(j <= last);
    }
    false
}

/// Relies on `cosmwasm_std::Timestamp::plus_minutes`: adds `minutes` minutes to
/// a point in time given in nanoseconds, and panics on overflow.
#[verifier::external_body]
fn plus_minutes(now_nanos: u64, minutes: u64) -> (r: u64)
    requires
        now_nanos + minutes * NANOS_PER_MINUTE <= u64::MAX,
    ensures
        r == now_nanos + minutes * NANOS_PER_MINUTE,
{
    cosmwasm_std::Timestamp::from_nanos(now_nanos).plus_minutes(minutes).nanos()
}

/// The slot that randomness for a job fills: the test slot when the job id
/// mentions "test", the final slot otherwise.
pub open spec fn slot_of_spec(job_id: Seq<char>) -> Slot {
    if has_infix(job_id, "test"@) {
        Slot::Test
    } else {
        Slot::Final
    }
}

pub fn slot_of(job_id: &String) -> (r: Slot)
    ensures
        r == slot_of_spec(job_id@),
{
    if contains_infix(job_id.as_str(), "test") {
        Slot::Test
    } else {
        Slot::Final
    }
}

/// The error for randomness delivered to a slot that already holds some.
pub open spec fn already_set_error(slot: Slot) -> ContractError {
    match slot {
        Slot::Test => ContractError::TestRandomnessAlreadySet {},
        Slot::Final => ContractError::FinalRandomnessAlreadySet {},
    }
}

/// The error for a draw on a slot whose randomness has not arrived.
pub open spec fn not_set_error(slot: Slot) -> ContractError {
    match slot {
        Slot::Test => ContractError::TestRandomnessNotSet {},
        Slot::Final => ContractError::FinalRandomnessNotSet {},
    }
}

/// The error for a second draw on a slot.
pub open spec fn already_picked_error(slot: Slot) -> ContractError {
    match slot {
        Slot::Test => ContractError::TestWinnersAlreadyPicked {},
        Slot::Final => ContractError::WinnersAlreadyPicked {},
    }
}

/// A new raffle: the proxy address as the address validator returned it
/// (`None` when it was rejected), the creator as administrator, and no
/// randomness or winners yet.
pub open spec fn instantiate_spec(
    sender: Seq<char>,
    participant_count: u32,
    validated_proxy: Option<Seq<char>>,
) -> Result<StateView, ContractError> {
    match validated_proxy {
        None => Err(ContractError::InvalidProxyAddress {}),
        Some(proxy) => if participant_count == 0 {
            Err(ContractError::InvalidParticipantCount {})
        } else {
            Ok(
                StateView {
                    participant_count,
                    admin: sender,
                    nois_proxy: proxy,
                    test_randomness: None,
                    final_randomness: None,
                    test_winners: None,
                    winners: None,
                },
            )
        },
    }
}

/// The message sent to the randomness proxy.
pub struct RandomnessRequest {
    pub proxy: String,
    pub job_id: String,
    pub after_nanos: u64,
}

pub struct RequestView {
    pub proxy: Seq<char>,
    pub job_id: Seq<char>,
    pub after_nanos: int,
}

impl View for RandomnessRequest {
    type V = RequestView;

    open spec fn view(&self) -> RequestView {
        RequestView { proxy: self.proxy@, job_id: self.job_id@, after_nanos: self.after_nanos as int }
    }
}

/// Only the administrator may request randomness; the request goes to the
/// proxy, for the given job, no earlier than `delay_in_mins` after now.
pub open spec fn request_spec(
    s: StateView,
    sender: Seq<char>,
    job_id: Seq<char>,
    delay_in_mins: u64,
    now_nanos: u64,
) -> Result<RequestView, ContractError> {
    if sender != s.admin {
        Err(ContractError::Unauthorized {})
    } else {
        Ok(
            RequestView {
                proxy: s.nois_proxy,
                job_id,
                after_nanos: now_nanos + delay_in_mins * NANOS_PER_MINUTE,
            },
        )
    }
}

/// Delivery of randomness: only the proxy may deliver, it must be 32 bytes,
/// and each slot takes randomness once.
pub open spec fn deliver_spec(
    s: StateView,
    sender: Seq<char>,
    job_id: Seq<char>,
    randomness: Seq<u8>,
) -> (Result<(), ContractError>, StateView) {
    let slot = slot_of_spec(job_id);
    if sender != s.nois_proxy {
        (Err(ContractError::Unauthorized {}), s)
    } else if randomness.len() != 32 {
        (Err(ContractError::InvalidRandomness {}), s)
    } else if s.seed(slot) is Some {
        (Err(already_set_error(slot)), s)
    } else {
        (Ok(()), s.with_seed(slot, randomness))
    }
}

/// The test draw: open to anyone, once, after the test randomness arrived.
pub open spec fn pick_test_spec(s: StateView) -> (Result<Seq<u32>, ContractError>, StateView) {
    match s.test_randomness {
        None => (Err(ContractError::TestRandomnessNotSet {}), s),
        Some(seed) => if s.test_winners is Some {
            (Err(ContractError::TestWinnersAlreadyPicked {}), s)
        } else {
            let w = selection(seed, s.participant_count);
            (Ok(w), s.with_result(Slot::Test, w))
        },
    }
}

/// The final draw: by the administrator only, once, after the final
/// randomness arrived.
pub open spec fn pick_final_spec(s: StateView, sender: Seq<char>) -> (
    Result<Seq<u32>, ContractError>,
    StateView,
) {
    if sender != s.admin {
        (Err(ContractError::Unauthorized {}), s)
    } else if s.winners is Some {
        (Err(ContractError::WinnersAlreadyPicked {}), s)
    } else {
        match s.final_randomness {
            None => (Err(ContractError::FinalRandomnessNotSet {}), s),
            Some(seed) => {
                let w = selection(seed, s.participant_count);
                (Ok(w), s.with_result(Slot::Final, w))
            },
        }
    }
}

/// The draw on a slot, as `sender` asks for it.
pub open spec fn pick_spec(s: StateView, slot: Slot, sender: Seq<char>) -> (
    Result<Seq<u32>, ContractError>,
    StateView,
) {
    match slot {
        Slot::Test => pick_test_spec(s),
        Slot::Final => pick_final_spec(s, sender),
    }
}

pub open spec fn list_result(r: Result<Vec<u32>, ContractError>) -> Result<Seq<u32>, ContractError> {
    match r {
        Ok(v) => Ok(v@),
        Err(e) => Err(e),
    }
}

pub open spec fn state_result(r: Result<State, ContractError>) -> Result<StateView, ContractError> {
    match r {
        Ok(s) => Ok(s@),
        Err(e) => Err(e),
    }
}

pub open spec fn request_result(r: Result<RandomnessRequest, ContractError>) -> Result<
    RequestView,
    ContractError,
> {
    match r {
        Ok(q) => Ok(q@),
        Err(e) => Err(e),
    }
}

pub open spec fn string_option(o: Option<String>) -> Option<Seq<char>> {
    match o {
        Some(s) => Some(s@),
        None => None,
    }
}

/// Sets up a raffle. `validated_proxy` is what the host's address validation
/// made of `msg.nois_proxy_address`, or `None` if it refused it.
pub fn instantiate(sender: String, msg: InstantiateMsg, validated_proxy: Option<String>) -> (r:
    Result<State, ContractError>)
    ensures
        state_result(r) == instantiate_spec(
            sender@,
            msg.participant_count,
            string_option(validated_proxy),
        ),
        r matches Ok(s) ==> s@.wf(),
{
    let proxy = match validated_proxy {
        None => {
            return Err(ContractError::InvalidProxyAddress {});
        },
        Some(p) => p,
    };
    if msg.participant_count == 0 {
        return Err(ContractError::InvalidParticipantCount {});
    }
    Ok(
        State {
            participant_count: msg.participant_count,
            admin: sender,
            nois_proxy: proxy,
            test_randomness: None,
            final_randomness: None,
            test_winners: None,
            winners: None,
        },
    )
}

/// Asks the randomness proxy for randomness for `job_id`, to be published no
/// earlier than `delay_in_mins` minutes after `now_nanos`. Changes nothing.
pub fn execute_request_randomness(
    state: &State,
    sender: &String,
    job_id: String,
    delay_in_mins: u64,
    now_nanos: u64,
) -> (r: Result<RandomnessRequest, ContractError>)
    requires
        sender@ == state@.admin ==> now_nanos + delay_in_mins * NANOS_PER_MINUTE <= u64::MAX,
    ensures
        request_result(r) == request_spec(state@, sender@, job_id@, delay_in_mins, now_nanos),
{
    if !(*sender == state.admin) {
        return Err(ContractError::Unauthorized {});
    }
    let after_nanos = plus_minutes(now_nanos, delay_in_mins);
    Ok(RandomnessRequest { proxy: state.nois_proxy.clone(), job_id, after_nanos })
}

/// Stores randomness that the proxy delivered, in the slot its job id selects.
pub fn execute_set_randomness(
    state: &mut State,
    sender: &String,
    callback: RandomnessCallback,
) -> (r: Result<(), ContractError>)
    requires
        old(state)@.wf(),
    ensures
        (r, final(state)@) == deliver_spec(
            old(state)@,
            sender@,
            callback.job_id@,
            callback.randomness@,
        ),
        final(state)@.wf(),
{
    if !(*sender == state.nois_proxy) {
        return Err(ContractError::Unauthorized {});
    }
    let RandomnessCallback { job_id, randomness } = callback;
    if randomness.len() != 32 {
        return Err(ContractError::InvalidRandomness {});
    }
    match slot_of(&job_id) {
        Slot::Test => {
            if state.test_randomness.is_some() {
                return Err(ContractError::TestRandomnessAlreadySet {});
            }
            state.test_randomness = Some(randomness);
        },
        Slot::Final => {
            if state.final_randomness.is_some() {
                return Err(ContractError::FinalRandomnessAlreadySet {});
            }
            state.final_randomness = Some(randomness);
        },
    }
    Ok(())
}

/// Draws the test winners from the test randomness and keeps them.
pub fn pick_test_winners(state: &mut State) -> (r: Result<Vec<u32>, ContractError>)
    requires
        old(state)@.wf(),
    ensures
        (list_result(r), final(state)@) == pick_test_spec(old(state)@),
        final(state)@.wf(),
{
    let winners = match &state.test_randomness {
        None => {
            return Err(ContractError::TestRandomnessNotSet {});
        },
        Some(seed) => {
            if state.test_winners.is_some() {
                return Err(ContractError::TestWinnersAlreadyPicked {});
            }
            select_winners(seed, state.participant_count)
        },
    };
    state.test_winners = Some(winners.clone());
    Ok(winners)
}

/// Draws the final winners from the final randomness and keeps them.
pub fn pick_winners(state: &mut State, sender: &String) -> (r: Result<Vec<u32>, ContractError>)
    requires
        old(state)@.wf(),
    ensures
        (list_result(r), final(state)@) == pick_final_spec(old(state)@, sender@),
        final(state)@.wf(),
{
    if !(*sender == state.admin) {
        return Err(ContractError::Unauthorized {});
    }
    if state.winners.is_some() {
        return Err(ContractError::WinnersAlreadyPicked {});
    }
    let winners = match &state.final_randomness {
        None => {
            return Err(ContractError::FinalRandomnessNotSet {});
        },
        Some(seed) => select_winners(seed, state.participant_count),
    };
    state.winners = Some(winners.clone());
    Ok(winners)
}

/// The answer to a query.
pub enum QueryAnswer {
    ParticipantCount(u32),
    Winners(Vec<u32>),
    Admin(String),
    NoisProxy(String),
    TestWinners(Vec<u32>),
}

/// The abstract value of a `QueryAnswer`.
pub enum AnswerView {
    ParticipantCount(u32),
    Winners(Seq<u32>),
    Admin(Seq<char>),
    NoisProxy(Seq<char>),
    TestWinners(Seq<u32>),
}

impl View for QueryAnswer {
    type V = AnswerView;

    open spec fn view(&self) -> AnswerView {
        match self {
            QueryAnswer::ParticipantCount(c) => AnswerView::ParticipantCount(*c),
            QueryAnswer::Winners(w) => AnswerView::Winners(w@),
            QueryAnswer::Admin(a) => AnswerView::Admin(a@),
            QueryAnswer::NoisProxy(p) => AnswerView::NoisProxy(p@),
            QueryAnswer::TestWinners(w) => AnswerView::TestWinners(w@),
        }
    }
}

/// The configuration is always there; a list of winners only once drawn.
pub open spec fn query_spec(s: StateView, msg: QueryMsg) -> Result<AnswerView, ContractError> {
    match msg {
        QueryMsg::ParticipantCount {} => Ok(AnswerView::ParticipantCount(s.participant_count)),
        QueryMsg::Admin {} => Ok(AnswerView::Admin(s.admin)),
        QueryMsg::NoisProxy {} => Ok(AnswerView::NoisProxy(s.nois_proxy)),
        QueryMsg::Winners {} => match s.winners {
            Some(w) => Ok(AnswerView::Winners(w)),
            None => Err(ContractError::NotFound {}),
        },
        QueryMsg::TestWinners {} => match s.test_winners {
            Some(w) => Ok(AnswerView::TestWinners(w)),
            None => Err(ContractError::NotFound {}),
        },
    }
}

pub open spec fn answer_result(r: Result<QueryAnswer, ContractError>) -> Result<
    AnswerView,
    ContractError,
> {
    match r {
        Ok(a) => Ok(a@),
        Err(e) => Err(e),
    }
}

/// Reads one value of the raffle.
pub fn query(state: &State, msg: QueryMsg) -> (r: Result<QueryAnswer, ContractError>)
    ensures
        answer_result(r) == query_spec(state@, msg),
{
    match msg {
        QueryMsg::ParticipantCount {} => Ok(QueryAnswer::ParticipantCount(state.participant_count)),
        QueryMsg::Admin {} => Ok(QueryAnswer::Admin(state.admin.clone())),
        QueryMsg::NoisProxy {} => Ok(QueryAnswer::NoisProxy(state.nois_proxy.clone())),
        QueryMsg::Winners {} => match &state.winners {
            Some(w) => Ok(QueryAnswer::Winners(w.clone())),
            None => Err(ContractError::NotFound {}),
        },
        QueryMsg::TestWinners {} => match &state.test_winners {
            Some(w) => Ok(QueryAnswer::TestWinners(w.clone())),
            None => Err(ContractError::NotFound {}),
        },
    }
}

/// What an operation hands back to the host.
pub enum ExecuteOutcome {
    Requested(RandomnessRequest),
    RandomnessStored,
    TestWinnersPicked(Vec<u32>),
    WinnersPicked(Vec<u32>),
}

/// Whether `r` and the new state `s1` are what `msg` from `sender` does to `s`.
pub open spec fn execute_spec(
    s: StateView,
    sender: Seq<char>,
    msg: ExecuteMsg,
    now_nanos: u64,
    r: Result<ExecuteOutcome, ContractError>,
    s1: StateView,
) -> bool {
    match msg {
        ExecuteMsg::RequestRandomness { job_id, delay_in_mins } => {
            &&& s1 == s
            &&& match request_spec(s, sender, job_id@, delay_in_mins, now_nanos) {
                Ok(q) => r matches Ok(ExecuteOutcome::Requested(x)) && x@ == q,
                Err(e) => r == Err::<ExecuteOutcome, ContractError>(e),
            }
        },
        ExecuteMsg::NoisReceive { callback } => {
            let (d, t) = deliver_spec(s, sender, callback.job_id@, callback.randomness@);
            &&& s1 == t
            &&& match d {
                Ok(_) => r matches Ok(ExecuteOutcome::RandomnessStored),
                Err(e) => r == Err::<ExecuteOutcome, ContractError>(e),
            }
        },
        ExecuteMsg::PickTestWinners {} => {
            let (d, t) = pick_test_spec(s);
            &&& s1 == t
            &&& match d {
                Ok(w) => r matches Ok(ExecuteOutcome::TestWinnersPicked(v)) && v@ == w,
                Err(e) => r == Err::<ExecuteOutcome, ContractError>(e),
            }
        },
        ExecuteMsg::PickWinners {} => {
            let (d, t) = pick_final_spec(s, sender);
            &&& s1 == t
            &&& match d {
                Ok(w) => r matches Ok(ExecuteOutcome::WinnersPicked(v)) && v@ == w,
                Err(e) => r == Err::<ExecuteOutcome, ContractError>(e),
            }
        },
    }
}

/// Whether a request by `sender` made now with this message would fit the
/// clock's range; only the administrator's requests get as far as the clock.
pub open spec fn request_fits(s: StateView, sender: Seq<char>, msg: ExecuteMsg, now_nanos: u64) -> bool {
    match msg {
        ExecuteMsg::RequestRandomness { delay_in_mins, .. } => sender == s.admin ==> now_nanos
            + delay_in_mins * NANOS_PER_MINUTE <= u64::MAX,
        _ => true,
    }
}

/// Runs one operation of the raffle on behalf of `sender` at time `now_nanos`.
pub fn execute(state: &mut State, sender: &String, now_nanos: u64, msg: ExecuteMsg) -> (r: Result<
    ExecuteOutcome,
    ContractError,
>)
    requires
        old(state)@.wf(),
        request_fits(old(state)@, sender@, msg, now_nanos),
    ensures
        execute_spec(old(state)@, sender@, msg, now_nanos, r, final(state)@),
        final(state)@.wf(),
{
    match msg {
        ExecuteMsg::RequestRandomness { job_id, delay_in_mins } => {
            match execute_request_randomness(state, sender, job_id, delay_in_mins, now_nanos) {
                Ok(q) => Ok(ExecuteOutcome::Requested(q)),
                Err(e) => Err(e),
            }
        },
        ExecuteMsg::NoisReceive { callback } => match execute_set_randomness(
            state,
            sender,
            callback,
        ) {
            Ok(()) => Ok(ExecuteOutcome::RandomnessStored),
            Err(e) => Err(e),
        },
        ExecuteMsg::PickTestWinners {} => match pick_test_winners(state) {
            Ok(w) => Ok(ExecuteOutcome::TestWinnersPicked(w)),
            Err(e) => Err(e),
        },
        ExecuteMsg::PickWinners {} => match pick_winners(state, sender) {
            Ok(w) => Ok(ExecuteOutcome::WinnersPicked(w)),
            Err(e) => Err(e),
        },
    }
}

} // verus!
