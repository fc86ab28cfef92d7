use vstd::prelude::*;

use crate::selection::{select_winners, selection, winner_count};

verus! {

/// The two draws of a raffle: a rehearsal and the one that counts.
#[derive(Debug, Clone, Copy, PartialEq, Eq, Structural)]
pub enum Slot {
    Test,
    Final,
}

/// Everything a raffle keeps between calls.
pub struct State {
    pub participant_count: u32,
    pub admin: String,
    pub nois_proxy: String,
    pub test_randomness: Option<Vec<u8>>,
    pub final_randomness: Option<Vec<u8>>,
    pub test_winners: Option<Vec<u32>>,
    pub winners: Option<Vec<u32>>,
}

/// The abstract value of a `State`.
pub struct StateView {
    pub participant_count: u32,
    pub admin: Seq<char>,
    pub nois_proxy: Seq<char>,
    pub test_randomness: Option<Seq<u8>>,
    pub final_randomness: Option<Seq<u8>>,
    pub test_winners: Option<Seq<u32>>,
    pub winners: Option<Seq<u32>>,
}

pub open spec fn bytes_view(o: Option<Vec<u8>>) -> Option<Seq<u8>> {
    match o {
        Some(v) => Some(v@),
        None => None,
    }
}

pub open spec fn list_view(o: Option<Vec<u32>>) -> Option<Seq<u32>> {
    match o {
        Some(v) => Some(v@),
        None => None,
    }
}

impl View for State {
    type V = StateView;

    open spec fn view(&self) -> StateView {
        StateView {
            participant_count: self.participant_count,
            admin: self.admin@,
            nois_proxy: self.nois_proxy@,
            test_randomness: bytes_view(self.test_randomness),
            final_randomness: bytes_view(self.final_randomness),
            test_winners: list_view(self.test_winners),
            winners: list_view(self.winners),
        }
    }
}

/// A seed slot and its result slot agree: a seed has 32 bytes, and a result
/// exists only once its seed does, as the selection over that seed: a list of
/// `min(100, count)` distinct participants out of `1..=count`.
pub open spec fn slot_wf(seed: Option<Seq<u8>>, winners: Option<Seq<u32>>, count: u32) -> bool {
    &&& seed matches Some(s) ==> s.len() == 32
    &&& winners matches Some(w) ==> (seed matches Some(s) && w == selection(s, count))
    &&& winners matches Some(w) ==> winners_shape(w, count)
}

/// `w` holds `min(100, count)` distinct participants out of `1..=count`.
pub open spec fn winners_shape(w: Seq<u32>, count: u32) -> bool {
    &&& w.len() == winner_count(count)
    &&& w.no_duplicates()
    &&& forall|i: int| 0 <= i < w.len() ==> 1 <= #[trigger] w[i] <= count
}

impl StateView {
    pub open spec fn wf(self) -> bool {
        &&& self.participant_count >= 1
        &&& slot_wf(self.test_randomness, self.test_winners, self.participant_count)
        &&& slot_wf(self.final_randomness, self.winners, self.participant_count)
    }

    pub open spec fn seed(self, slot: Slot) -> Option<Seq<u8>> {
        match slot {
            Slot::Test => self.test_randomness,
            Slot::Final => self.final_randomness,
        }
    }

    pub open spec fn result(self, slot: Slot) -> Option<Seq<u32>> {
        match slot {
            Slot::Test => self.test_winners,
            Slot::Final => self.winners,
        }
    }

    pub open spec fn with_seed(self, slot: Slot, seed: Seq<u8>) -> StateView {
        match slot {
            Slot::Test => StateView { test_randomness: Some(seed), ..self },
            Slot::Final => StateView { final_randomness: Some(seed), ..self },
        }
    }

    pub open spec fn with_result(self, slot: Slot, winners: Seq<u32>) -> StateView {
        match slot {
            Slot::Test => StateView { test_winners: Some(winners), ..self },
            Slot::Final => StateView { winners: Some(winners), ..self },
        }
    }
}

fn same_list(a: &Vec<u32>, b: &Vec<u32>) -> (r: bool)
    ensures
        r == (a@ == b@),
{
    if a.len() != b.len() {
        return false;
    }
    let mut i: usize = 0;
    while i < a.len()
        invariant
            a@.len() == b@.len(),
            i <= a@.len(),
            forall|k: int| 0 <= k < i ==> a@[k] == b@[k],
        decreases a@.len() - i,
    {
        if a[i] != b[i] {
            return false;
        }
        i = i + 1;
    }
    assert(a@ =~= b@);
    true
}

fn slot_ok(seed: &Option<Vec<u8>>, winners: &Option<Vec<u32>>, count: u32) -> (r: bool)
    ensures
        r == slot_wf(bytes_view(*seed), list_view(*winners), count),
{
    match seed {
        None => winners.is_none(),
        Some(s) => {
            if s.len() != 32 {
                return false;
            }
            match winners {
                None => true,
                Some(w) => same_list(w, &select_winners(s, count)),
            }
        },
    }
}

impl State {
    /// Whether the state satisfies its invariant; a state read back from
    /// storage is checked with this before it is handed to an operation.
    pub fn is_well_formed(&self) -> (r: bool)
        ensures
            r == self@.wf(),
    {
        self.participant_count >= 1 && slot_ok(
            &self.test_randomness,
            &self.test_winners,
            self.participant_count,
        ) && slot_ok(&self.final_randomness, &self.winners, self.participant_count)
    }
}

} // verus!
