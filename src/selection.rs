use vstd::prelude::*;

verus! {

/// How many winners a draw picks at most.
pub const MAX_WINNERS: u32 = 100;

/// What `nois::pick` returns for the given randomness, count and input list,
/// on a target whose `usize` has `word_bits` bits: its index draws read 32 or
/// 64 bits of the generator's output according to the word size.
pub uninterp spec fn picked(randomness: Seq<u8>, n: nat, data: Seq<u32>, word_bits: nat) -> Seq<u32>;

/// The participants of a raffle of `count`: the numbers `1..=count`, in order.
pub open spec fn participants_seq(count: u32) -> Seq<u32> {
    Seq::new(count as nat, |k: int| (k + 1) as u32)
}

/// The number of winners drawn from `count` participants.
pub open spec fn winner_count(count: u32) -> nat {
    if count < MAX_WINNERS {
        count as nat
    } else {
        MAX_WINNERS as nat
    }
}

/// The winners that a draw with `seed` picks from `count` participants on
/// this target.
pub open spec fn selection(seed: Seq<u8>, count: u32) -> Seq<u32> {
    picked(seed, winner_count(count), participants_seq(count), usize::BITS as nat)
}

/// Relies on `nois::pick`: it panics when `n` exceeds the input length, and
/// otherwise swaps elements of the input in place and splits off the last `n`,
/// so the result holds `n` of the input's elements.
#[verifier::external_body]
fn pick_from(randomness: &Vec<u8>, n: usize, data: Vec<u32>) -> (r: Vec<u32>)
    requires
        randomness@.len() == 32,
        n <= data@.len(),
    ensures
        r@ == picked(randomness@, n as nat, data@, usize::BITS as nat),
        r@.len() == n,
        r@.to_multiset().subset_of(data@.to_multiset()),
{
    let seed: [u8; 32] = randomness.as_slice().try_into().unwrap();
    nois::pick(seed, n, data)
}

/// The list `1..=count`.
pub fn participants(count: u32) -> (r: Vec<u32>)
    ensures
        r@ == participants_seq(count),
{
    let mut v: Vec<u32> = Vec::new();
    let mut i: u32 = 0;
    while i < count
        invariant
            i <= count,
            v@.len() == i,
            forall|k: int| 0 <= k < i ==> v@[k] == k + 1,
        decreases count - i,
    {
        v.push(i + 1);
        i = i + 1;
    }
    assert(v@ =~= participants_seq(count));
    v
}

proof fn lemma_participants_distinct(count: u32)
    ensures
        participants_seq(count).no_duplicates(),
{
}

/// Draws the winners among participants `1..=participant_count` from a
/// 32-byte seed: `min(100, participant_count)` distinct participants.
pub fn select_winners(randomness: &Vec<u8>, participant_count: u32) -> (r: Vec<u32>)
    requires
        randomness@.len() == 32,
    ensures
        r@ == selection(randomness@, participant_count),
        r@.len() == winner_count(participant_count),
        r@.no_duplicates(),
        forall|i: int| 0 <= i < r@.len() ==> 1 <= #[trigger] r@[i] <= participant_count,
{
    let data = participants(participant_count);
    let n: usize = if participant_count < MAX_WINNERS {
        participant_count as usize
    } else {
        MAX_WINNERS as usize
    };
    let ghost d = data@;
    let r = pick_from(randomness, n, data);
    proof {
        broadcast use vstd::seq_lib::group_to_multiset_ensures;
        lemma_participants_distinct(participant_count);
        d.lemma_multiset_has_no_duplicates();
        assert forall|x: u32| r@.to_multiset().contains(x) implies r@.to_multiset().count(x)
            == 1 by {
            assert(r@.to_multiset().count(x) <= d.to_multiset().count(x));
        }
        r@.lemma_multiset_has_no_duplicates_conv();
        assert forall|i: int| 0 <= i < r@.len() implies 1 <= #[trigger] r@[i]
            <= participant_count by {
            let x = r@[i];
            assert(r@.contains(x));
            assert(r@.to_multiset().count(x) <= d.to_multiset().count(x));
            assert(d.contains(x));
            let k = choose|k: int| 0 <= k < d.len() && d[k] == x;
        }
    }
    r
}

/// On a given target word size a draw depends on nothing but its seed and the
/// participant count: two draws there with the same inputs give the same
/// winners in the same order. Targets with different word sizes may differ.
pub proof fn lemma_selection_deterministic(
    seed: Seq<u8>,
    count: u32,
    first: Seq<u32>,
    second: Seq<u32>,
)
    requires
        first == selection(seed, count),
        second == selection(seed, count),
    ensures
        first == second,
{
}

} // verus!
