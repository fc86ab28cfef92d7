use nois_raffle::contract::{
    execute, execute_request_randomness, execute_set_randomness, instantiate, pick_test_winners,
    pick_winners, query, slot_of, ExecuteOutcome, QueryAnswer,
};
use nois_raffle::error::ContractError;
use nois_raffle::msg::{ExecuteMsg, InstantiateMsg, QueryMsg, RandomnessCallback};
use nois_raffle::selection::{participants, select_winners};
use nois_raffle::state::{Slot, State};

fn seed_one() -> Vec<u8> {
    let mut s = vec![0u8; 32];
    s[31] = 1;
    s
}

fn new_state(count: u32) -> State {
    let msg = InstantiateMsg {
        participant_count: count,
        nois_proxy_address: "oracle1".to_string(),
    };
    instantiate("creator".to_string(), msg, Some("oracle1".to_string())).unwrap()
}

fn callback(job_id: &str, randomness: Vec<u8>) -> RandomnessCallback {
    RandomnessCallback {
        job_id: job_id.to_string(),
        randomness,
    }
}

fn sorted(mut v: Vec<u32>) -> Vec<u32> {
    v.sort();
    v
}

#[test]
fn instantiate_keeps_configuration() {
    let s = new_state(5);
    assert_eq!(s.participant_count, 5);
    assert_eq!(s.admin, "creator");
    assert_eq!(s.nois_proxy, "oracle1");
    assert!(s.final_randomness.is_none());
    assert!(s.winners.is_none());
    assert!(s.is_well_formed());
}

#[test]
fn instantiate_rejects_bad_proxy_and_zero_count() {
    let msg = InstantiateMsg {
        participant_count: 5,
        nois_proxy_address: "bad".to_string(),
    };
    assert!(matches!(
        instantiate("creator".to_string(), msg, None),
        Err(ContractError::InvalidProxyAddress {})
    ));
    let msg = InstantiateMsg {
        participant_count: 0,
        nois_proxy_address: "oracle1".to_string(),
    };
    assert!(matches!(
        instantiate("creator".to_string(), msg, Some("oracle1".to_string())),
        Err(ContractError::InvalidParticipantCount {})
    ));
}

#[test]
fn selection_is_distinct_and_in_range() {
    for count in [1u32, 2, 5, 99, 100, 101, 250] {
        let w = select_winners(&seed_one(), count);
        let expected_len = if count < 100 { count as usize } else { 100 };
        assert_eq!(w.len(), expected_len);
        let mut d = sorted(w.clone());
        d.dedup();
        assert_eq!(d.len(), w.len());
        assert!(w.iter().all(|x| *x >= 1 && *x <= count));
    }
}

#[test]
fn selection_of_whole_small_population_is_a_permutation() {
    let w = select_winners(&seed_one(), 5);
    assert_eq!(sorted(w), vec![1, 2, 3, 4, 5]);
}

#[test]
fn selection_is_deterministic() {
    let seed: Vec<u8> = (0u8..32).collect();
    assert_eq!(select_winners(&seed, 300), select_winners(&seed, 300));
    assert_eq!(select_winners(&seed_one(), 7), select_winners(&seed_one(), 7));
}

#[test]
fn participants_are_one_based() {
    assert_eq!(participants(4), vec![1, 2, 3, 4]);
    assert!(participants(0).is_empty());
}

#[test]
fn job_id_picks_slot() {
    assert_eq!(slot_of(&"test".to_string()), Slot::Test);
    assert_eq!(slot_of(&"my-test-2".to_string()), Slot::Test);
    assert_eq!(slot_of(&"final".to_string()), Slot::Final);
    assert_eq!(slot_of(&"tes".to_string()), Slot::Final);
}

#[test]
fn request_goes_to_proxy_after_delay() {
    let s = new_state(5);
    let q = execute_request_randomness(&s, &"creator".to_string(), "final".to_string(), 2, 1_000)
        .unwrap();
    assert_eq!(q.proxy, "oracle1");
    assert_eq!(q.job_id, "final");
    assert_eq!(q.after_nanos, 1_000 + 120_000_000_000);
}

#[test]
fn request_from_stranger_is_unauthorized() {
    let s = new_state(5);
    let r = execute_request_randomness(&s, &"mallory".to_string(), "final".to_string(), 0, 0);
    assert!(matches!(r, Err(ContractError::Unauthorized {})));
}

#[test]
fn delivery_from_stranger_is_unauthorized() {
    let mut s = new_state(5);
    let r = execute_set_randomness(&mut s, &"creator".to_string(), callback("final", seed_one()));
    assert_eq!(r, Err(ContractError::Unauthorized {}));
    assert!(s.final_randomness.is_none());
}

#[test]
fn seed_is_written_once() {
    let mut s = new_state(5);
    let oracle = "oracle1".to_string();
    assert_eq!(execute_set_randomness(&mut s, &oracle, callback("final", seed_one())), Ok(()));
    let r = execute_set_randomness(&mut s, &oracle, callback("final", vec![7u8; 32]));
    assert_eq!(r, Err(ContractError::FinalRandomnessAlreadySet {}));
    assert_eq!(s.final_randomness, Some(seed_one()));

    assert_eq!(execute_set_randomness(&mut s, &oracle, callback("test", seed_one())), Ok(()));
    let r = execute_set_randomness(&mut s, &oracle, callback("test-again", vec![7u8; 32]));
    assert_eq!(r, Err(ContractError::TestRandomnessAlreadySet {}));
    assert_eq!(s.test_randomness, Some(seed_one()));
}

#[test]
fn malformed_seed_is_rejected() {
    let mut s = new_state(5);
    let r = execute_set_randomness(&mut s, &"oracle1".to_string(), callback("final", vec![1u8; 31]));
    assert_eq!(r, Err(ContractError::InvalidRandomness {}));
    assert!(s.final_randomness.is_none());
    let r = execute_set_randomness(&mut s, &"oracle1".to_string(), callback("test", vec![1u8; 33]));
    assert_eq!(r, Err(ContractError::InvalidRandomness {}));
    assert!(s.test_randomness.is_none());
}

#[test]
fn draw_before_seed_is_not_ready() {
    let mut s = new_state(5);
    assert_eq!(pick_winners(&mut s, &"creator".to_string()), Err(ContractError::FinalRandomnessNotSet {}));
    assert_eq!(pick_test_winners(&mut s), Err(ContractError::TestRandomnessNotSet {}));
    assert!(s.winners.is_none());
    assert!(s.test_winners.is_none());
}

#[test]
fn final_draw_needs_admin() {
    let mut s = new_state(5);
    execute_set_randomness(&mut s, &"oracle1".to_string(), callback("final", seed_one())).unwrap();
    assert_eq!(pick_winners(&mut s, &"oracle1".to_string()), Err(ContractError::Unauthorized {}));
    assert!(s.winners.is_none());
}

#[test]
fn test_draw_runs_once() {
    let mut s = new_state(150);
    execute_set_randomness(&mut s, &"oracle1".to_string(), callback("test", seed_one())).unwrap();
    let first = pick_test_winners(&mut s).unwrap();
    assert_eq!(first.len(), 100);
    assert_eq!(first, select_winners(&seed_one(), 150));
    assert_eq!(pick_test_winners(&mut s), Err(ContractError::TestWinnersAlreadyPicked {}));
    assert_eq!(s.test_winners, Some(first));
    assert!(s.winners.is_none());
}

#[test]
fn full_raffle_scenario() {
    let mut s = new_state(5);
    let admin = "creator".to_string();
    let oracle = "oracle1".to_string();

    let msg = ExecuteMsg::RequestRandomness {
        job_id: "final".to_string(),
        delay_in_mins: 0,
    };
    match execute(&mut s, &admin, 5, msg) {
        Ok(ExecuteOutcome::Requested(q)) => {
            assert_eq!(q.job_id, "final");
            assert_eq!(q.proxy, "oracle1");
            assert_eq!(q.after_nanos, 5);
        }
        _ => panic!("request expected"),
    }
    assert!(s.final_randomness.is_none());

    let msg = ExecuteMsg::NoisReceive {
        callback: callback("final", seed_one()),
    };
    assert!(matches!(execute(&mut s, &oracle, 5, msg), Ok(ExecuteOutcome::RandomnessStored)));
    assert_eq!(s.final_randomness, Some(seed_one()));

    let winners = match execute(&mut s, &admin, 5, ExecuteMsg::PickWinners {}) {
        Ok(ExecuteOutcome::WinnersPicked(w)) => w,
        _ => panic!("winners expected"),
    };
    assert_eq!(winners.len(), 5);
    assert_eq!(sorted(winners.clone()), vec![1, 2, 3, 4, 5]);
    assert_eq!(winners, select_winners(&seed_one(), 5));

    let again = execute(&mut s, &admin, 5, ExecuteMsg::PickWinners {});
    assert!(matches!(again, Err(ContractError::WinnersAlreadyPicked {})));
    assert_eq!(s.winners, Some(winners.clone()));

    match query(&s, QueryMsg::Winners {}) {
        Ok(QueryAnswer::Winners(w)) => assert_eq!(w, winners),
        _ => panic!("winners expected"),
    }
}

#[test]
fn queries_answer_configuration_and_missing_lists() {
    let s = new_state(5);
    assert!(matches!(query(&s, QueryMsg::ParticipantCount {}), Ok(QueryAnswer::ParticipantCount(5))));
    match query(&s, QueryMsg::Admin {}) {
        Ok(QueryAnswer::Admin(a)) => assert_eq!(a, "creator"),
        _ => panic!("admin expected"),
    }
    match query(&s, QueryMsg::NoisProxy {}) {
        Ok(QueryAnswer::NoisProxy(p)) => assert_eq!(p, "oracle1"),
        _ => panic!("proxy expected"),
    }
    assert!(matches!(query(&s, QueryMsg::Winners {}), Err(ContractError::NotFound {})));
    assert!(matches!(query(&s, QueryMsg::TestWinners {}), Err(ContractError::NotFound {})));
}

#[test]
fn ill_formed_state_is_detected() {
    let mut s = new_state(5);
    s.final_randomness = Some(vec![1u8; 31]);
    assert!(!s.is_well_formed());
    let mut s = new_state(5);
    s.winners = Some(vec![1]);
    assert!(!s.is_well_formed());
}

#[test]
fn stored_winners_must_match_their_seed() {
    let mut s = new_state(5);
    s.final_randomness = Some(seed_one());
    s.winners = Some(select_winners(&seed_one(), 5));
    assert!(s.is_well_formed());
    s.winners = Some(vec![1, 2, 3]);
    assert!(!s.is_well_formed());
}

#[test]
fn malformed_seed_on_filled_slot_is_invalid() {
    let mut s = new_state(5);
    let oracle = "oracle1".to_string();
    execute_set_randomness(&mut s, &oracle, callback("final", seed_one())).unwrap();
    let r = execute_set_randomness(&mut s, &oracle, callback("final", vec![9u8; 31]));
    assert_eq!(r, Err(ContractError::InvalidRandomness {}));
    assert_eq!(s.final_randomness, Some(seed_one()));
}

#[test]
fn stranger_request_with_huge_delay_is_unauthorized() {
    let mut s = new_state(5);
    let msg = ExecuteMsg::RequestRandomness {
        job_id: "final".to_string(),
        delay_in_mins: u64::MAX,
    };
    let r = execute(&mut s, &"mallory".to_string(), u64::MAX, msg);
    assert!(matches!(r, Err(ContractError::Unauthorized {})));
    assert!(s.final_randomness.is_none());
}

#[test]
fn small_population_final_winners_are_a_permutation() {
    let mut s = new_state(100);
    execute_set_randomness(&mut s, &"oracle1".to_string(), callback("final", seed_one())).unwrap();
    let w = pick_winners(&mut s, &"creator".to_string()).unwrap();
    assert_eq!(sorted(w), (1..=100).collect::<Vec<u32>>());
}

#[test]
fn job_id_slot_with_non_ascii_text() {
    assert_eq!(slot_of(&"ünïtest".to_string()), Slot::Test);
    assert_eq!(slot_of(&"tëst".to_string()), Slot::Final);
    assert_eq!(slot_of(&"".to_string()), Slot::Final);
}
