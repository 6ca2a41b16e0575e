use stake_sim::error::SimError;
use stake_sim::process_epoch::process_epoch;
use stake_sim::simulation::run_simulation;
use stake_sim::state::State;
use stake_sim::validator::Validator;

#[test]
fn zero_epochs_returns_initial_state_and_empty_report() {
    let mut state = State::new();
    state.config.epochs = 0;
    let initial_balances: Vec<u64> = state.validators.iter().map(|v| v.balance).collect();

    let (final_state, report) = run_simulation(state).unwrap();

    assert!(report.is_empty());
    assert_eq!(final_state.validators.len(), initial_balances.len());
    for (v, &b) in final_state.validators.iter().zip(initial_balances.iter()) {
        assert_eq!(v.balance, b);
        assert_eq!(v.effective_balance, 32_000_000_000);
    }
}

#[test]
fn one_epoch_appends_one_closed_row() {
    let state = State::new();
    let mut output = vec![];
    let post = process_epoch(state, 7, &mut output).unwrap();

    assert_eq!(output.len(), 1);
    let row = &output[0];
    assert_eq!(row.epoch_id, 7);
    assert_eq!(row.validator_count, 15_625);
    assert_eq!(row.active_validators, 15_625);
    assert_eq!(row.staked_balance, post.validators.iter().map(|v| v.balance).sum::<u64>());
    assert!(row.min_balance <= row.max_balance);
}

#[test]
fn always_online_and_honest_balances_never_shrink() {
    // a 15,625-validator set (500,000 stake units at the per-validator cap),
    // run for 10 epochs with both probabilities certain: with nobody slashed
    // there are no penalties, so every balance is monotonically
    // non-decreasing, epoch over epoch
    let mut state = State::new();
    state.config.probability_online = 1_000_000;
    state.config.probability_honest = 1_000_000;
    assert_eq!(state.validators.len(), 15_625);

    let mut output = vec![];
    for epoch_id in 0..10 {
        let balances_before: Vec<u64> = state.validators.iter().map(|v| v.balance).collect();
        state = process_epoch(state, epoch_id, &mut output).unwrap();
        for (v, &before) in state.validators.iter().zip(balances_before.iter()) {
            assert!(v.balance >= before);
        }
    }
    assert_eq!(output.len(), 10);
}

#[test]
fn run_simulation_collects_one_row_per_epoch() {
    let mut state = State::new();
    state.config.probability_online = 1_000_000;
    state.config.probability_honest = 1_000_000;

    let (final_state, report) = run_simulation(state).unwrap();

    assert_eq!(report.len(), 10);
    for (i, row) in report.iter().enumerate() {
        assert_eq!(row.epoch_id, i as u64);
        assert_eq!(row.validator_count, 15_625);
    }
    // stake is conserved up to the recorded deltas, epoch over epoch
    let mut staked: u64 = 500_000_000_000_000;
    for row in report.iter() {
        staked = staked + row.head_ffg_reward + row.proposer_reward + row.attester_reward
            - row.head_ffg_penalty;
        assert_eq!(row.staked_balance, staked);
    }
    // everybody always attests, so the total stake only grows
    for v in final_state.validators.iter() {
        assert!(v.balance >= 32_000_000_000);
    }
}

#[test]
fn zero_active_balance_is_fatal() {
    // enough eligible validators, but nothing at stake: the base reward has
    // no defined value and the epoch aborts deterministically
    let mut state = State::new();
    state.validators = vec![];
    for _ in 0..32 {
        state.validators.push(Validator {
            balance: 1000,
            effective_balance: 0,
            is_active: true,
            is_slashed: false,
            has_matched_source: false,
            has_matched_target: false,
            has_matched_head: false,
            is_proposer: false,
        });
    }
    let mut output = vec![];
    let r = process_epoch(state, 0, &mut output);
    assert_eq!(r.err(), Some(SimError::ArithmeticOverflow));
    assert!(output.is_empty());
}
