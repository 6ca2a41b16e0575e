use stake_sim::apply_deltas::apply_deltas;
use stake_sim::deltas::Deltas;
use stake_sim::error::SimError;
use stake_sim::rewards::get_attestation_deltas;
use stake_sim::rewards::try_get_attestation_deltas;
use stake_sim::state::State;
use stake_sim::state::StateTotals;

#[test]
fn non_eligible_validator() {
    let mut state = State::new();
    let state_totals = StateTotals::new(&state);
    let mut deltas = Deltas::new();

    state.validators[0].is_active = false;

    get_attestation_deltas(
        &state.validators[0],
        state.validators[0].get_base_reward(state_totals.sqrt_active_balance),
        &state,
        &state_totals,
        &mut deltas,
    );

    assert_eq!(0, deltas.head_ffg_reward);
    assert_eq!(0, deltas.head_ffg_penalty);
    assert_eq!(0, deltas.proposer_reward);
    assert_eq!(0, deltas.attester_reward);
}

#[test]
fn non_eligible_validator_balance_unchanged() {
    // an inactive validator comes out of the whole transition with the same
    // balance, whatever else is going on in the epoch
    let mut state = State::new();
    state.validators[0].is_active = false;
    state.validators[0].balance = 7_654_321_000;
    let mut output = vec![];
    let post = stake_sim::process_epoch::process_epoch(state, 0, &mut output).unwrap();
    assert_eq!(post.validators[0].balance, 7_654_321_000);
}

#[test]
fn slashed_validator() {
    let mut state = State::new();
    let state_totals = StateTotals::new(&state);
    let mut deltas = Deltas::new();

    // our validator has the slashed status
    state.validators[0].is_slashed = true;
    let base_reward = state.validators[0].get_base_reward(state_totals.sqrt_active_balance);

    get_attestation_deltas(&state.validators[0], base_reward, &state, &state_totals, &mut deltas);

    assert_eq!(0, deltas.head_ffg_reward);
    assert_eq!(68691, deltas.head_ffg_penalty);
    assert_eq!(3 * base_reward, deltas.head_ffg_penalty);
    assert_eq!(0, deltas.proposer_reward);
    assert_eq!(0, deltas.attester_reward);
}

#[test]
fn slashed_validator_with_matched_source_still_penalized() {
    // slashing overrides the epoch's matching flags
    let mut state = State::new();
    let state_totals = StateTotals::new(&state);
    let mut deltas = Deltas::new();

    state.validators[0].is_slashed = true;
    state.validators[0].has_matched_source = true;
    let base_reward = state.validators[0].get_base_reward(state_totals.sqrt_active_balance);

    get_attestation_deltas(&state.validators[0], base_reward, &state, &state_totals, &mut deltas);

    assert_eq!(3 * base_reward, deltas.head_ffg_penalty);
    assert_eq!(0, deltas.head_ffg_reward);
    assert_eq!(0, deltas.proposer_reward);
    assert_eq!(0, deltas.attester_reward);
}

#[test]
fn ffg_rewards_1() {
    let mut state = State::new();
    let state_totals = StateTotals::new(&state);
    let mut deltas = Deltas::new();

    state.config.probability_online = 1_000_000;
    state.validators[0].is_active = true;
    state.validators[0].has_matched_source = true;
    let base_reward = state.validators[0].get_base_reward(state_totals.sqrt_active_balance);

    get_attestation_deltas(&state.validators[0], base_reward, &state, &state_totals, &mut deltas);

    // the whole active balance also matches, so the reward is the full three
    // base rewards
    assert_eq!(68691, deltas.head_ffg_reward);
    assert_eq!(3 * base_reward, deltas.head_ffg_reward);
    assert_eq!(0, deltas.head_ffg_penalty);
}

#[test]
fn ffg_reward_scales_with_matching_balance() {
    // half the active balance matching halves the reward
    let mut state = State::new();
    let state_totals = StateTotals::new(&state);
    let mut deltas = Deltas::new();

    state.validators[0].has_matched_source = true;
    let base_reward = state.validators[0].get_base_reward(state_totals.sqrt_active_balance);

    let halved = StateTotals { matching_balance: state_totals.active_balance / 2, ..state_totals };
    get_attestation_deltas(&state.validators[0], base_reward, &state, &halved, &mut deltas);

    assert_eq!(3 * base_reward / 2, deltas.head_ffg_reward);
}

#[test]
fn proposer_reward_validator_is_proposer() {
    let mut state = State::new();
    let state_totals = StateTotals::new(&state);
    let mut deltas = Deltas::new();

    state.config.probability_online = 1_000_000;
    state.validators[0].has_matched_source = true;
    state.validators[0].is_proposer = true;
    let base_reward = state.validators[0].get_base_reward(state_totals.sqrt_active_balance);

    get_attestation_deltas(&state.validators[0], base_reward, &state, &state_totals, &mut deltas);

    assert_eq!(1_396_656, deltas.proposer_reward);
}

#[test]
fn proposer_reward_validator_is_not_proposer() {
    let mut state = State::new();
    let state_totals = StateTotals::new(&state);
    let mut deltas = Deltas::new();

    state.validators[0].has_matched_source = true;
    state.validators[0].is_proposer = false;
    let base_reward = state.validators[0].get_base_reward(state_totals.sqrt_active_balance);

    get_attestation_deltas(&state.validators[0], base_reward, &state, &state_totals, &mut deltas);

    assert_eq!(0, deltas.proposer_reward);
}

#[test]
fn attester_reward() {
    let mut state = State::new();
    let state_totals = StateTotals::new(&state);
    let mut deltas = Deltas::new();

    state.config.probability_online = 1_000_000;
    state.config.exp_value_inclusion_prob = 1_000_000;
    state.validators[0].has_matched_source = true;
    let base_reward = state.validators[0].get_base_reward(state_totals.sqrt_active_balance);

    get_attestation_deltas(&state.validators[0], base_reward, &state, &state_totals, &mut deltas);

    assert_eq!(20_035, deltas.attester_reward);
}

#[test]
fn apply_deltas_sums_rewards_and_subtracts_penalty() {
    let mut state = State::new();
    state.validators[0].balance = 1_000_000;
    let deltas = Deltas {
        head_ffg_reward: 300,
        head_ffg_penalty: 1000,
        proposer_reward: 40,
        attester_reward: 5,
    };
    let updated = apply_deltas(&state.validators[0], &deltas);
    assert_eq!(updated.balance, 1_000_000 + 300 - 1000 + 40 + 5);
    assert_eq!(updated.effective_balance, state.validators[0].effective_balance);
}

#[test]
fn try_deltas_rejects_tiny_active_balance() {
    // an active balance below the scale-down factor leaves the FFG reward
    // formula with a zero divisor, which the checked path refuses
    let mut state = State::new();
    let state_totals = StateTotals::new(&state);
    let mut deltas = Deltas::new();

    state.validators[0].has_matched_source = true;
    let starved = StateTotals { active_balance: 31, matching_balance: 31, ..state_totals };
    let r = try_get_attestation_deltas(&state.validators[0], 22_897, &state, &starved, &mut deltas);
    assert_eq!(r, Err(SimError::ArithmeticOverflow));
    assert_eq!(deltas, Deltas::new());
}

#[test]
fn balance_underflow_is_fatal() {
    // a slashed validator with nothing at stake cannot absorb the penalty
    let mut state = State::new();
    state.validators[0].is_slashed = true;
    state.validators[0].balance = 0;
    let mut output = vec![];
    let r = stake_sim::process_epoch::process_epoch(state, 0, &mut output);
    assert_eq!(r.err(), Some(SimError::BalanceUnderflow));
    assert!(output.is_empty());
}
