use stake_sim::config::Config;
use stake_sim::config::ConfigError;
use stake_sim::error::SimError;
use stake_sim::state::State;
use stake_sim::state::StateTotals;
use stake_sim::validator::Validator;

fn get_dummy_validator(
    balance: u64,
    effective_balance: u64,
    is_active: bool,
    is_slashed: bool,
) -> Validator {
    Validator {
        balance,
        effective_balance,
        is_active,
        is_slashed,
        has_matched_source: false,
        has_matched_head: false,
        has_matched_target: false,
        is_proposer: false,
    }
}

#[test]
fn new_state() {
    let state = State::new();

    assert_eq!(state.config.total_at_stake_initial, 500000000000000);
    assert_eq!(state.validators.len(), 15625);
    assert_eq!(state.get_total_active_balance(), 500000000000000);
    assert_eq!(state.get_max_balance(), 32000000000);
    assert_eq!(state.get_min_balance(), 32000000000);
}

#[test]
fn new_state_totals() {
    let mut state = State::new();
    state.validators = vec![];
    state.validators.push(get_dummy_validator(100, 16, true, true));
    state.validators.push(get_dummy_validator(200, 18, true, false));
    state.validators.push(get_dummy_validator(300, 30, true, false));
    state.validators.push(get_dummy_validator(400, 40, false, false));

    let totals = StateTotals::new(&state);

    assert_eq!(totals.staked_balance, 1000);
    assert_eq!(totals.active_balance, 64);
    assert_eq!(totals.sqrt_active_balance, 8);
    assert_eq!(totals.active_validators, 3);
    assert_eq!(totals.matching_balance, 48);
    assert_eq!(totals.max_balance, 400);
    assert_eq!(totals.min_balance, 100);
}

#[test]
fn totals_of_empty_set() {
    let mut state = State::new();
    state.validators = vec![];

    let totals = StateTotals::new(&state);

    assert_eq!(totals.staked_balance, 0);
    assert_eq!(totals.active_balance, 0);
    assert_eq!(totals.sqrt_active_balance, 0);
    assert_eq!(totals.active_validators, 0);
    assert_eq!(totals.matching_balance, 0);
    assert_eq!(totals.max_balance, 0);
    assert_eq!(totals.min_balance, u64::MAX);
}

#[test]
fn default_config() {
    let config = Config::new();
    assert_eq!(config.epochs, 10);
    assert_eq!(config.total_at_stake_initial, 500_000_000_000_000);
    assert_eq!(config.probability_online, 990_000);
    assert_eq!(config.probability_honest, 1_000_000);
    assert_eq!(config.exp_value_inclusion_prob, 994_983);
}

#[test]
fn config_rejects_zero_epochs() {
    let r = Config::try_new(0, 500_000_000_000_000, 1_000_000, 1_000_000, 1_000_000);
    assert_eq!(r, Err(ConfigError::ZeroEpochs));
}

#[test]
fn config_rejects_probability_above_one() {
    let r = Config::try_new(10, 500_000_000_000_000, 1_000_001, 1_000_000, 1_000_000);
    assert_eq!(r, Err(ConfigError::ProbabilityOutOfRange));
    let r = Config::try_new(10, 500_000_000_000_000, 1_000_000, 2_000_000, 1_000_000);
    assert_eq!(r, Err(ConfigError::ProbabilityOutOfRange));
}

#[test]
fn config_accepts_valid_parameters() {
    let r = Config::try_new(5, 64_000_000_000, 750_000, 1_000_000, 900_000);
    let config = r.unwrap();
    assert_eq!(config.epochs, 5);
    assert_eq!(config.total_at_stake_initial, 64_000_000_000);
    assert_eq!(config.probability_online, 750_000);
    assert_eq!(config.probability_honest, 1_000_000);
    assert_eq!(config.exp_value_inclusion_prob, 900_000);
}

#[test]
fn pick_epoch_proposers_returns_32_distinct_eligible() {
    let state = State::new();
    let proposers = state.pick_epoch_proposers().unwrap();
    assert_eq!(proposers.len(), 32);
    for (i, &a) in proposers.iter().enumerate() {
        assert!(a < state.validators.len());
        assert!(state.validators[a].is_active);
        assert!(!state.validators[a].is_slashed);
        for &b in proposers.iter().skip(i + 1) {
            assert_ne!(a, b);
        }
    }
}

#[test]
fn pick_epoch_proposers_fails_below_32_eligible() {
    let mut state = State::new();
    state.validators = vec![];
    for _ in 0..31 {
        state.validators.push(get_dummy_validator(32_000_000_000, 32_000_000_000, true, false));
    }
    // plenty of validators, but only 31 are eligible
    for _ in 0..40 {
        state.validators.push(get_dummy_validator(32_000_000_000, 32_000_000_000, true, true));
        state.validators.push(get_dummy_validator(32_000_000_000, 32_000_000_000, false, false));
    }
    assert_eq!(state.pick_epoch_proposers(), Err(SimError::NotEnoughEligible));
}

#[test]
fn pick_epoch_proposers_succeeds_at_exactly_32_eligible() {
    let mut state = State::new();
    state.validators = vec![];
    for _ in 0..32 {
        state.validators.push(get_dummy_validator(32_000_000_000, 32_000_000_000, true, false));
    }
    let proposers = state.pick_epoch_proposers().unwrap();
    assert_eq!(proposers.len(), 32);
}

#[test]
fn eligible_count_ignores_slashed_and_inactive() {
    let mut state = State::new();
    state.validators = vec![];
    state.validators.push(get_dummy_validator(100, 16, true, true));
    state.validators.push(get_dummy_validator(200, 18, true, false));
    state.validators.push(get_dummy_validator(400, 40, false, false));
    assert_eq!(state.get_total_active_validators(), 2);
    assert_eq!(state.get_total_eligible_validators(), 1);
}
