use fee_payment_dapp::state::{
    BASE_TRANSACTION_FEE, DEFAULT_FEE_PER_AD, MAX_SINGLE_DEPOSIT, TRANSACTION_TIMEOUT,
};
use fee_payment_dapp::{
    calculate_gas_fee, cancel_request, complete_transaction_after_ad, create_ad, deposit_funds,
    get_random_ad, initialize, initiate_send_transaction, toggle_ad, toggle_pause,
    update_base_fee, withdraw_funds, Address, Advertisement, FeePaymentError, ProgramState,
    RequestStatus, TransactionRequest,
};

const T0: i64 = 1_700_000_000;

fn key(b: u8) -> Address {
    Address([b; 32])
}

fn admin() -> Address {
    key(1)
}

fn user() -> Address {
    key(2)
}

fn recipient() -> Address {
    key(3)
}

fn funded_pool(amount: u64) -> ProgramState {
    let (mut state, _) = initialize(&admin(), 254, T0);
    deposit_funds(&mut state, &admin(), amount).unwrap();
    state
}

fn ad_a1(state: &ProgramState) -> Advertisement {
    let (ad, _) = create_ad(
        state,
        &admin(),
        "A1".to_string(),
        "https://ads.example/a1".to_string(),
        "Buy more widgets".to_string(),
        1_000,
        5,
        T0,
        253,
    )
    .unwrap();
    ad
}

fn open_request(state: &ProgramState, ad: &Advertisement, amount: u64) -> TransactionRequest {
    let (req, _) =
        initiate_send_transaction(state, ad, &user(), &recipient(), amount, T0, 252).unwrap();
    req
}

fn try_create(id: &str, url: &str, content: &str, reward: u64, display: i64) -> Result<(), FeePaymentError> {
    let state = funded_pool(1_000_000);
    create_ad(
        &state,
        &admin(),
        id.to_string(),
        url.to_string(),
        content.to_string(),
        reward,
        display,
        T0,
        0,
    )
    .map(|_| ())
}

#[test]
fn initialize_sets_defaults() {
    let (state, event) = initialize(&admin(), 7, T0);
    assert_eq!(state.admin, admin());
    assert_eq!(state.total_funds, 0);
    assert_eq!(state.total_ads_viewed, 0);
    assert_eq!(state.total_transactions, 0);
    assert_eq!(state.fee_per_ad, DEFAULT_FEE_PER_AD);
    assert_eq!(state.base_transaction_fee, BASE_TRANSACTION_FEE);
    assert!(!state.is_paused);
    assert_eq!(state.bump, 7);
    assert_eq!(event.admin, admin());
    assert_eq!(event.timestamp, T0);
}

#[test]
fn sponsored_transfer_scenario() {
    let mut state = funded_pool(1_000_000);
    assert_eq!(state.total_funds, 1_000_000);
    let mut ad = ad_a1(&state);
    let (mut req, initiated) =
        initiate_send_transaction(&state, &ad, &user(), &recipient(), 100_000, T0, 252).unwrap();
    assert_eq!(req.calculated_fee, BASE_TRANSACTION_FEE + 100);
    assert_eq!(req.status, RequestStatus::WaitingForAd);
    assert_eq!(req.expires_at, T0 + TRANSACTION_TIMEOUT);
    assert_eq!(req.ad_display_started_at, Some(T0));
    assert_eq!(initiated.ad_content, "Buy more widgets");
    assert_eq!(initiated.ad_url, "https://ads.example/a1");
    assert_eq!(initiated.display_duration, 5);

    let done = complete_transaction_after_ad(
        &mut state, &mut ad, &mut req, &user(), &recipient(), 5, T0 + 5,
    )
    .unwrap();
    assert_eq!(done.amount_sent, 100_000);
    assert_eq!(done.amount_received, 100_000);
    assert_eq!(done.gas_fee_sponsored, 5_100);
    assert_eq!(done.recipient, recipient());
    assert_eq!(done.ad_id, "A1");
    assert_eq!(state.total_funds, 1_000_000 - 5_100);
    assert_eq!(ad.view_count, 1);
    assert_eq!(state.total_ads_viewed, 1);
    assert_eq!(state.total_transactions, 1);
    assert_eq!(req.status, RequestStatus::Completed);
    assert_eq!(req.completed_at, Some(T0 + 5));
    assert_eq!(req.ad_view_duration, Some(5));
}

#[test]
fn short_reported_view_is_rejected() {
    let mut state = funded_pool(1_000_000);
    let mut ad = ad_a1(&state);
    let mut req = open_request(&state, &ad, 100_000);
    let r = complete_transaction_after_ad(
        &mut state, &mut ad, &mut req, &user(), &recipient(), 2, T0 + 10,
    );
    assert_eq!(r.unwrap_err(), FeePaymentError::InsufficientViewTime);
    assert_eq!(state.total_funds, 1_000_000);
    assert_eq!(ad.view_count, 0);
    assert_eq!(state.total_transactions, 0);
    assert_eq!(req.status, RequestStatus::WaitingForAd);
}

#[test]
fn short_measured_view_is_rejected() {
    let mut state = funded_pool(1_000_000);
    let mut ad = ad_a1(&state);
    let mut req = open_request(&state, &ad, 100_000);
    let r = complete_transaction_after_ad(
        &mut state, &mut ad, &mut req, &user(), &recipient(), 5, T0 + 4,
    );
    assert_eq!(r.unwrap_err(), FeePaymentError::InsufficientViewTime);
    assert_eq!(state.total_funds, 1_000_000);
}

#[test]
fn non_admin_deposit_is_unauthorized() {
    let mut state = funded_pool(500);
    let r = deposit_funds(&mut state, &user(), 100);
    assert_eq!(r.unwrap_err(), FeePaymentError::Unauthorized);
    assert_eq!(state.total_funds, 500);
}

#[test]
fn non_admin_toggle_pause_is_unauthorized() {
    let mut state = funded_pool(500);
    let r = toggle_pause(&mut state, &user());
    assert_eq!(r.unwrap_err(), FeePaymentError::Unauthorized);
    assert!(!state.is_paused);
}

#[test]
fn two_deposits_add_up_in_either_order() {
    let (mut a, _) = initialize(&admin(), 0, T0);
    let (mut b, _) = initialize(&admin(), 0, T0);
    deposit_funds(&mut a, &admin(), 300).unwrap();
    let ev = deposit_funds(&mut a, &admin(), 4_000).unwrap();
    deposit_funds(&mut b, &admin(), 4_000).unwrap();
    deposit_funds(&mut b, &admin(), 300).unwrap();
    assert_eq!(a.total_funds, 4_300);
    assert_eq!(b.total_funds, 4_300);
    assert_eq!(ev.total_funds, 4_300);
    assert_eq!(ev.amount, 4_000);
}

#[test]
fn deposit_limits() {
    let mut state = funded_pool(10);
    assert_eq!(deposit_funds(&mut state, &admin(), 0).unwrap_err(), FeePaymentError::InvalidAmount);
    assert_eq!(
        deposit_funds(&mut state, &admin(), MAX_SINGLE_DEPOSIT + 1).unwrap_err(),
        FeePaymentError::InvalidAmount
    );
    assert!(deposit_funds(&mut state, &admin(), MAX_SINGLE_DEPOSIT).is_ok());
    assert_eq!(state.total_funds, 10 + MAX_SINGLE_DEPOSIT);
}

#[test]
fn deposit_overflow_is_refused() {
    let mut state = funded_pool(10);
    state.total_funds = u64::MAX - 5;
    assert_eq!(deposit_funds(&mut state, &admin(), 6).unwrap_err(), FeePaymentError::MathOverflow);
    assert_eq!(state.total_funds, u64::MAX - 5);
    assert!(deposit_funds(&mut state, &admin(), 5).is_ok());
    assert_eq!(state.total_funds, u64::MAX);
}

#[test]
fn paused_pool_refuses_deposits_ads_and_requests() {
    let mut state = funded_pool(1_000_000);
    let ad = ad_a1(&state);
    let toggled = toggle_pause(&mut state, &admin()).unwrap();
    assert!(toggled.is_paused);
    assert!(state.is_paused);
    assert_eq!(deposit_funds(&mut state, &admin(), 5).unwrap_err(), FeePaymentError::ProgramPaused);
    assert_eq!(
        create_ad(&state, &admin(), "B".to_string(), "https://b".to_string(), "b".to_string(), 1_000, 5, T0, 0)
            .unwrap_err(),
        FeePaymentError::ProgramPaused
    );
    assert_eq!(
        initiate_send_transaction(&state, &ad, &user(), &recipient(), 10, T0, 0).unwrap_err(),
        FeePaymentError::ProgramPaused
    );
    assert_eq!(withdraw_funds(&mut state, &admin(), 5).unwrap().remaining, 999_995);
    toggle_pause(&mut state, &admin()).unwrap();
    assert!(!state.is_paused);
    assert!(deposit_funds(&mut state, &admin(), 5).is_ok());
}

#[test]
fn settling_twice_fails() {
    let mut state = funded_pool(1_000_000);
    let mut ad = ad_a1(&state);
    let mut req = open_request(&state, &ad, 100_000);
    complete_transaction_after_ad(&mut state, &mut ad, &mut req, &user(), &recipient(), 5, T0 + 5)
        .unwrap();
    let r = complete_transaction_after_ad(
        &mut state, &mut ad, &mut req, &user(), &recipient(), 5, T0 + 6,
    );
    assert_eq!(r.unwrap_err(), FeePaymentError::InvalidStatus);
    assert_eq!(state.total_funds, 1_000_000 - 5_100);
    assert_eq!(ad.view_count, 1);
}

#[test]
fn settling_cancelled_request_fails() {
    let mut state = funded_pool(1_000_000);
    let mut ad = ad_a1(&state);
    let mut req = open_request(&state, &ad, 100_000);
    let ev = cancel_request(&mut req, &user(), T0 + 1).unwrap();
    assert_eq!(ev.user, user());
    assert_eq!(req.status, RequestStatus::Cancelled);
    assert_eq!(req.cancelled_at, Some(T0 + 1));
    let r = complete_transaction_after_ad(
        &mut state, &mut ad, &mut req, &user(), &recipient(), 5, T0 + 5,
    );
    assert_eq!(r.unwrap_err(), FeePaymentError::InvalidStatus);
    assert_eq!(state.total_funds, 1_000_000);
}

#[test]
fn settling_after_expiry_fails() {
    let mut state = funded_pool(1_000_000);
    let mut ad = ad_a1(&state);
    let mut req = open_request(&state, &ad, 100_000);
    let late = req.expires_at + 1;
    let r = complete_transaction_after_ad(
        &mut state, &mut ad, &mut req, &user(), &recipient(), 400, late,
    );
    assert_eq!(r.unwrap_err(), FeePaymentError::RequestExpired);
    assert_eq!(req.status, RequestStatus::WaitingForAd);
    let at_expiry = req.expires_at;
    assert!(complete_transaction_after_ad(
        &mut state, &mut ad, &mut req, &user(), &recipient(), 400, at_expiry,
    )
    .is_ok());
}

#[test]
fn overdraw_is_refused() {
    let mut state = funded_pool(1_000);
    assert_eq!(
        withdraw_funds(&mut state, &admin(), 1_001).unwrap_err(),
        FeePaymentError::InsufficientProgramFunds
    );
    assert_eq!(state.total_funds, 1_000);
    assert_eq!(withdraw_funds(&mut state, &admin(), 0).unwrap_err(), FeePaymentError::InvalidAmount);
    assert_eq!(withdraw_funds(&mut state, &user(), 10).unwrap_err(), FeePaymentError::Unauthorized);
    let ev = withdraw_funds(&mut state, &admin(), 1_000).unwrap();
    assert_eq!(ev.remaining, 0);
    assert_eq!(ev.amount, 1_000);
    assert_eq!(state.total_funds, 0);
}

#[test]
fn fee_is_base_plus_truncated_tenth_of_percent() {
    let state = funded_pool(1);
    assert_eq!(calculate_gas_fee(999, &state), Ok(5_000));
    assert_eq!(calculate_gas_fee(1_999, &state), Ok(5_001));
    assert_eq!(calculate_gas_fee(100_000, &state), Ok(5_100));
    assert_eq!(calculate_gas_fee(0, &state), Ok(5_000));
    let mut big = state;
    big.base_transaction_fee = u64::MAX;
    assert_eq!(calculate_gas_fee(1_000, &big), Err(FeePaymentError::MathOverflow));
    assert_eq!(calculate_gas_fee(999, &big), Ok(u64::MAX));
}

#[test]
fn fee_is_fixed_at_initiation() {
    let mut state = funded_pool(1_000_000);
    let mut ad = ad_a1(&state);
    let mut req = open_request(&state, &ad, 100_000);
    let ev = update_base_fee(&mut state, &admin(), 9_000).unwrap();
    assert_eq!(ev.old_fee, 5_000);
    assert_eq!(ev.new_fee, 9_000);
    assert_eq!(state.base_transaction_fee, 9_000);
    let done = complete_transaction_after_ad(
        &mut state, &mut ad, &mut req, &user(), &recipient(), 5, T0 + 5,
    )
    .unwrap();
    assert_eq!(done.gas_fee_sponsored, 5_100);
    assert_eq!(state.total_funds, 1_000_000 - 5_100);
}

#[test]
fn update_base_fee_checks() {
    let mut state = funded_pool(1);
    assert_eq!(update_base_fee(&mut state, &admin(), 0).unwrap_err(), FeePaymentError::InvalidAmount);
    assert_eq!(update_base_fee(&mut state, &user(), 10).unwrap_err(), FeePaymentError::Unauthorized);
    assert_eq!(state.base_transaction_fee, BASE_TRANSACTION_FEE);
}

#[test]
fn create_ad_validates_each_field() {
    assert!(try_create("A1", "https://x", "c", 1_000, 5).is_ok());
    assert_eq!(try_create("", "https://x", "c", 1_000, 5), Err(FeePaymentError::InvalidAdId));
    assert_eq!(try_create(&"a".repeat(33), "https://x", "c", 1_000, 5), Err(FeePaymentError::InvalidAdId));
    assert!(try_create(&"a".repeat(32), "https://x", "c", 1_000, 5).is_ok());
    assert_eq!(try_create("A1", "http://x", "c", 1_000, 5), Err(FeePaymentError::InvalidAdUrl));
    assert_eq!(try_create("A1", "https:/", "c", 1_000, 5), Err(FeePaymentError::InvalidAdUrl));
    let long_url = format!("https://{}", "u".repeat(193));
    assert_eq!(try_create("A1", &long_url, "c", 1_000, 5), Err(FeePaymentError::InvalidAdUrl));
    let max_url = format!("https://{}", "u".repeat(192));
    assert!(try_create("A1", &max_url, "c", 1_000, 5).is_ok());
    assert_eq!(try_create("A1", "https://x", "", 1_000, 5), Err(FeePaymentError::InvalidAdContent));
    assert_eq!(try_create("A1", "https://x", &"c".repeat(501), 1_000, 5), Err(FeePaymentError::InvalidAdContent));
    assert!(try_create("A1", "https://x", &"c".repeat(500), 1_000, 5).is_ok());
    assert_eq!(try_create("A1", "https://x", "c", 999, 5), Err(FeePaymentError::RewardTooLow));
    assert_eq!(try_create("A1", "https://x", "c", 1_000, 4), Err(FeePaymentError::InvalidDisplayTime));
}

#[test]
fn create_ad_counts_bytes_not_characters() {
    assert!(try_create(&"\u{e9}".repeat(16), "https://x", "c", 1_000, 5).is_ok());
    assert_eq!(
        try_create(&"\u{e9}".repeat(17), "https://x", "c", 1_000, 5),
        Err(FeePaymentError::InvalidAdId)
    );
}

#[test]
fn create_ad_records_fields() {
    let state = funded_pool(1);
    let (ad, ev) = create_ad(
        &state, &admin(), "A9".to_string(), "https://a9".to_string(), "nine".to_string(), 2_500, 30, T0, 9,
    )
    .unwrap();
    assert_eq!(ad.id, "A9");
    assert_eq!(ad.url, "https://a9");
    assert_eq!(ad.content, "nine");
    assert_eq!(ad.reward_amount, 2_500);
    assert_eq!(ad.display_duration, 30);
    assert!(ad.is_active);
    assert_eq!(ad.view_count, 0);
    assert_eq!(ad.created_at, T0);
    assert_eq!(ad.bump, 9);
    assert_eq!(ev.ad_id, "A9");
    assert_eq!(ev.creator, admin());
    assert_eq!(ev.timestamp, T0);
    let r = create_ad(
        &state, &user(), "A9".to_string(), "https://a9".to_string(), "nine".to_string(), 2_500, 30, T0, 9,
    );
    assert_eq!(r.unwrap_err(), FeePaymentError::Unauthorized);
}

#[test]
fn toggled_ad_blocks_new_requests_only() {
    let mut state = funded_pool(1_000_000);
    let mut ad = ad_a1(&state);
    let mut req = open_request(&state, &ad, 100_000);
    assert_eq!(toggle_ad(&state, &mut ad, &user()).unwrap_err(), FeePaymentError::Unauthorized);
    assert!(ad.is_active);
    let ev = toggle_ad(&state, &mut ad, &admin()).unwrap();
    assert!(!ev.is_active);
    assert_eq!(ev.ad_id, "A1");
    assert_eq!(get_random_ad(&ad).unwrap_err(), FeePaymentError::AdNotActive);
    assert_eq!(
        initiate_send_transaction(&state, &ad, &user(), &recipient(), 10, T0, 0).unwrap_err(),
        FeePaymentError::AdNotActive
    );
    assert!(complete_transaction_after_ad(
        &mut state, &mut ad, &mut req, &user(), &recipient(), 5, T0 + 5,
    )
    .is_ok());
    toggle_ad(&state, &mut ad, &admin()).unwrap();
    let shown = get_random_ad(&ad).unwrap();
    assert_eq!(shown.ad_id, "A1");
    assert_eq!(shown.ad_content, "Buy more widgets");
    assert_eq!(shown.ad_url, "https://ads.example/a1");
    assert_eq!(shown.display_duration, 5);
    assert_eq!(shown.reward_amount, 1_000);
}

#[test]
fn initiate_checks() {
    let mut state = funded_pool(5_000);
    let ad = ad_a1(&state);
    assert_eq!(
        initiate_send_transaction(&state, &ad, &user(), &Address::zero(), 10, T0, 0).unwrap_err(),
        FeePaymentError::InvalidRecipient
    );
    assert_eq!(
        initiate_send_transaction(&state, &ad, &user(), &recipient(), 0, T0, 0).unwrap_err(),
        FeePaymentError::InvalidAmount
    );
    assert!(initiate_send_transaction(&state, &ad, &user(), &recipient(), 999, T0, 0).is_ok());
    assert_eq!(
        initiate_send_transaction(&state, &ad, &user(), &recipient(), 1_000, T0, 0).unwrap_err(),
        FeePaymentError::InsufficientProgramFunds
    );
    assert_eq!(
        initiate_send_transaction(&state, &ad, &user(), &recipient(), 10, i64::MAX - 299, 0).unwrap_err(),
        FeePaymentError::MathOverflow
    );
    assert!(initiate_send_transaction(&state, &ad, &user(), &recipient(), 10, i64::MAX - 300, 0).is_ok());
    update_base_fee(&mut state, &admin(), u64::MAX).unwrap();
    assert_eq!(
        initiate_send_transaction(&state, &ad, &user(), &recipient(), 1_000, T0, 0).unwrap_err(),
        FeePaymentError::MathOverflow
    );
}

#[test]
fn settle_checks_identities_and_ad() {
    let mut state = funded_pool(1_000_000);
    let mut ad = ad_a1(&state);
    let mut other_ad = ad.clone();
    other_ad.id = "A2".to_string();
    let mut req = open_request(&state, &ad, 100_000);
    let r = complete_transaction_after_ad(&mut state, &mut other_ad, &mut req, &user(), &recipient(), 5, T0 + 5);
    assert_eq!(r.unwrap_err(), FeePaymentError::AdMismatch);
    let r = complete_transaction_after_ad(&mut state, &mut ad, &mut req, &key(9), &recipient(), 5, T0 + 5);
    assert_eq!(r.unwrap_err(), FeePaymentError::Unauthorized);
    let r = complete_transaction_after_ad(&mut state, &mut ad, &mut req, &user(), &key(9), 5, T0 + 5);
    assert_eq!(r.unwrap_err(), FeePaymentError::RecipientMismatch);
    req.ad_display_started_at = None;
    let r = complete_transaction_after_ad(&mut state, &mut ad, &mut req, &user(), &recipient(), 5, T0 + 5);
    assert_eq!(r.unwrap_err(), FeePaymentError::AdNotStarted);
    assert_eq!(state.total_funds, 1_000_000);
    assert_eq!(ad.view_count, 0);
}

#[test]
fn settle_rechecks_pool_funds() {
    let mut state = funded_pool(1_000_000);
    let mut ad = ad_a1(&state);
    let mut req = open_request(&state, &ad, 100_000);
    withdraw_funds(&mut state, &admin(), 1_000_000 - 5_000).unwrap();
    let r = complete_transaction_after_ad(&mut state, &mut ad, &mut req, &user(), &recipient(), 5, T0 + 5);
    assert_eq!(r.unwrap_err(), FeePaymentError::InsufficientProgramFunds);
    assert_eq!(state.total_funds, 5_000);
    assert_eq!(req.status, RequestStatus::WaitingForAd);
}

#[test]
fn settle_counter_overflow_is_refused() {
    let mut state = funded_pool(1_000_000);
    let mut ad = ad_a1(&state);
    let mut req = open_request(&state, &ad, 100_000);
    ad.view_count = u64::MAX;
    let r = complete_transaction_after_ad(&mut state, &mut ad, &mut req, &user(), &recipient(), 5, T0 + 5);
    assert_eq!(r.unwrap_err(), FeePaymentError::MathOverflow);
    assert_eq!(state.total_funds, 1_000_000);
    assert_eq!(req.status, RequestStatus::WaitingForAd);
}

#[test]
fn cancel_checks() {
    let state = funded_pool(1_000_000);
    let ad = ad_a1(&state);
    let mut req = open_request(&state, &ad, 100_000);
    assert_eq!(cancel_request(&mut req, &key(9), T0).unwrap_err(), FeePaymentError::Unauthorized);
    assert_eq!(req.status, RequestStatus::WaitingForAd);
    cancel_request(&mut req, &user(), T0 + 2).unwrap();
    assert_eq!(cancel_request(&mut req, &user(), T0 + 3).unwrap_err(), FeePaymentError::InvalidStatus);
    assert_eq!(req.cancelled_at, Some(T0 + 2));
}

#[test]
fn addresses_compare_by_bytes() {
    assert!(Address::zero().is_zero());
    assert!(!key(1).is_zero());
    let mut almost = [0u8; 32];
    almost[31] = 1;
    assert!(!Address(almost).is_zero());
    assert_eq!(key(4), key(4));
    assert_ne!(key(4), Address(almost));
}

#[test]
fn error_messages() {
    assert_eq!(FeePaymentError::InvalidAdUrl.message(), "Invalid ad URL - must be HTTPS");
    assert_eq!(FeePaymentError::InsufficientViewTime.message(), "Insufficient ad viewing time");
}

#[test]
fn inactive_ad_is_refused_before_other_checks() {
    let mut state = funded_pool(1_000_000);
    let mut ad = ad_a1(&state);
    toggle_ad(&state, &mut ad, &admin()).unwrap();
    toggle_pause(&mut state, &admin()).unwrap();
    assert_eq!(
        initiate_send_transaction(&state, &ad, &user(), &recipient(), 10, T0, 0).unwrap_err(),
        FeePaymentError::AdNotActive
    );
    assert_eq!(
        initiate_send_transaction(&state, &ad, &user(), &Address::zero(), 0, T0, 0).unwrap_err(),
        FeePaymentError::AdNotActive
    );
    assert!(state.is_paused);
    assert_eq!(state.total_funds, 1_000_000);
}
