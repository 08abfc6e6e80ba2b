//! The rules on plain values: every answer, every thing asked of the host.
use carbon_escrow::types::TTL_LEDGERS;
use carbon_escrow::{
    Address, CarbonEscrowContract, DataKey, Env, EscrowError, EscrowRecord, EscrowStatus, Event,
    HostCall, Storage, DEFAULT_TIMEOUT_SECS,
};

const NOW: u64 = 1_000_000;

fn a(name: &str) -> Address {
    Address {
        strkey: name.as_bytes().to_vec(),
    }
}

fn s(v: &str) -> Vec<u8> {
    v.as_bytes().to_vec()
}

fn create_with(
    env: &mut Env,
    id: &str,
    usdc_amount: i128,
    credit_amount: i128,
    timeout_secs: u64,
) -> Result<(), EscrowError> {
    CarbonEscrowContract::create_escrow(
        env,
        a("BUYER"),
        s(id),
        a("SELLER"),
        a("USDC"),
        usdc_amount,
        s("BATCH"),
        credit_amount,
        timeout_secs,
    )
}

fn confirm(env: &mut Env, caller: &str, id: &str) -> Result<EscrowStatus, EscrowError> {
    CarbonEscrowContract::confirm_escrow(env, a(caller), s(id))
}

fn refund(env: &mut Env, id: &str) -> Result<(), EscrowError> {
    CarbonEscrowContract::refund_escrow(env, s(id))
}

fn cancel(env: &mut Env, caller: &str, id: &str) -> Result<(), EscrowError> {
    CarbonEscrowContract::cancel_escrow(env, a(caller), s(id))
}

fn get(env: &mut Env, id: &str) -> Result<EscrowRecord, EscrowError> {
    CarbonEscrowContract::get_escrow(env, s(id))
}

/// An initialized contract with an escrow `E` of 500 for 7 credits over an hour.
fn with_escrow() -> Env {
    let mut env = Env::new(a("CONTRACT"), NOW);
    CarbonEscrowContract::initialize(&mut env, a("ADMIN")).unwrap();
    create_with(&mut env, "E", 500, 7, 3600).unwrap();
    env.calls.clear();
    env
}

fn status(env: &mut Env, id: &str) -> EscrowStatus {
    get(env, id).unwrap().status
}

fn names(env: &Env) -> Vec<&'static str> {
    env.calls
        .iter()
        .map(|call| match call {
            HostCall::RequireAuth { .. } => "auth",
            HostCall::SetAdmin { .. } => "set_admin",
            HostCall::SetEscrow { .. } => "set_escrow",
            HostCall::ExtendTtl { .. } => "ttl",
            HostCall::Transfer { .. } => "transfer",
            HostCall::Publish { event } => event.topics().1,
        })
        .collect()
}

/// What the transfers asked for add to the balance of an account.
fn balance(env: &Env, account: &str) -> i128 {
    let mut sum = 0;
    for call in &env.calls {
        if let HostCall::Transfer { from, to, amount, .. } = call {
            if *to == a(account) {
                sum += amount;
            }
            if *from == a(account) {
                sum -= amount;
            }
        }
    }
    sum
}

#[test]
fn error_codes() {
    let errors = [
        EscrowError::EscrowNotFound,
        EscrowError::EscrowAlreadyClosed,
        EscrowError::Unauthorized,
        EscrowError::TimeoutNotElapsed,
        EscrowError::ZeroAmountNotAllowed,
        EscrowError::AlreadyInitialized,
        EscrowError::EscrowStillActive,
        EscrowError::Arithmetic,
        EscrowError::BuyerAlreadyConfirmed,
        EscrowError::SellerAlreadyConfirmed,
    ];
    for (i, error) in errors.iter().enumerate() {
        assert_eq!(error.code(), i as u32 + 1);
    }
    assert!(EscrowError::EscrowNotFound < EscrowError::SellerAlreadyConfirmed);
}

#[test]
fn constants() {
    assert_eq!(DEFAULT_TIMEOUT_SECS, 604_800);
    assert_eq!(TTL_LEDGERS, 518_400);
}

#[test]
fn initialize_once() {
    let mut env = Env::new(a("CONTRACT"), NOW);
    assert_eq!(CarbonEscrowContract::initialize(&mut env, a("ADMIN")), Ok(()));
    assert_eq!(names(&env), vec!["auth", "set_admin"]);
    assert!(matches!(&env.calls[0], HostCall::RequireAuth { address } if *address == a("ADMIN")));
    assert!(matches!(&env.calls[1], HostCall::SetAdmin { admin } if *admin == a("ADMIN")));
    assert!(env.storage.get_admin() == Some(a("ADMIN")));

    // Nobody is asked to authorize a second attempt.
    assert_eq!(
        CarbonEscrowContract::initialize(&mut env, a("OTHER")),
        Err(EscrowError::AlreadyInitialized)
    );
    assert_eq!(env.calls.len(), 2);
    assert!(env.storage.get_admin() == Some(a("ADMIN")));
}

#[test]
fn create_records_the_offer() {
    let mut env = Env::new(a("CONTRACT"), NOW);
    assert_eq!(create_with(&mut env, "E", 500, 7, 3600), Ok(()));
    assert_eq!(
        names(&env),
        vec!["auth", "transfer", "set_escrow", "ttl", "created"]
    );
    match &env.calls[1] {
        HostCall::Transfer { token, from, to, amount } => {
            assert!(*token == a("USDC"));
            assert!(*from == a("BUYER"));
            assert!(*to == a("CONTRACT"));
            assert_eq!(*amount, 500);
        }
        _ => panic!("no transfer"),
    }
    match &env.calls[3] {
        HostCall::ExtendTtl { key, threshold, extend_to } => {
            assert!(matches!(key, DataKey::Escrow(id) if *id == s("E")));
            assert_eq!((*threshold, *extend_to), (518_400, 518_400));
        }
        _ => panic!("not kept alive"),
    }
    match &env.calls[4] {
        HostCall::Publish { event: Event::Created(e) } => {
            assert_eq!(e.escrow_id, s("E"));
            assert!(e.buyer == a("BUYER") && e.seller == a("SELLER"));
            assert_eq!((e.usdc_amount, e.credit_amount), (500, 7));
            assert_eq!(e.credit_batch_id, s("BATCH"));
            assert_eq!(e.timeout_at, 1_003_600);
        }
        _ => panic!("not told"),
    }
    let record = get(&mut env, "E").unwrap();
    assert_eq!(record.escrow_id, s("E"));
    assert!(record.buyer == a("BUYER") && record.seller == a("SELLER"));
    assert!(record.usdc_token == a("USDC"));
    assert_eq!((record.usdc_amount, record.credit_amount), (500, 7));
    assert_eq!(record.credit_batch_id, s("BATCH"));
    assert_eq!((record.created_at, record.timeout_at), (1_000_000, 1_003_600));
    assert!(!record.buyer_confirmed && !record.seller_confirmed);
    assert_eq!(record.status, EscrowStatus::Active);
}

#[test]
fn default_timeout_is_seven_days() {
    let mut env = Env::new(a("CONTRACT"), NOW);
    create_with(&mut env, "E", 500, 7, 0).unwrap();
    assert_eq!(get(&mut env, "E").unwrap().timeout_at, 1_604_800);
}

#[test]
fn amounts_must_be_positive() {
    let mut env = Env::new(a("CONTRACT"), NOW);
    for (usdc, credits) in [(0, 7), (-1, 7), (500, 0), (500, -1), (i128::MIN, i128::MIN)] {
        assert_eq!(
            create_with(&mut env, "E", usdc, credits, 0),
            Err(EscrowError::ZeroAmountNotAllowed)
        );
    }
    assert_eq!(names(&env), vec!["auth"; 5]);
    assert_eq!(create_with(&mut env, "E", 1, 1, 0), Ok(()));
}

#[test]
fn ids_are_not_reused() {
    let mut env = with_escrow();
    assert_eq!(
        create_with(&mut env, "E", 1, 1, 0),
        Err(EscrowError::EscrowAlreadyClosed)
    );
    // The amounts are looked at first.
    assert_eq!(
        create_with(&mut env, "E", 0, 1, 0),
        Err(EscrowError::ZeroAmountNotAllowed)
    );
    cancel(&mut env, "ADMIN", "E").unwrap();
    assert_eq!(
        create_with(&mut env, "E", 1, 1, u64::MAX),
        Err(EscrowError::EscrowAlreadyClosed)
    );
    assert_eq!(get(&mut env, "E").unwrap().usdc_amount, 500);
}

#[test]
fn timeout_must_fit() {
    let mut env = Env::new(a("CONTRACT"), NOW);
    assert_eq!(
        create_with(&mut env, "E", 500, 7, u64::MAX - NOW + 1),
        Err(EscrowError::Arithmetic)
    );
    assert_eq!(balance(&env, "BUYER"), 0);
    assert_eq!(create_with(&mut env, "E", 500, 7, u64::MAX - NOW), Ok(()));
    assert_eq!(get(&mut env, "E").unwrap().timeout_at, u64::MAX);
    // Such an escrow never times out.
    env.timestamp = u64::MAX;
    assert_eq!(refund(&mut env, "E"), Err(EscrowError::TimeoutNotElapsed));
}

#[test]
fn confirmations_in_either_order() {
    let mut env = with_escrow();
    assert_eq!(confirm(&mut env, "BUYER", "E"), Ok(EscrowStatus::BuyerConfirmed));
    assert_eq!(
        names(&env),
        vec!["auth", "ttl", "confirm", "set_escrow", "ttl"]
    );
    match &env.calls[2] {
        HostCall::Publish { event: Event::Confirmed(e) } => {
            assert_eq!(e.escrow_id, s("E"));
            assert!(e.confirmed_by == a("BUYER"));
            assert!(e.buyer_confirmed && !e.seller_confirmed);
        }
        _ => panic!("not told"),
    }
    env.calls.clear();
    env.timestamp = NOW + 5;
    assert_eq!(confirm(&mut env, "SELLER", "E"), Ok(EscrowStatus::Released));
    assert_eq!(
        names(&env),
        vec!["auth", "ttl", "confirm", "transfer", "released", "set_escrow", "ttl"]
    );
    match &env.calls[4] {
        HostCall::Publish { event: Event::Released(e) } => {
            assert_eq!(e.escrow_id, s("E"));
            assert!(e.buyer == a("BUYER") && e.seller == a("SELLER"));
            assert_eq!((e.usdc_amount, e.released_at), (500, NOW + 5));
        }
        _ => panic!("not told"),
    }
    let record = get(&mut env, "E").unwrap();
    assert!(record.buyer_confirmed && record.seller_confirmed);
    assert_eq!(record.status, EscrowStatus::Released);

    let mut env = with_escrow();
    assert_eq!(confirm(&mut env, "SELLER", "E"), Ok(EscrowStatus::SellerConfirmed));
    assert_eq!(confirm(&mut env, "BUYER", "E"), Ok(EscrowStatus::Released));
}

#[test]
fn confirmation_is_refused() {
    let mut env = with_escrow();
    assert_eq!(confirm(&mut env, "BUYER", "F"), Err(EscrowError::EscrowNotFound));
    assert_eq!(names(&env), vec!["auth"]);
    assert_eq!(confirm(&mut env, "OTHER", "E"), Err(EscrowError::Unauthorized));
    assert_eq!(confirm(&mut env, "ADMIN", "E"), Err(EscrowError::Unauthorized));
    confirm(&mut env, "BUYER", "E").unwrap();
    assert_eq!(
        confirm(&mut env, "BUYER", "E"),
        Err(EscrowError::BuyerAlreadyConfirmed)
    );
    assert_eq!(status(&mut env, "E"), EscrowStatus::BuyerConfirmed);

    let mut env = with_escrow();
    confirm(&mut env, "SELLER", "E").unwrap();
    assert_eq!(
        confirm(&mut env, "SELLER", "E"),
        Err(EscrowError::SellerAlreadyConfirmed)
    );
    confirm(&mut env, "BUYER", "E").unwrap();
    for caller in ["BUYER", "SELLER", "OTHER"] {
        assert_eq!(
            confirm(&mut env, caller, "E"),
            Err(EscrowError::EscrowAlreadyClosed)
        );
    }
}

#[test]
fn a_trade_with_oneself_is_never_released() {
    let mut env = Env::new(a("CONTRACT"), NOW);
    CarbonEscrowContract::create_escrow(
        &mut env,
        a("BUYER"),
        s("E"),
        a("BUYER"),
        a("USDC"),
        500,
        s("BATCH"),
        7,
        60,
    )
    .unwrap();
    assert_eq!(confirm(&mut env, "BUYER", "E"), Ok(EscrowStatus::BuyerConfirmed));
    assert_eq!(
        confirm(&mut env, "BUYER", "E"),
        Err(EscrowError::BuyerAlreadyConfirmed)
    );
    env.timestamp = NOW + 61;
    assert_eq!(refund(&mut env, "E"), Ok(()));
    assert_eq!(balance(&env, "BUYER"), 0);
}

#[test]
fn refund_only_past_the_timeout() {
    let mut env = with_escrow();
    assert_eq!(refund(&mut env, "F"), Err(EscrowError::EscrowNotFound));
    env.timestamp = NOW + 3600;
    assert_eq!(refund(&mut env, "E"), Err(EscrowError::TimeoutNotElapsed));
    assert_eq!(names(&env), vec!["ttl"]);
    env.calls.clear();
    env.timestamp = NOW + 3601;
    assert_eq!(refund(&mut env, "E"), Ok(()));
    assert_eq!(
        names(&env),
        vec!["ttl", "transfer", "refunded", "set_escrow", "ttl"]
    );
    match &env.calls[1] {
        HostCall::Transfer { token, from, to, amount } => {
            assert!(*token == a("USDC"));
            assert!(*from == a("CONTRACT"));
            assert!(*to == a("BUYER"));
            assert_eq!(*amount, 500);
        }
        _ => panic!("no transfer"),
    }
    match &env.calls[2] {
        HostCall::Publish { event: Event::Refunded(e) } => {
            assert_eq!(e.escrow_id, s("E"));
            assert!(e.buyer == a("BUYER"));
            assert_eq!((e.usdc_amount, e.refunded_at), (500, NOW + 3601));
        }
        _ => panic!("not told"),
    }
    assert_eq!(refund(&mut env, "E"), Err(EscrowError::EscrowAlreadyClosed));
}

#[test]
fn one_confirmation_does_not_stop_a_refund() {
    for caller in ["BUYER", "SELLER"] {
        let mut env = Env::new(a("CONTRACT"), NOW);
        create_with(&mut env, "E", 500, 7, 3600).unwrap();
        confirm(&mut env, caller, "E").unwrap();
        get(&mut env, "E").unwrap();
        assert_eq!(refund(&mut env, "E"), Err(EscrowError::TimeoutNotElapsed));
        assert_eq!(balance(&env, "CONTRACT"), 500);
        env.timestamp = NOW + 3601;
        assert_eq!(refund(&mut env, "E"), Ok(()));
        for account in ["BUYER", "SELLER", "CONTRACT"] {
            assert_eq!(balance(&env, account), 0);
        }
        let record = get(&mut env, "E").unwrap();
        assert_eq!(record.status, EscrowStatus::Refunded);
        assert_eq!(record.buyer_confirmed, caller == "BUYER");
        assert_eq!(record.seller_confirmed, caller == "SELLER");
    }
}

#[test]
fn both_can_confirm_past_the_timeout() {
    let mut env = with_escrow();
    env.timestamp = NOW + 10_000;
    confirm(&mut env, "BUYER", "E").unwrap();
    assert_eq!(confirm(&mut env, "SELLER", "E"), Ok(EscrowStatus::Released));
    assert_eq!(refund(&mut env, "E"), Err(EscrowError::EscrowAlreadyClosed));
}

#[test]
fn only_the_admin_cancels() {
    let mut env = with_escrow();
    for caller in ["BUYER", "SELLER", "ADMI", "ADMIN2"] {
        assert_eq!(cancel(&mut env, caller, "E"), Err(EscrowError::Unauthorized));
    }
    assert_eq!(names(&env), vec!["auth"; 4]);
    assert_eq!(cancel(&mut env, "ADMIN", "F"), Err(EscrowError::EscrowNotFound));
    env.calls.clear();
    assert_eq!(cancel(&mut env, "ADMIN", "E"), Ok(()));
    assert_eq!(
        names(&env),
        vec!["auth", "ttl", "transfer", "refunded", "set_escrow", "ttl"]
    );
    assert_eq!(status(&mut env, "E"), EscrowStatus::Refunded);
    assert_eq!(
        cancel(&mut env, "ADMIN", "E"),
        Err(EscrowError::EscrowAlreadyClosed)
    );
}

#[test]
fn nobody_cancels_before_initialization() {
    let mut env = Env::new(a("CONTRACT"), NOW);
    create_with(&mut env, "E", 500, 7, 0).unwrap();
    assert_eq!(cancel(&mut env, "ADMIN", "E"), Err(EscrowError::Unauthorized));
}

#[test]
fn queries_keep_alive_what_they_find() {
    let mut env = with_escrow();
    assert_eq!(get(&mut env, "F").unwrap_err(), EscrowError::EscrowNotFound);
    assert!(env.calls.is_empty());
    get(&mut env, "E").unwrap();
    assert_eq!(names(&env), vec!["ttl"]);
}

#[test]
fn other_escrows_are_untouched() {
    let mut env = with_escrow();
    create_with(&mut env, "EE", 30, 1, 60).unwrap();
    create_with(&mut env, "", 20, 1, 60).unwrap();
    confirm(&mut env, "BUYER", "E").unwrap();
    cancel(&mut env, "ADMIN", "EE").unwrap();
    assert_eq!(status(&mut env, "E"), EscrowStatus::BuyerConfirmed);
    assert_eq!(status(&mut env, "EE"), EscrowStatus::Refunded);
    assert_eq!(status(&mut env, ""), EscrowStatus::Active);
    assert_eq!(get(&mut env, "").unwrap().usdc_amount, 20);
}

#[test]
fn the_contract_holds_what_is_locked() {
    let mut env = Env::new(a("CONTRACT"), NOW);
    CarbonEscrowContract::initialize(&mut env, a("ADMIN")).unwrap();
    create_with(&mut env, "1", 500, 1, 60).unwrap();
    create_with(&mut env, "2", 30, 1, 60).unwrap();
    create_with(&mut env, "3", 4, 1, 600).unwrap();
    assert_eq!(balance(&env, "CONTRACT"), 534);
    confirm(&mut env, "SELLER", "1").unwrap();
    assert_eq!(balance(&env, "CONTRACT"), 534);
    confirm(&mut env, "BUYER", "1").unwrap();
    assert_eq!(balance(&env, "CONTRACT"), 34);
    env.timestamp = NOW + 61;
    refund(&mut env, "2").unwrap();
    assert_eq!(refund(&mut env, "3"), Err(EscrowError::TimeoutNotElapsed));
    assert_eq!(balance(&env, "CONTRACT"), 4);
    cancel(&mut env, "ADMIN", "3").unwrap();
    assert_eq!(balance(&env, "CONTRACT"), 0);
    assert_eq!(balance(&env, "SELLER"), 500);
    assert_eq!(balance(&env, "BUYER"), -500);
}

#[test]
fn a_closing_settles_its_own_deposit_only() {
    let mut env = Env::new(a("CONTRACT"), NOW);
    CarbonEscrowContract::initialize(&mut env, a("ADMIN")).unwrap();
    create_with(&mut env, "1", 500, 1, 60).unwrap();
    create_with(&mut env, "2", 30, 1, 60).unwrap();
    confirm(&mut env, "BUYER", "2").unwrap();
    confirm(&mut env, "SELLER", "2").unwrap();
    cancel(&mut env, "ADMIN", "1").unwrap();
    assert_eq!(balance(&env, "BUYER"), -30);
    assert_eq!(balance(&env, "SELLER"), 30);
    assert_eq!(balance(&env, "CONTRACT"), 0);
}

#[test]
fn the_contract_can_be_its_own_admin() {
    let mut env = Env::new(a("CONTRACT"), NOW);
    CarbonEscrowContract::initialize(&mut env, a("CONTRACT")).unwrap();
    create_with(&mut env, "1", 500, 1, 60).unwrap();
    create_with(&mut env, "2", 30, 1, 60).unwrap();
    cancel(&mut env, "CONTRACT", "1").unwrap();
    assert_eq!(balance(&env, "CONTRACT"), 30);
}

#[test]
fn the_contract_as_seller_holds_more_than_is_locked() {
    let mut env = Env::new(a("CONTRACT"), NOW);
    create_with(&mut env, "1", 30, 1, 60).unwrap();
    CarbonEscrowContract::create_escrow(
        &mut env,
        a("BUYER"),
        s("2"),
        a("CONTRACT"),
        a("USDC"),
        500,
        s("BATCH"),
        7,
        60,
    )
    .unwrap();
    // A confirmation that is refused changes nothing.
    assert_eq!(confirm(&mut env, "CONTRACT", "1"), Err(EscrowError::Unauthorized));
    assert_eq!(balance(&env, "CONTRACT"), 530);
    confirm(&mut env, "CONTRACT", "2").unwrap();
    assert_eq!(confirm(&mut env, "BUYER", "2"), Ok(EscrowStatus::Released));
    // Only 30 are still locked.
    assert_eq!(balance(&env, "CONTRACT"), 530);
}

#[test]
fn only_initialization_and_cancellation_read_the_admin() {
    let mut with_admin = with_escrow();
    let mut without = Env::new(a("CONTRACT"), NOW);
    create_with(&mut without, "E", 500, 7, 3600).unwrap();
    without.calls.clear();
    for env in [&mut with_admin, &mut without] {
        assert_eq!(create_with(env, "F", 1, 1, 0), Ok(()));
        assert_eq!(confirm(env, "BUYER", "E"), Ok(EscrowStatus::BuyerConfirmed));
        assert_eq!(refund(env, "E"), Err(EscrowError::TimeoutNotElapsed));
        assert_eq!(status(env, "E"), EscrowStatus::BuyerConfirmed);
    }
    assert_eq!(names(&with_admin), names(&without));
    assert_eq!(cancel(&mut with_admin, "ADMIN", "E"), Ok(()));
    assert_eq!(cancel(&mut without, "ADMIN", "E"), Err(EscrowError::Unauthorized));
}

#[test]
fn the_host_keeps_up() {
    let mut env = Env::new(a("CONTRACT"), NOW);
    CarbonEscrowContract::initialize(&mut env, a("ADMIN")).unwrap();
    create_with(&mut env, "1", 500, 1, 60).unwrap();
    create_with(&mut env, "2", 30, 1, 60).unwrap();
    confirm(&mut env, "SELLER", "1").unwrap();
    cancel(&mut env, "ADMIN", "2").unwrap();

    let mut kept = Storage::new();
    for call in &env.calls {
        match call {
            HostCall::SetAdmin { admin } => kept.set_admin(admin.clone()),
            HostCall::SetEscrow { escrow_id, record } => {
                kept.set_escrow(escrow_id.clone(), record.clone())
            }
            _ => {}
        }
    }
    assert!(kept.get_admin() == Some(a("ADMIN")));
    assert!(kept.has(&DataKey::Admin));
    assert!(kept.has(&DataKey::Escrow(s("1"))));
    assert!(!kept.has(&DataKey::Escrow(s("3"))));
    assert_eq!(
        kept.get_escrow(&s("1")).unwrap().status,
        EscrowStatus::SellerConfirmed
    );
    assert_eq!(kept.get_escrow(&s("2")).unwrap().status, EscrowStatus::Refunded);
    assert!(kept.get_escrow(&s("3")).is_none());
}
