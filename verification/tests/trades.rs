//! Whole trades on the test host of the SDK: token transfers are done by its asset
//! contract, authorizations are mocked, and the entries stay with the library.
use carbon_escrow::{CarbonEscrowContract, Env, EscrowError, EscrowRecord, EscrowStatus, HostCall};
use soroban_sdk::testutils::{
    Address as _, ContractFunctionSet, EnvTestConfig, Ledger as _, LedgerInfo,
};
use soroban_sdk::token::{Client as TokenClient, StellarAssetClient};
use soroban_sdk::{Address, Bytes, Val};

/// Gives the escrow contract an address. It is entered by `as_contract` only.
struct Account;

impl ContractFunctionSet for Account {
    fn call(&self, _func: &str, _env: soroban_sdk::Env, _args: &[Val]) -> Option<Val> {
        None
    }
}

fn plain(address: &Address) -> carbon_escrow::Address {
    let strkey = address.to_string();
    let mut bytes = vec![0u8; strkey.len() as usize];
    strkey.copy_into_slice(&mut bytes);
    carbon_escrow::Address { strkey: bytes }
}

fn hosted(env: &soroban_sdk::Env, address: &carbon_escrow::Address) -> Address {
    Address::from_string_bytes(&Bytes::from_slice(env, &address.strkey))
}

fn s(v: &str) -> Vec<u8> {
    v.as_bytes().to_vec()
}

/// The contract on the test host: the authorizations and transfers that a call
/// asks for are done before the call
/// answers.
struct Client {
    env: soroban_sdk::Env,
    contract: Address,
    state: Env,
}

impl Client {
    fn settle<T>(&mut self, call: impl FnOnce(&mut Env) -> T) -> T {
        self.state.timestamp = self.env.ledger().timestamp();
        let done = self.state.calls.len();
        let result = call(&mut self.state);
        let asked = &self.state.calls[done..];
        let env = &self.env;
        env.as_contract(&self.contract, || {
            for call in asked {
                match call {
                    HostCall::RequireAuth { address } => hosted(env, address).require_auth(),
                    HostCall::Transfer { token, from, to, amount } => {
                        TokenClient::new(env, &hosted(env, token)).transfer(
                            &hosted(env, from),
                            &hosted(env, to),
                            amount,
                        )
                    }
                    _ => {}
                }
            }
        });
        result
    }

    fn initialize(&mut self, admin: &Address) -> Result<(), EscrowError> {
        self.settle(|env| CarbonEscrowContract::initialize(env, plain(admin)))
    }

    fn create_escrow(
        &mut self,
        buyer: &Address,
        escrow_id: &str,
        seller: &Address,
        usdc_token: &Address,
        usdc_amount: i128,
        credit_batch_id: &str,
        credit_amount: i128,
        timeout_secs: u64,
    ) -> Result<(), EscrowError> {
        self.settle(|env| {
            CarbonEscrowContract::create_escrow(
                env,
                plain(buyer),
                s(escrow_id),
                plain(seller),
                plain(usdc_token),
                usdc_amount,
                s(credit_batch_id),
                credit_amount,
                timeout_secs,
            )
        })
    }

    fn confirm_escrow(&mut self, caller: &Address, id: &str) -> Result<EscrowStatus, EscrowError> {
        self.settle(|env| CarbonEscrowContract::confirm_escrow(env, plain(caller), s(id)))
    }

    fn refund_escrow(&mut self, id: &str) -> Result<(), EscrowError> {
        self.settle(|env| CarbonEscrowContract::refund_escrow(env, s(id)))
    }

    fn cancel_escrow(&mut self, admin: &Address, id: &str) -> Result<(), EscrowError> {
        self.settle(|env| CarbonEscrowContract::cancel_escrow(env, plain(admin), s(id)))
    }

    fn get_escrow(&mut self, id: &str) -> Result<EscrowRecord, EscrowError> {
        self.settle(|env| CarbonEscrowContract::get_escrow(env, s(id)))
    }
}

fn new_env() -> soroban_sdk::Env {
    soroban_sdk::Env::new_with_config(EnvTestConfig {
        capture_snapshot_at_drop: false,
    })
}

fn setup(env: &soroban_sdk::Env) -> (Client, Address, Address, Address, Address) {
    env.mock_all_auths();
    let admin = Address::generate(env);
    let buyer = Address::generate(env);
    let seller = Address::generate(env);
    let usdc = env.register_stellar_asset_contract_v2(admin.clone()).address();

    let contract = env.register(Account, ());
    let state = Env::new(plain(&contract), env.ledger().timestamp());
    let mut client = Client {
        env: env.clone(),
        contract,
        state,
    };
    client.initialize(&admin).unwrap();

    // Fund buyer with USDC.
    let usdc_admin = StellarAssetClient::new(env, &usdc);
    usdc_admin.mint(&buyer, &1_000_000_000i128);

    (client, admin, buyer, seller, usdc)
}

#[test]
fn test_create_and_mutual_confirm_releases_funds() {
    let env = new_env();
    let (mut client, _admin, buyer, seller, usdc) = setup(&env);

    // Set ledger to a deterministic timestamp.
    env.ledger().set(LedgerInfo {
        timestamp: 1_000_000,
        protocol_version: 22,
        sequence_number: 100,
        network_id: Default::default(),
        base_reserve: 10,
        min_temp_entry_ttl: 1,
        min_persistent_entry_ttl: 1,
        max_entry_ttl: 6_312_000,
    });

    let amount: i128 = 500_000_000;
    client
        .create_escrow(
            &buyer,
            "ESC-001",
            &seller,
            &usdc,
            amount,
            "BATCH-A",
            100i128,
            0u64, // use default 7-day timeout
        )
        .unwrap();

    // Check escrow is active.
    let record = client.get_escrow("ESC-001").unwrap();
    assert_eq!(record.status, EscrowStatus::Active);
    assert_eq!(record.usdc_amount, amount);

    // Seller confirms first.
    let status = client.confirm_escrow(&seller, "ESC-001").unwrap();
    assert_eq!(status, EscrowStatus::SellerConfirmed);

    // Buyer confirms: triggers release.
    let status = client.confirm_escrow(&buyer, "ESC-001").unwrap();
    assert_eq!(status, EscrowStatus::Released);

    let usdc_client = TokenClient::new(&env, &usdc);
    assert_eq!(usdc_client.balance(&seller), amount);
}

#[test]
fn test_refund_after_timeout() {
    let env = new_env();
    let (mut client, _admin, buyer, seller, usdc) = setup(&env);

    env.ledger().set(LedgerInfo {
        timestamp: 1_000_000,
        protocol_version: 22,
        sequence_number: 100,
        network_id: Default::default(),
        base_reserve: 10,
        min_temp_entry_ttl: 1,
        min_persistent_entry_ttl: 1,
        max_entry_ttl: 6_312_000,
    });

    let amount: i128 = 500_000_000;
    client
        .create_escrow(
            &buyer,
            "ESC-002",
            &seller,
            &usdc,
            amount,
            "BATCH-B",
            50i128,
            3600u64, // 1-hour timeout
        )
        .unwrap();

    // Advance time past timeout.
    env.ledger().set(LedgerInfo {
        timestamp: 1_000_000 + 3601,
        protocol_version: 22,
        sequence_number: 200,
        network_id: Default::default(),
        base_reserve: 10,
        min_temp_entry_ttl: 1,
        min_persistent_entry_ttl: 1,
        max_entry_ttl: 6_312_000,
    });

    client.refund_escrow("ESC-002").unwrap();

    let record = client.get_escrow("ESC-002").unwrap();
    assert_eq!(record.status, EscrowStatus::Refunded);

    let usdc_client = TokenClient::new(&env, &usdc);
    // Buyer gets their USDC back.
    assert_eq!(usdc_client.balance(&buyer), 1_000_000_000i128);
}

#[test]
fn test_refund_before_timeout_fails() {
    let env = new_env();
    let (mut client, _admin, buyer, seller, usdc) = setup(&env);

    env.ledger().set(LedgerInfo {
        timestamp: 1_000_000,
        protocol_version: 22,
        sequence_number: 100,
        network_id: Default::default(),
        base_reserve: 10,
        min_temp_entry_ttl: 1,
        min_persistent_entry_ttl: 1,
        max_entry_ttl: 6_312_000,
    });

    let amount: i128 = 500_000_000;
    client
        .create_escrow(
            &buyer, "ESC-003", &seller, &usdc, amount, "BATCH-C", 50i128, 3600u64,
        )
        .unwrap();

    // Do NOT advance time: refund should fail.
    let result = client.refund_escrow("ESC-003");
    assert!(result.is_err());
    assert_eq!(result, Err(EscrowError::TimeoutNotElapsed));

    let usdc_client = TokenClient::new(&env, &usdc);
    assert_eq!(usdc_client.balance(&client.contract), amount);
}

#[test]
fn test_cancel_escrow_by_admin() {
    let env = new_env();
    let (mut client, admin, buyer, seller, usdc) = setup(&env);

    env.ledger().set(LedgerInfo {
        timestamp: 1_000_000,
        protocol_version: 22,
        sequence_number: 100,
        network_id: Default::default(),
        base_reserve: 10,
        min_temp_entry_ttl: 1,
        min_persistent_entry_ttl: 1,
        max_entry_ttl: 6_312_000,
    });

    let amount: i128 = 500_000_000;
    client
        .create_escrow(
            &buyer, "ESC-004", &seller, &usdc, amount, "BATCH-D", 50i128, 3600u64,
        )
        .unwrap();

    // Admin force-cancels.
    client.cancel_escrow(&admin, "ESC-004").unwrap();
    let record = client.get_escrow("ESC-004").unwrap();
    assert_eq!(record.status, EscrowStatus::Refunded);
}
