use signal_relay::cipher::{decrypt_secret, encrypt_secret, CipherError};
use signal_relay::config::Config;
use signal_relay::guards::AdminGuard;
use signal_relay::relay::{RelayError, StoredCredential};
use signal_relay::server::CORS;
use signal_relay::strategies::{
    expect_found, partition_strategies, rename_strategy, strategy_created, webhook_url,
};
use signal_relay::text::same_text;
use signal_relay::types::{CreateStrategyRequest, RegisterUserRequest, Strategy, UpdateUserRequest};
use signal_relay::users::{
    balance_after_decryption, balance_query, prepare_update, register, user_record, user_update,
};

fn pass() -> AdminGuard {
    AdminGuard::authorize(Some("t0ken"), &config()).unwrap()
}

fn config() -> Config {
    Config::new("https://bot.example".to_string(), "t0ken".to_string(), "M".to_string())
}

#[test]
fn registered_secret_decrypts_under_the_master_key_only() {
    let request = RegisterUserRequest {
        user_telegram_id: 42,
        api_key: "public".to_string(),
        secret_key: "s3cr3t".to_string(),
        exchange: "binance".to_string(),
    };
    let row = register(&pass(), &request, 99, "M").unwrap();
    assert_eq!(row.id, 99);
    assert_eq!(row.user_telegram_id, 42);
    assert_eq!(row.api_key, "public");
    assert_eq!(row.exchange, "binance");
    assert_ne!(row.encrypted_secret, "s3cr3t");
    assert_eq!(decrypt_secret(&row.encrypted_secret, "M"), Ok("s3cr3t".to_string()));
    assert_eq!(
        decrypt_secret(&row.encrypted_secret, "M2"),
        Err(CipherError::AuthenticationFailure)
    );
}

#[test]
fn record_and_update_take_the_blob_as_given() {
    let request = RegisterUserRequest {
        user_telegram_id: -7,
        api_key: "public".to_string(),
        secret_key: "clear".to_string(),
        exchange: "okx".to_string(),
    };
    let record = user_record(&request, 5, "b10b".to_string());
    assert_eq!(record.id, 5);
    assert_eq!(record.user_telegram_id, -7);
    assert_eq!(record.api_key, "public");
    assert_eq!(record.encrypted_secret, "b10b");
    assert_eq!(record.exchange, "okx");
    let change = UpdateUserRequest {
        api_key: "k".to_string(),
        secret_key: Some("clear".to_string()),
        exchange: "okx".to_string(),
    };
    assert_eq!(user_update(&change, Some("b10b".to_string())).encrypted_secret.unwrap(), "b10b");
    assert_eq!(user_update(&change, None).encrypted_secret, None);
}

#[test]
fn update_without_a_secret_keeps_the_stored_one() {
    let request = UpdateUserRequest {
        api_key: "new".to_string(),
        secret_key: None,
        exchange: "bybit".to_string(),
    };
    let change = prepare_update(&pass(), &request, "M").unwrap();
    assert_eq!(change.api_key, "new");
    assert_eq!(change.exchange, "bybit");
    assert_eq!(change.encrypted_secret, None);
}

#[test]
fn update_with_a_secret_seals_it() {
    let request = UpdateUserRequest {
        api_key: "new".to_string(),
        secret_key: Some("fresh".to_string()),
        exchange: "bybit".to_string(),
    };
    let change = prepare_update(&pass(), &request, "M").unwrap();
    let blob = change.encrypted_secret.unwrap();
    assert_eq!(decrypt_secret(&blob, "M"), Ok("fresh".to_string()));
}

#[test]
fn balance_query_carries_the_decrypted_credential() {
    let stored = StoredCredential {
        exchange: "binance".to_string(),
        api_key: "public".to_string(),
        encrypted_secret: encrypt_secret("s3cr3t", "M").unwrap(),
    };
    let query = balance_query(&pass(), Some(&stored), "M").unwrap();
    assert_eq!(query.exchange, "binance");
    assert_eq!(query.api_key, "public");
    assert_eq!(query.secret, "s3cr3t");
    assert_eq!(balance_query(&pass(), Some(&stored), "M2"), Err(RelayError::DecryptionFailure));
    assert_eq!(balance_query(&pass(), None, "M"), Err(RelayError::UserNotFound));
    assert_eq!(
        balance_after_decryption(&stored, Err(CipherError::InvalidUtf8)),
        Err(RelayError::DecryptionFailure)
    );
    assert_eq!(balance_after_decryption(&stored, Ok("x".to_string())).unwrap().secret, "x");
}

#[test]
fn webhook_address_is_domain_then_hyphenated_identifier() {
    assert_eq!(
        webhook_url("https://bot.example", 0xa1a2a3a4b1b2c1c2d1d2d3d4d5d6d7d8),
        "https://bot.example/webhook/a1a2a3a4-b1b2-c1c2-d1d2-d3d4d5d6d7d8"
    );
    assert_eq!(webhook_url("", 0), "/webhook/00000000-0000-0000-0000-000000000000");
    assert_eq!(webhook_url("d", 0x1f), "d/webhook/00000000-0000-0000-0000-00000000001f");
    let response = strategy_created(&config(), 0x0123456789abcdef0123456789abcdef);
    assert_eq!(response.strategy_uid, 0x0123456789abcdef0123456789abcdef);
    assert_eq!(
        response.webhook,
        "https://bot.example/webhook/01234567-89ab-cdef-0123-456789abcdef"
    );
}

fn strategy(id: u128, enabled: bool) -> Strategy {
    Strategy { strategy_uid: id, strategy_name: format!("s{}", id), enabled }
}

#[test]
fn strategies_are_split_by_their_flag_in_order() {
    let rows = vec![
        strategy(1, true),
        strategy(2, false),
        strategy(3, true),
        strategy(4, false),
        strategy(5, false),
    ];
    let response = partition_strategies(rows);
    assert_eq!(response.personal, vec![strategy(1, true), strategy(3, true)]);
    assert_eq!(response.other, vec![strategy(2, false), strategy(4, false), strategy(5, false)]);
    let empty = partition_strategies(Vec::new());
    assert!(empty.personal.is_empty() && empty.other.is_empty());
}

#[test]
fn renaming_is_bound_to_the_owner_in_the_request() {
    let request = CreateStrategyRequest { user_uid: 10, strategy_name: "swing".to_string() };
    let change = rename_strategy(77, &request);
    assert_eq!(change.strategy_uid, 77);
    assert_eq!(change.owner, 10);
    assert_eq!(change.strategy_name, "swing");
}

#[test]
fn change_that_touched_no_row_found_nothing() {
    assert_eq!(expect_found(0, RelayError::UserNotFound), Err(RelayError::UserNotFound));
    assert_eq!(expect_found(0, RelayError::StrategyNotFound), Err(RelayError::StrategyNotFound));
    assert_eq!(expect_found(1, RelayError::StrategyNotFound), Ok(()));
    assert_eq!(expect_found(u64::MAX, RelayError::UserNotFound), Ok(()));
}

#[test]
fn gate_lets_the_administrator_through_and_nobody_else() {
    let config = config();
    assert!(AdminGuard::authorize(Some("t0ken"), &config).is_some());
    assert_eq!(AdminGuard::authorize(Some("t0kem"), &config), None);
    assert_eq!(AdminGuard::authorize(Some("t0ken "), &config), None);
    assert_eq!(AdminGuard::authorize(Some("T0KEN"), &config), None);
    assert_eq!(AdminGuard::authorize(Some(""), &config), None);
    assert_eq!(AdminGuard::authorize(None, &config), None);
}

#[test]
fn same_text_compares_byte_for_byte() {
    assert!(same_text("", ""));
    assert!(same_text("abc", "abc"));
    assert!(!same_text("abc", "abd"));
    assert!(!same_text("abc", "ab"));
    assert!(!same_text("xbc", "abc"));
    assert!(same_text("\u{e9}", "\u{e9}"));
    assert!(!same_text("\u{e9}", "e\u{301}"));
}

#[test]
fn cross_origin_headers() {
    assert_eq!(CORS::name(), "CORS Middleware");
    assert_eq!(
        CORS::response_headers(),
        vec![
            ("Access-Control-Allow-Origin", "*"),
            ("Access-Control-Allow-Methods", "GET, POST, PUT, DELETE, OPTIONS"),
            ("Access-Control-Allow-Headers", "Content-Type, Authorization"),
        ]
    );
}
