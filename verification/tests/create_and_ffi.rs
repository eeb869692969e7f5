use zwallet::balance::{wallet_balance, AccountBalances, BalanceReportError, WalletSummary};
use zwallet::accounts::account_address;
use zwallet::create::{
    birthday_height, chain_tip_height, checked_chain_tip_height, identity_file_contents,
    identity_file_path, new_identity, new_seed, tree_state_request_height, wallet_network, WalletNetwork,
};
use zwallet::ffi::{
    address_for_c, balance_for_c, c_text_or_empty, is_nul_free, mainnet_flag, send_arguments,
    txid_for_c,
};
use zwallet::send::{send_outcome, SendError};

#[test]
fn network_follows_the_flag() {
    assert_eq!(wallet_network(true), WalletNetwork::Main);
    assert_eq!(wallet_network(false), WalletNetwork::Test);
    assert!(mainnet_flag(1));
    assert!(mainnet_flag(7));
    assert!(!mainnet_flag(0));
}

#[test]
fn chain_tip_must_fit_a_block_height() {
    assert_eq!(chain_tip_height(2_900_000), 2_900_000);
    assert_eq!(checked_chain_tip_height(u32::MAX as u64), Some(u32::MAX));
    assert_eq!(checked_chain_tip_height(u32::MAX as u64 + 1), None);
}

#[test]
fn birthday_is_a_hundred_blocks_back() {
    assert_eq!(birthday_height(2_900_000), 2_899_900);
    assert_eq!(birthday_height(100), 0);
    assert_eq!(birthday_height(42), 0);
    assert_eq!(tree_state_request_height(2_899_900), 2_899_899);
    assert_eq!(tree_state_request_height(0), 0);
}

#[test]
fn identity_path_joins_like_pathbuf() {
    for dir in ["wallets/main", "wallets/main/", "", "/abs"] {
        let mut p = std::path::PathBuf::from(dir);
        p.push("wallet");
        assert_eq!(identity_file_path(dir), p.into_os_string().into_string().unwrap());
    }
    assert_eq!(identity_file_path("w"), "w/wallet");
}

#[test]
fn identity_file_has_three_lines() {
    let c = identity_file_contents("2024-01-02T03:04:05Z", "age1pub", "AGE-SECRET-KEY-1X");
    assert_eq!(c, "# created: 2024-01-02T03:04:05Z\n# public key: age1pub\nAGE-SECRET-KEY-1X\n");
}

#[test]
fn new_identity_file_holds_a_usable_identity() {
    let id = new_identity();
    assert!(id.public_key.starts_with("age1"));
    assert!(id.secret_key.starts_with("AGE-SECRET-KEY-1"));
    let lines: Vec<&str> = id.file_contents.lines().collect();
    assert_eq!(lines.len(), 3);
    assert_eq!(lines[0], format!("# created: {}", id.created));
    assert_eq!(lines[1], format!("# public key: {}", id.public_key));
    let when = chrono::DateTime::parse_from_rfc3339(&id.created).unwrap();
    assert_eq!(when.to_rfc3339_opts(chrono::SecondsFormat::Secs, true), id.created);
    let parsed: age::x25519::Identity = lines[2].parse().unwrap();
    assert_eq!(parsed.to_public().to_string(), id.public_key);
}

#[test]
fn new_seed_is_the_seed_of_its_phrase() {
    let s = new_seed();
    assert_eq!(s.phrase.split(' ').count(), 24);
    let m = bip0039::Mnemonic::<bip0039::English>::from_phrase(s.phrase.as_str()).unwrap();
    assert_eq!(s.seed, m.to_seed("").to_vec());
}

#[test]
fn c_zero_and_empty_mean_not_given() {
    let a = send_arguments(0, 0, "");
    assert_eq!(a.target_note_count, None);
    assert_eq!(a.min_split_output_value, None);
    assert_eq!(a.memo, None);
    let b = send_arguments(3, 500, "thanks");
    assert_eq!(b.target_note_count, Some(3));
    assert_eq!(b.min_split_output_value, Some(500));
    assert_eq!(b.memo.as_deref(), Some("thanks"));
}

#[test]
fn nul_holding_text_becomes_empty() {
    assert!(is_nul_free("abc"));
    assert!(!is_nul_free("a\0c"));
    assert_eq!(c_text_or_empty("abc".to_owned()), "abc");
    assert_eq!(c_text_or_empty("a\0c".to_owned()), "");
}

#[test]
fn address_for_c_of_missing_address_is_empty() {
    let e = address_for_c(None);
    assert_eq!(e.t_address, "");
    assert_eq!(e.u_address, "");
    let a = address_for_c(Some(account_address("u1x".to_owned(), "t\01".to_owned())));
    assert_eq!(a.u_address, "u1x");
    assert_eq!(a.t_address, "");
}

#[test]
fn balance_for_c_of_failed_report_is_zero() {
    let z = balance_for_c(Err(BalanceReportError::MissingAccount));
    assert_eq!((z.height.as_str(), z.total, z.orchard, z.unshielded), ("", 0, 0, 0));
    let s = WalletSummary {
        chain_tip_height: 12,
        account: AccountBalances::new(1, 2, 3, 6),
    };
    let v = balance_for_c(wallet_balance(Some(s)));
    assert_eq!((v.height.as_str(), v.total, v.orchard, v.unshielded), ("12", 6, 2, 1));
}

#[test]
fn sent_txid_always_reaches_c() {
    let ok = send_outcome(&[0u8; 32], 0, String::new());
    assert_eq!(txid_for_c(ok), Some("00".repeat(32)));
    assert_eq!(txid_for_c(Err(SendError::MultipleTransactions)), None);
    assert_eq!(txid_for_c(Ok("a\0".to_owned())), None);
}
