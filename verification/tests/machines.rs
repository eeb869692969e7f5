use zcash_address::{ToAddress, ZcashAddress};
use zcash_protocol::consensus::NetworkType;
use zwallet::create::WalletNetwork;
use zwallet::creation::{create_wallet, CreationAction, CreationEvent, CreationStep, TreeStateData};
use zwallet::send::SendError;
use zwallet::transfer::{send_txn, Transfer, TransferAction, TransferEvent, TransferStep};

fn sapling_address() -> String {
    ZcashAddress::from_sapling(NetworkType::Test, [9u8; 43]).encode()
}

#[test]
fn creation_with_new_identity_runs_every_step() {
    let (mut c, first) = create_wallet("wallets/alice".to_owned(), false);
    assert!(matches!(first, CreationAction::FetchChainTip));
    assert_eq!(c.network, WalletNetwork::Test);
    match c.advance(CreationEvent::ChainTip(3_000_000)) {
        Some(CreationAction::CheckIdentityFile { path }) => assert_eq!(path, "wallets/alice/wallet"),
        _ => panic!("expected the identity check"),
    }
    match c.advance(CreationEvent::IdentityFileExists(false)) {
        Some(CreationAction::WriteIdentityFile { dir, path, identity }) => {
            assert_eq!(dir, "wallets/alice");
            assert_eq!(path, "wallets/alice/wallet");
            assert!(identity.file_contents.ends_with(&format!("{}\n", identity.secret_key)));
        }
        _ => panic!("expected the identity to be written"),
    }
    match c.advance(CreationEvent::IdentityReady) {
        Some(CreationAction::FetchTreeState { height, secret }) => {
            assert_eq!(height, 2_999_899);
            assert_eq!(secret.phrase.split(' ').count(), 24);
            let m = bip0039::Mnemonic::<bip0039::English>::from_phrase(secret.phrase.as_str()).unwrap();
            assert_eq!(secret.seed, m.to_seed("").to_vec());
        }
        _ => panic!("expected the tree state fetch"),
    }
    assert_eq!(c.step, CreationStep::AwaitTreeState { birthday: 2_999_900 });
    match c.advance(CreationEvent::TreeStateReady(tree_state_data(2_999_899, "00".repeat(32)))) {
        Some(CreationAction::WriteConfig { network, tree_state, birthday_height }) => {
            assert_eq!(network, WalletNetwork::Test);
            assert_eq!(tree_state, tree_state_data(2_999_899, "00".repeat(32)));
            assert_eq!(birthday_height, 2_999_900);
        }
        _ => panic!("expected the configuration"),
    }
    match c.advance(CreationEvent::ConfigWritten) {
        Some(CreationAction::InitDatabases { account_name }) => assert_eq!(account_name, "wallet"),
        _ => panic!("expected the databases"),
    }
    assert!(matches!(c.advance(CreationEvent::DatabasesReady), Some(CreationAction::Done)));
    assert_eq!(c.step, CreationStep::Finished);
    assert!(c.advance(CreationEvent::DatabasesReady).is_none());
}

#[test]
fn creation_reads_an_existing_identity() {
    let (mut c, _) = create_wallet("w".to_owned(), true);
    assert_eq!(c.network, WalletNetwork::Main);
    c.advance(CreationEvent::ChainTip(50));
    match c.advance(CreationEvent::IdentityFileExists(true)) {
        Some(CreationAction::ReadIdentityFile { path }) => assert_eq!(path, "w/wallet"),
        _ => panic!("expected the identity to be read"),
    }
    match c.advance(CreationEvent::IdentityReady) {
        Some(CreationAction::FetchTreeState { height, secret }) => {
            assert_eq!(height, 0);
            assert_eq!(secret.seed.len(), 64);
        }
        _ => panic!("expected the tree state fetch"),
    }
}

fn tree_state_data(height: u64, hash: String) -> TreeStateData {
    TreeStateData {
        network: "test".to_owned(),
        height,
        hash,
        time: 0,
        sapling_tree: String::new(),
        orchard_tree: String::new(),
        ironwood_tree: String::new(),
    }
}

#[test]
fn creation_fails_on_an_undecodable_tree_state_data() {
    let (mut c, _) = create_wallet("w".to_owned(), false);
    c.advance(CreationEvent::ChainTip(1000));
    c.advance(CreationEvent::IdentityFileExists(true));
    c.advance(CreationEvent::IdentityReady);
    assert!(matches!(
        c.advance(CreationEvent::TreeStateReady(tree_state_data(899, "zz".to_owned()))),
        Some(CreationAction::InvalidTreeState)
    ));
    assert_eq!(c.step, CreationStep::Failed);
    assert!(c.advance(CreationEvent::ConfigWritten).is_none());
}

#[test]
fn creation_fails_on_a_tree_state_beyond_block_heights() {
    let (mut c, _) = create_wallet("w".to_owned(), false);
    c.advance(CreationEvent::ChainTip(1000));
    c.advance(CreationEvent::IdentityFileExists(true));
    c.advance(CreationEvent::IdentityReady);
    assert!(matches!(
        c.advance(CreationEvent::TreeStateReady(tree_state_data(u32::MAX as u64 + 1, "00".repeat(32)))),
        Some(CreationAction::InvalidTreeState)
    ));
    assert_eq!(c.step, CreationStep::Failed);
}

#[test]
fn birthday_after_the_last_block_height_saturates() {
    let (mut c, _) = create_wallet("w".to_owned(), false);
    c.advance(CreationEvent::ChainTip(1000));
    c.advance(CreationEvent::IdentityFileExists(true));
    c.advance(CreationEvent::IdentityReady);
    match c.advance(CreationEvent::TreeStateReady(tree_state_data(u32::MAX as u64, "00".repeat(32)))) {
        Some(CreationAction::WriteConfig { birthday_height, .. }) => assert_eq!(birthday_height, u32::MAX),
        _ => panic!("expected the configuration"),
    }
}

#[test]
fn short_chain_birthday_is_block_one() {
    let (mut c, _) = create_wallet("w".to_owned(), false);
    c.advance(CreationEvent::ChainTip(40));
    c.advance(CreationEvent::IdentityFileExists(true));
    match c.advance(CreationEvent::IdentityReady) {
        Some(CreationAction::FetchTreeState { height, .. }) => assert_eq!(height, 0),
        _ => panic!("expected the tree state fetch"),
    }
    match c.advance(CreationEvent::TreeStateReady(tree_state_data(0, "00".repeat(32)))) {
        Some(CreationAction::WriteConfig { birthday_height, .. }) => assert_eq!(birthday_height, 1),
        _ => panic!("expected the configuration"),
    }
}

#[test]
fn creation_ignores_events_out_of_turn() {
    let (mut c, _) = create_wallet("w".to_owned(), true);
    assert!(c.advance(CreationEvent::ConfigWritten).is_none());
    assert_eq!(c.step, CreationStep::AwaitChainTip);
}

fn run_to_connected(memo: Option<String>, value: u64, address: String) -> (Transfer, TransferAction) {
    let mut t = send_txn(WalletNetwork::Test, None, None, address, value, memo);
    assert!(matches!(t.advance(TransferEvent::AccountLoaded { account_index: Some(0) }), TransferAction::DecryptSeed));
    assert!(matches!(
        t.advance(TransferEvent::SeedDecrypted { seed: Some(vec![5u8; 64]) }),
        TransferAction::Connect { .. }
    ));
    let a = t.advance(TransferEvent::Connected);
    (t, a)
}

#[test]
fn view_only_account_cannot_send() {
    let mut t = send_txn(WalletNetwork::Main, None, None, "junk".to_owned(), 1, None);
    assert!(matches!(
        t.advance(TransferEvent::AccountLoaded { account_index: None }),
        TransferAction::Finish { outcome: Err(SendError::ViewOnlyAccount) }
    ));
    assert!(matches!(t.step, TransferStep::Finished));
}

#[test]
fn missing_seed_cannot_send() {
    let mut t = send_txn(WalletNetwork::Main, None, None, "junk".to_owned(), 1, None);
    t.advance(TransferEvent::AccountLoaded { account_index: Some(0) });
    assert!(matches!(
        t.advance(TransferEvent::SeedDecrypted { seed: None }),
        TransferAction::Finish { outcome: Err(SendError::MissingSeed) }
    ));
}

#[test]
fn account_index_beyond_31_bits_cannot_sign() {
    let mut t = send_txn(WalletNetwork::Main, None, None, "junk".to_owned(), 1, None);
    t.advance(TransferEvent::AccountLoaded { account_index: Some(0x8000_0000) });
    assert!(matches!(
        t.advance(TransferEvent::SeedDecrypted { seed: Some(vec![1u8; 32]) }),
        TransferAction::Finish { outcome: Err(SendError::KeyDerivation(None)) }
    ));
}

#[test]
fn bad_recipient_ends_after_connecting() {
    let (_, a) = run_to_connected(None, 1, "junk".to_owned());
    assert!(matches!(a, TransferAction::Finish { outcome: Err(SendError::InvalidRecipient) }));
}

#[test]
fn transfer_sends_and_reports_txid() {
    let mut t = send_txn(WalletNetwork::Test, None, None, sapling_address(), 12_345, Some("hello".to_owned()));
    t.advance(TransferEvent::AccountLoaded { account_index: Some(3) });
    let seed = vec![5u8; 64];
    match t.advance(TransferEvent::SeedDecrypted { seed: Some(seed.clone()) }) {
        TransferAction::Connect { spending_key } => {
            let params = zcash_protocol::consensus::Network::TestNetwork;
            let direct = zcash_keys::keys::UnifiedSpendingKey::from_seed(&params, &seed, 3u32.try_into().unwrap()).unwrap();
            assert_eq!(
                spending_key.to_unified_full_viewing_key().encode(&params),
                direct.to_unified_full_viewing_key().encode(&params)
            );
        }
        _ => panic!("expected the connection"),
    }
    let a = t.advance(TransferEvent::Connected);
    match a {
        TransferAction::Propose { transfer } => {
            assert_eq!(transfer.target_note_count, 4);
            assert_eq!(transfer.value, 12_345);
            assert_eq!(transfer.recipient, sapling_address());
            assert_eq!(transfer.memo.as_deref(), Some("hello"));
            assert_eq!(transfer.request.payments().len(), 1);
        }
        _ => panic!("expected a proposal"),
    }
    let id = [0x11u8; 32];
    assert!(matches!(
        t.advance(TransferEvent::TransactionsCreated { txids: vec![id] }),
        TransferAction::FetchTransaction { txid } if txid == id
    ));
    assert!(matches!(t.advance(TransferEvent::TransactionFetched { found: true }), TransferAction::Broadcast));
    match t.advance(TransferEvent::BroadcastAnswered { error_code: 0, error_message: String::new() }) {
        TransferAction::Finish { outcome: Ok(text) } => assert_eq!(text, "11".repeat(32)),
        _ => panic!("expected success"),
    }
}

#[test]
fn transfer_refusals_after_proposal() {
    let (mut t, _) = run_to_connected(None, 10, sapling_address());
    assert!(matches!(
        t.advance(TransferEvent::TransactionsCreated { txids: vec![[1u8; 32], [2u8; 32]] }),
        TransferAction::Finish { outcome: Err(SendError::MultipleTransactions) }
    ));
    let (mut t, _) = run_to_connected(None, 10, sapling_address());
    t.advance(TransferEvent::TransactionsCreated { txids: vec![[1u8; 32]] });
    assert!(matches!(
        t.advance(TransferEvent::TransactionFetched { found: false }),
        TransferAction::Finish { outcome: Err(SendError::TransactionNotFound) }
    ));
    let (mut t, _) = run_to_connected(None, 10, sapling_address());
    t.advance(TransferEvent::TransactionsCreated { txids: vec![[1u8; 32]] });
    t.advance(TransferEvent::TransactionFetched { found: true });
    match t.advance(TransferEvent::BroadcastAnswered { error_code: 18, error_message: "dup".to_owned() }) {
        TransferAction::Finish { outcome: Err(SendError::SendFailed { code, reason }) } => {
            assert_eq!(code, 18);
            assert_eq!(reason, "dup");
        }
        _ => panic!("expected a refusal"),
    }
}
