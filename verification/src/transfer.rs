//! The course of sending a transfer, as a machine that the caller drives: it
//! decides, from what each piece of outside work gave (the account, the
//! seed, the server connection, the created transactions, the server's
//! answer), what to do next and what the transfer comes to.
use vstd::prelude::*;
use crate::create::WalletNetwork;
use crate::send::{
    prepare_transfer, preparation_fits, proposal_txid, send_outcome, txid_text, PreparedTransfer,
    SendError,
};
use zcash_keys::keys::{DerivationError, UnifiedSpendingKey};

verus! {

#[verifier::external_type_specification]
#[verifier::external_body]
pub struct ExUnifiedSpendingKey(UnifiedSpendingKey);

#[verifier::external_type_specification]
#[verifier::external_body]
pub struct ExDerivationError(DerivationError);

/// The text of the unified full viewing key of a spending key on a network:
/// `UnifiedSpendingKey::to_unified_full_viewing_key`, then
/// `UnifiedFullViewingKey::encode`.
pub uninterp spec fn spending_key_ufvk(network: WalletNetwork, key: UnifiedSpendingKey) -> Seq<char>;

/// The text of the unified full viewing key of the spending key that
/// `UnifiedSpendingKey::from_seed` derives for the account of this index from
/// this seed on this network (encoded as in `spending_key_ufvk`).
pub uninterp spec fn seed_account_ufvk(network: WalletNetwork, seed: Seq<u8>, account_index: u32) -> Seq<char>;

/// Whether `UnifiedSpendingKey::from_seed` derives the spending key of the
/// account of this index from this seed on this network.
pub uninterp spec fn spending_key_derivable(network: WalletNetwork, seed: Seq<u8>, account_index: u32) -> bool;

/// Derives an account's spending key from the wallet seed with
/// `UnifiedSpendingKey::from_seed`, after reading the index as a ZIP 32
/// account index.
///
/// The outside function stops the program on a seed shorter than 32 bytes,
/// which `requires` leaves out. Claimed: it succeeds exactly where
/// `spending_key_derivable` holds, a result that depends on the network, the
/// seed and the index alone, and the key it gives is the one derived for that
/// account (its viewing key text is `seed_account_ufvk` of them); it fails
/// with no derivation error exactly for an index of 2^31 or more, which is no
/// ZIP 32 account index.
#[verifier::external_body]
fn spending_key_from_seed(network: WalletNetwork, seed: &[u8], account_index: u32) -> (r: Result<UnifiedSpendingKey, Option<DerivationError>>)
    requires
        seed@.len() >= 32,
    ensures
        r is Ok <==> spending_key_derivable(network, seed@, account_index),
        r matches Ok(key) ==> spending_key_ufvk(network, key) == seed_account_ufvk(network, seed@, account_index),
        r matches Err(e) ==> (e is None <==> account_index >= 0x8000_0000),
{
    let account = account_index.try_into().map_err(|_| None)?;
    match network {
        WalletNetwork::Main => UnifiedSpendingKey::from_seed(&zcash_protocol::consensus::Network::MainNetwork, seed, account),
        WalletNetwork::Test => UnifiedSpendingKey::from_seed(&zcash_protocol::consensus::Network::TestNetwork, seed, account),
    }.map_err(Some)
}

/// Where a transfer stands.
#[derive(Clone, Copy, Debug)]
pub enum TransferStep {
    /// Waiting for the account to be read.
    AwaitAccount,
    /// Waiting for the seed to be decrypted, for the account of this index.
    AwaitSeed { account_index: u32 },
    /// Waiting for the connection to the server.
    AwaitConnection,
    /// Waiting for the proposal to be made and its transactions created.
    AwaitTransactions,
    /// Waiting for the created transaction to be read from the wallet.
    AwaitTransaction { txid: [u8; 32] },
    /// Waiting for the server's answer to the broadcast.
    AwaitBroadcast { txid: [u8; 32] },
    /// The transfer has come to an outcome.
    Finished,
}

/// What came of the last piece of outside work.
pub enum TransferEvent {
    /// The account was read: the index of its spending key derivation, or
    /// nothing for an account that can only view.
    AccountLoaded { account_index: Option<u32> },
    /// The seed was decrypted, where the configuration held one.
    SeedDecrypted { seed: Option<Vec<u8>> },
    /// The connection to the server is open.
    Connected,
    /// The transactions created for the proposal, by id (never none).
    TransactionsCreated { txids: Vec<[u8; 32]> },
    /// Whether the created transaction was found in the wallet.
    TransactionFetched { found: bool },
    /// The server's answer to the broadcast.
    BroadcastAnswered { error_code: i32, error_message: String },
}

/// The next piece of outside work, or the outcome.
pub enum TransferAction {
    /// Decrypt the wallet's seed.
    DecryptSeed,
    /// Connect to the server; the spending key signs the transfer later.
    Connect { spending_key: UnifiedSpendingKey },
    /// Propose this transfer and create its transactions.
    Propose { transfer: PreparedTransfer },
    /// Read the transaction of this id from the wallet.
    FetchTransaction { txid: [u8; 32] },
    /// Broadcast the transaction that was read.
    Broadcast,
    /// The transfer is over: the id of the sent transaction, or why not.
    Finish { outcome: Result<String, SendError> },
}

/// A transfer in progress, with what it was asked to send.
pub struct Transfer {
    pub network: WalletNetwork,
    pub target_note_count: Option<usize>,
    pub min_split_output_value: Option<u64>,
    pub address: String,
    pub value: u64,
    pub memo: Option<String>,
    pub step: TransferStep,
}

/// An event that the caller can report in a step: the one that the step
/// waits for, with a non-empty list of transaction ids.
pub open spec fn event_expected(step: TransferStep, event: &TransferEvent) -> bool {
    match step {
        TransferStep::AwaitAccount => event is AccountLoaded,
        TransferStep::AwaitSeed { .. } => event matches TransferEvent::SeedDecrypted { seed } && (seed matches Some(s) ==> s@.len() >= 32),
        TransferStep::AwaitConnection => event is Connected,
        TransferStep::AwaitTransactions => event matches TransferEvent::TransactionsCreated { txids } && txids@.len() >= 1,
        TransferStep::AwaitTransaction { .. } => event is TransactionFetched,
        TransferStep::AwaitBroadcast { .. } => event is BroadcastAnswered,
        TransferStep::Finished => false,
    }
}

/// Begins sending a transfer of `value` zatoshis to `address`, with an optional
/// memo and change split settings; the first work is to read the account.
pub fn send_txn(
    network: WalletNetwork,
    target_note_count: Option<usize>,
    min_split_output_value: Option<u64>,
    address: String,
    value: u64,
    memo: Option<String>,
) -> (r: Transfer)
    ensures
        r.network == network,
        r.target_note_count == target_note_count,
        r.min_split_output_value == min_split_output_value,
        r.address == address,
        r.value == value,
        r.memo == memo,
        r.step == TransferStep::AwaitAccount,
{
    Transfer { network, target_note_count, min_split_output_value, address, value, memo, step: TransferStep::AwaitAccount }
}

impl Transfer {
    /// Takes in what came of the last piece of outside work and decides what
    /// follows. A view-only account, a missing seed, a transfer that fails
    /// its checks, a proposal of several transactions, a transaction missing
    /// from the wallet and a refused broadcast each end the transfer.
    pub fn advance(&mut self, event: TransferEvent) -> (r: TransferAction)
        requires
            event_expected(old(self).step, &event),
        ensures
            final(self).network == old(self).network,
            final(self).target_note_count == old(self).target_note_count,
            final(self).min_split_output_value == old(self).min_split_output_value,
            final(self).address == old(self).address,
            final(self).value == old(self).value,
            final(self).memo == old(self).memo,
            r is Finish <==> final(self).step == TransferStep::Finished,
            event matches TransferEvent::AccountLoaded { account_index } ==> (account_index matches Some(i) ==> (r is DecryptSeed && final(self).step == TransferStep::AwaitSeed { account_index: i })) && (account_index is None ==> r matches TransferAction::Finish { outcome: Err(SendError::ViewOnlyAccount) }),
            event matches TransferEvent::SeedDecrypted { seed } ==> (seed is None ==> r matches TransferAction::Finish { outcome: Err(SendError::MissingSeed) }) && (seed is Some ==> (r is Connect || r matches TransferAction::Finish { outcome: Err(SendError::KeyDerivation(_)) })) && (r is Connect ==> final(self).step == TransferStep::AwaitConnection),
            event matches TransferEvent::SeedDecrypted { seed } ==> (old(self).step matches TransferStep::AwaitSeed { account_index } && (seed matches Some(s) ==> (r is Connect <==> spending_key_derivable(old(self).network, s@, account_index)))),
            event matches TransferEvent::SeedDecrypted { seed } ==> (old(self).step matches TransferStep::AwaitSeed { account_index } && (seed matches Some(s) ==> (r matches TransferAction::Connect { spending_key } ==> spending_key_ufvk(old(self).network, spending_key) == seed_account_ufvk(old(self).network, s@, account_index)))),
            event matches TransferEvent::SeedDecrypted { seed } ==> (old(self).step matches TransferStep::AwaitSeed { account_index } && (seed is Some ==> (r matches TransferAction::Finish { outcome: Err(SendError::KeyDerivation(e)) } ==> (e is None <==> account_index >= 0x8000_0000)))),
            event is Connected ==> (r is Propose ==> final(self).step == TransferStep::AwaitTransactions) && (r is Propose || r is Finish),
            event is Connected ==> (exists|p: Result<PreparedTransfer, SendError>| #[trigger] preparation_fits(old(self).target_note_count, old(self).min_split_output_value, old(self).address@, old(self).value, old(self).memo, p) && match p {
                Ok(t) => r == TransferAction::Propose { transfer: t },
                Err(e) => r == TransferAction::Finish { outcome: Err(e) },
            }),
            event matches TransferEvent::TransactionsCreated { txids } ==> (txids@.len() > 1 ==> r matches TransferAction::Finish { outcome: Err(SendError::MultipleTransactions) }) && (txids@.len() == 1 ==> (r == TransferAction::FetchTransaction { txid: txids@[0] } && final(self).step == TransferStep::AwaitTransaction { txid: txids@[0] })),
            event matches TransferEvent::TransactionFetched { found } ==> (old(self).step matches TransferStep::AwaitTransaction { txid } && (found ==> (r is Broadcast && final(self).step == TransferStep::AwaitBroadcast { txid })) && (!found ==> r matches TransferAction::Finish { outcome: Err(SendError::TransactionNotFound) })),
            event matches TransferEvent::BroadcastAnswered { error_code, error_message } ==> (old(self).step matches TransferStep::AwaitBroadcast { txid } && (error_code == 0 ==> (r matches TransferAction::Finish { outcome: Ok(t) } && t@ == txid_text(txid@))) && (error_code != 0 ==> (r matches TransferAction::Finish { outcome: Err(SendError::SendFailed { code, reason }) } && code == error_code && reason == error_message))),
    {
        match event {
            TransferEvent::AccountLoaded { account_index } => match account_index {
                Some(i) => {
                    self.step = TransferStep::AwaitSeed { account_index: i };
                    TransferAction::DecryptSeed
                },
                None => {
                    self.step = TransferStep::Finished;
                    TransferAction::Finish { outcome: Err(SendError::ViewOnlyAccount) }
                },
            },
            TransferEvent::SeedDecrypted { seed } => {
                let account_index = match self.step {
                    TransferStep::AwaitSeed { account_index } => account_index,
                    _ => 0,
                };
                match seed {
                    None => {
                        self.step = TransferStep::Finished;
                        TransferAction::Finish { outcome: Err(SendError::MissingSeed) }
                    },
                    Some(seed) => match spending_key_from_seed(self.network, seed.as_slice(), account_index) {
                        Ok(spending_key) => {
                            self.step = TransferStep::AwaitConnection;
                            TransferAction::Connect { spending_key }
                        },
                        Err(e) => {
                            self.step = TransferStep::Finished;
                            TransferAction::Finish { outcome: Err(SendError::KeyDerivation(e)) }
                        },
                    },
                }
            },
            TransferEvent::Connected => {
                let prepared = prepare_transfer(
                    self.target_note_count,
                    self.min_split_output_value,
                    self.address.as_str(),
                    self.value,
                    self.memo.clone(),
                );
                match prepared {
                    Ok(t) => {
                        self.step = TransferStep::AwaitTransactions;
                        TransferAction::Propose { transfer: t }
                    },
                    Err(e) => {
                        self.step = TransferStep::Finished;
                        TransferAction::Finish { outcome: Err(e) }
                    },
                }
            },
            TransferEvent::TransactionsCreated { txids } => match proposal_txid(&txids) {
                Ok(txid) => {
                    self.step = TransferStep::AwaitTransaction { txid };
                    TransferAction::FetchTransaction { txid }
                },
                Err(e) => {
                    self.step = TransferStep::Finished;
                    TransferAction::Finish { outcome: Err(e) }
                },
            },
            TransferEvent::TransactionFetched { found } => {
                let txid = match self.step {
                    TransferStep::AwaitTransaction { txid } => txid,
                    _ => [0u8; 32],
                };
                if found {
                    self.step = TransferStep::AwaitBroadcast { txid };
                    TransferAction::Broadcast
                } else {
                    self.step = TransferStep::Finished;
                    TransferAction::Finish { outcome: Err(SendError::TransactionNotFound) }
                }
            },
            TransferEvent::BroadcastAnswered { error_code, error_message } => {
                let txid = match self.step {
                    TransferStep::AwaitBroadcast { txid } => txid,
                    _ => [0u8; 32],
                };
                self.step = TransferStep::Finished;
                TransferAction::Finish { outcome: send_outcome(&txid, error_code, error_message) }
            },
        }
    }
}

/// A transfer that has come to its outcome waits for nothing more: no event
/// can be reported to it.
pub proof fn lemma_finished_transfer_is_final(event: TransferEvent)
    ensures
        !event_expected(TransferStep::Finished, &event),
{
}

} // verus!
