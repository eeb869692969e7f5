//! The course of creating a wallet, as a machine that the caller drives: it
//! names the next piece of outside work (asking the server, touching the
//! identity file, writing the configuration and the databases), and the
//! caller reports back what came of it.
use vstd::prelude::*;
use crate::create::{
    birthday_for_tip, birthday_height, chain_tip_height, identity_file_name, identity_file_path,
    identity_file_text, joined_path, new_identity, new_seed, tree_state_height_for, bip39_seed,
    age_recipient_text,
    tree_state_request_height, wallet_network, NewIdentity, NewSeed, WalletNetwork, BIRTHDAY_DEPTH,
};
use zcash_client_backend::data_api::AccountBirthday;
use zcash_client_backend::proto::service::TreeState;

verus! {

/// The tree state of a block as the server sends it: the network name, the
/// block's height, hash and time, and the note commitment trees of each
/// shielded pool, as hexadecimal text.
#[derive(Debug, PartialEq, Eq)]
pub struct TreeStateData {
    pub network: String,
    pub height: u64,
    pub hash: String,
    pub time: u32,
    pub sapling_tree: String,
    pub orchard_tree: String,
    pub ironwood_tree: String,
}

/// Whether `AccountBirthday::from_treestate` accepts a tree state of this
/// height, block hash and commitment trees: the height must be a block height,
/// the hash 32 bytes of hexadecimal text, and each tree a valid encoded tree.
pub uninterp spec fn tree_state_decodes(height: u64, hash: Seq<char>, sapling_tree: Seq<char>, orchard_tree: Seq<char>, ironwood_tree: Seq<char>) -> bool;

/// The height of the birthday that a new account gets from the tree state of
/// the block before it: `AccountBirthday::from_treestate` (with no recovery
/// height), then `AccountBirthday::height`.
///
/// Claimed: it succeeds exactly where `tree_state_decodes` holds of the tree
/// state's height, hash and trees, the only fields the decoding reads, and as
/// the source shows a height beyond 32 bits does not decode; the birthday
/// lies one block above the tree state, the addition saturating at the last
/// block height.
#[verifier::external_body]
fn birthday_from_tree_state(tree_state: &TreeStateData) -> (r: Result<u32, ()>)
    ensures
        r is Ok <==> tree_state_decodes(tree_state.height, tree_state.hash@, tree_state.sapling_tree@, tree_state.orchard_tree@, tree_state.ironwood_tree@),
        tree_state.height > u32::MAX ==> r is Err,
        r matches Ok(h) ==> h == (if tree_state.height < u32::MAX { tree_state.height + 1 } else { u32::MAX as int }),
{
    let t = TreeState {
        network: tree_state.network.clone(),
        height: tree_state.height,
        hash: tree_state.hash.clone(),
        time: tree_state.time,
        sapling_tree: tree_state.sapling_tree.clone(),
        orchard_tree: tree_state.orchard_tree.clone(),
        ironwood_tree: tree_state.ironwood_tree.clone(),
    };
    let birthday = AccountBirthday::from_treestate(t, None).map_err(|_| ())?;
    Ok(u32::from(birthday.height()))
}

/// Where a wallet creation stands.
#[derive(Clone, Copy, Debug, PartialEq, Eq, Structural)]
pub enum CreationStep {
    /// Waiting for the server's chain tip.
    AwaitChainTip,
    /// Waiting to learn whether the identity file exists.
    AwaitIdentityCheck { chain_tip: u32 },
    /// Waiting for the identity to be read or written.
    AwaitIdentity { chain_tip: u32 },
    /// Waiting for the tree state before the birthday.
    AwaitTreeState { birthday: u32 },
    /// Waiting for the configuration to be written.
    AwaitConfig,
    /// Waiting for the databases to be set up.
    AwaitDatabases,
    /// The wallet exists.
    Finished,
    /// The creation stopped on a tree state that does not decode.
    Failed,
}

/// What came of the last piece of outside work.
pub enum CreationEvent {
    /// The chain tip height as the server reports it.
    ChainTip(u64),
    /// Whether the identity file exists.
    IdentityFileExists(bool),
    /// The identity was read from, or written to, its file.
    IdentityReady,
    /// The tree state was fetched.
    TreeStateReady(TreeStateData),
    /// The configuration (with the new seed phrase) was written.
    ConfigWritten,
    /// The databases were set up and the account added.
    DatabasesReady,
}

/// The next piece of outside work.
pub enum CreationAction {
    /// Ask the server for its chain tip.
    FetchChainTip,
    /// Find out whether the identity file exists.
    CheckIdentityFile { path: String },
    /// Read the recipients from the existing identity file.
    ReadIdentityFile { path: String },
    /// Create the wallet directory and write a new identity file there.
    WriteIdentityFile { dir: String, path: String, identity: NewIdentity },
    /// Fetch the tree state at this height; the new seed phrase and seed
    /// are kept for the configuration and the databases.
    FetchTreeState { height: u64, secret: NewSeed },
    /// Write the configuration for this network and birthday height; the
    /// birthday is made from this tree state (with no recovery height), and
    /// kept for the databases.
    WriteConfig { network: WalletNetwork, tree_state: TreeStateData, birthday_height: u32 },
    /// Set up the databases and add the account of this name.
    InitDatabases { account_name: String },
    /// Nothing is left to do.
    Done,
    /// The tree state does not decode; the wallet cannot be created.
    InvalidTreeState,
}

/// A wallet creation in progress.
pub struct WalletCreation {
    pub wallet_dir: String,
    pub network: WalletNetwork,
    pub step: CreationStep,
}

/// The step that an event leads to from a step, where the event fits it.
pub open spec fn next_step(step: CreationStep, event: CreationEvent) -> Option<CreationStep> {
    match (step, event) {
        (CreationStep::AwaitChainTip, CreationEvent::ChainTip(h)) => Some(
            CreationStep::AwaitIdentityCheck { chain_tip: h as u32 },
        ),
        (CreationStep::AwaitIdentityCheck { chain_tip }, CreationEvent::IdentityFileExists(_)) => Some(
            CreationStep::AwaitIdentity { chain_tip },
        ),
        (CreationStep::AwaitIdentity { chain_tip }, CreationEvent::IdentityReady) => Some(
            CreationStep::AwaitTreeState { birthday: birthday_for_tip(chain_tip) },
        ),
        (CreationStep::AwaitTreeState { .. }, CreationEvent::TreeStateReady(_)) => Some(CreationStep::AwaitConfig),
        (CreationStep::AwaitConfig, CreationEvent::ConfigWritten) => Some(CreationStep::AwaitDatabases),
        (CreationStep::AwaitDatabases, CreationEvent::DatabasesReady) => Some(CreationStep::Finished),
        _ => None,
    }
}

/// How far along a creation is.
pub open spec fn progress(step: CreationStep) -> nat {
    match step {
        CreationStep::AwaitChainTip => 0,
        CreationStep::AwaitIdentityCheck { .. } => 1,
        CreationStep::AwaitIdentity { .. } => 2,
        CreationStep::AwaitTreeState { .. } => 3,
        CreationStep::AwaitConfig => 4,
        CreationStep::AwaitDatabases => 5,
        CreationStep::Finished => 6,
        CreationStep::Failed => 6,
    }
}

/// The work that follows an accepted event, for a wallet directory and
/// network, from the step the event was accepted in.
pub open spec fn action_fits(
    wallet_dir: Seq<char>,
    network: WalletNetwork,
    step: CreationStep,
    event: CreationEvent,
    action: CreationAction,
) -> bool {
    match (step, event) {
        (CreationStep::AwaitChainTip, CreationEvent::ChainTip(_)) => action matches CreationAction::CheckIdentityFile { path } && path@ == joined_path(wallet_dir, identity_file_name()),
        (CreationStep::AwaitIdentityCheck { .. }, CreationEvent::IdentityFileExists(true)) => action matches CreationAction::ReadIdentityFile { path } && path@ == joined_path(wallet_dir, identity_file_name()),
        (CreationStep::AwaitIdentityCheck { .. }, CreationEvent::IdentityFileExists(false)) => action matches CreationAction::WriteIdentityFile { dir, path, identity } && dir@ == wallet_dir && path@ == joined_path(wallet_dir, identity_file_name()) && identity.file_contents@ == identity_file_text(identity.created@, identity.public_key@, identity.secret_key@) && identity.public_key@ == age_recipient_text(identity.secret_key@),
        (CreationStep::AwaitIdentity { chain_tip }, CreationEvent::IdentityReady) => action matches CreationAction::FetchTreeState { height, secret } && height == tree_state_height_for(birthday_for_tip(chain_tip)) && secret.seed@.len() == 64 && secret.seed@ == bip39_seed(secret.phrase@),
        (CreationStep::AwaitTreeState { .. }, CreationEvent::TreeStateReady(t)) => action matches CreationAction::WriteConfig { network: n, tree_state, birthday_height } && n == network && tree_state == t && birthday_height == (if t.height < u32::MAX { t.height + 1 } else { u32::MAX as int }),
        (CreationStep::AwaitConfig, CreationEvent::ConfigWritten) => action matches CreationAction::InitDatabases { account_name } && account_name@ == "wallet"@,
        (CreationStep::AwaitDatabases, CreationEvent::DatabasesReady) => action is Done,
        _ => false,
    }
}

/// Events that can be acted on: a chain tip must fit a block height.
pub open spec fn event_acceptable(event: CreationEvent) -> bool {
    event matches CreationEvent::ChainTip(h) ==> h <= u32::MAX
}

/// Whether a tree state gives a birthday, by its fields.
pub open spec fn tree_state_data_decodes(t: TreeStateData) -> bool {
    tree_state_decodes(t.height, t.hash@, t.sapling_tree@, t.orchard_tree@, t.ironwood_tree@)
}

/// Starts creating a wallet in a directory, on the main network or the
/// test network; the first work is to ask the server for its chain tip.
pub fn create_wallet(wallet_dir: String, mainnet: bool) -> (r: (WalletCreation, CreationAction))
    ensures
        r.0.wallet_dir == wallet_dir,
        r.0.network == (if mainnet { WalletNetwork::Main } else { WalletNetwork::Test }),
        r.0.step == CreationStep::AwaitChainTip,
        r.1 is FetchChainTip,
{
    (
        WalletCreation { wallet_dir, network: wallet_network(mainnet), step: CreationStep::AwaitChainTip },
        CreationAction::FetchChainTip,
    )
}

impl WalletCreation {
    /// Takes in what came of the last piece of outside work, and names the
    /// next. An event that does not fit the current step changes nothing and
    /// names no work.
    pub fn advance(&mut self, event: CreationEvent) -> (r: Option<CreationAction>)
        requires
            event_acceptable(event),
        ensures
            final(self).wallet_dir == old(self).wallet_dir,
            final(self).network == old(self).network,
            next_step(old(self).step, event) is None ==> r is None && final(self).step == old(self).step,
            next_step(old(self).step, event) matches Some(s) ==> (final(self).step == s || (r matches Some(CreationAction::InvalidTreeState) && final(self).step == CreationStep::Failed)),
            r matches Some(CreationAction::InvalidTreeState) ==> (old(self).step is AwaitTreeState && event is TreeStateReady && final(self).step == CreationStep::Failed),
            event matches CreationEvent::TreeStateReady(t) ==> (old(self).step is AwaitTreeState ==> (r matches Some(CreationAction::InvalidTreeState) <==> !tree_state_data_decodes(t))),
            r matches Some(a) ==> (a is InvalidTreeState || action_fits(old(self).wallet_dir@, old(self).network, old(self).step, event, a)),
            next_step(old(self).step, event) is Some ==> r is Some,
            r matches Some(CreationAction::WriteConfig { network, .. }) ==> network == old(self).network,
    {
        match (self.step, event) {
            (CreationStep::AwaitChainTip, CreationEvent::ChainTip(h)) => {
                let tip = chain_tip_height(h);
                self.step = CreationStep::AwaitIdentityCheck { chain_tip: tip };
                Some(CreationAction::CheckIdentityFile { path: identity_file_path(self.wallet_dir.as_str()) })
            },
            (CreationStep::AwaitIdentityCheck { chain_tip }, CreationEvent::IdentityFileExists(exists)) => {
                self.step = CreationStep::AwaitIdentity { chain_tip };
                let path = identity_file_path(self.wallet_dir.as_str());
                if exists {
                    Some(CreationAction::ReadIdentityFile { path })
                } else {
                    Some(CreationAction::WriteIdentityFile { dir: self.wallet_dir.clone(), path, identity: new_identity() })
                }
            },
            (CreationStep::AwaitIdentity { chain_tip }, CreationEvent::IdentityReady) => {
                let secret = new_seed();
                let birthday = birthday_height(chain_tip);
                self.step = CreationStep::AwaitTreeState { birthday };
                Some(CreationAction::FetchTreeState { height: tree_state_request_height(birthday), secret })
            },
            (CreationStep::AwaitTreeState { .. }, CreationEvent::TreeStateReady(tree_state)) => {
                match birthday_from_tree_state(&tree_state) {
                    Ok(birthday_height) => {
                        self.step = CreationStep::AwaitConfig;
                        Some(CreationAction::WriteConfig { network: self.network, tree_state, birthday_height })
                    },
                    Err(_) => {
                        self.step = CreationStep::Failed;
                        Some(CreationAction::InvalidTreeState)
                    },
                }
            },
            (CreationStep::AwaitConfig, CreationEvent::ConfigWritten) => {
                self.step = CreationStep::AwaitDatabases;
                Some(CreationAction::InitDatabases { account_name: "wallet".to_owned() })
            },
            (CreationStep::AwaitDatabases, CreationEvent::DatabasesReady) => {
                self.step = CreationStep::Finished;
                Some(CreationAction::Done)
            },
            _ => None,
        }
    }
}

/// Every accepted event moves a creation exactly one step on (unless the
/// tree state fails it), so a creation passes through every step in order;
/// a finished or failed one accepts nothing.
pub proof fn lemma_creation_advances(step: CreationStep, event: CreationEvent)
    ensures
        next_step(step, event) matches Some(s) ==> progress(s) == progress(step) + 1,
        step == CreationStep::Finished ==> next_step(step, event) is None,
        step == CreationStep::Failed ==> next_step(step, event) is None,
{
}

/// The tree state a new wallet asks for is that of the block 101 blocks
/// below the chain tip (the genesis block for a shorter chain): never above
/// the tip, and below the birthday wherever the birthday is above genesis.
pub proof fn lemma_tree_state_height(chain_tip: u32)
    ensures
        tree_state_height_for(birthday_for_tip(chain_tip)) == (if chain_tip >= BIRTHDAY_DEPTH + 1 {
            chain_tip - BIRTHDAY_DEPTH - 1
        } else {
            0
        }),
        tree_state_height_for(birthday_for_tip(chain_tip)) <= chain_tip,
        birthday_for_tip(chain_tip) >= 1 ==> tree_state_height_for(birthday_for_tip(chain_tip)) < birthday_for_tip(chain_tip),
{
}

/// The configuration is written for the network the creation was started
/// on: whatever tree state comes, the configuration it leads to names the
/// creation's own network, the main network exactly for a wallet created
/// with the main-network flag.
pub proof fn lemma_config_names_creation_network(
    wallet_dir: Seq<char>,
    mainnet: bool,
    birthday: u32,
    tree_state: TreeStateData,
    action: CreationAction,
)
    requires
        action_fits(
            wallet_dir,
            if mainnet { WalletNetwork::Main } else { WalletNetwork::Test },
            CreationStep::AwaitTreeState { birthday },
            CreationEvent::TreeStateReady(tree_state),
            action,
        ),
    ensures
        action matches CreationAction::WriteConfig { network, .. } && (network == WalletNetwork::Main <==> mainnet),
{
}

/// A tree state of the block the wallet asked for gives the birthday it
/// planned: 100 blocks below the chain tip, or block 1 where the chain is
/// shorter than that.
pub proof fn lemma_birthday_from_requested_tree_state(chain_tip: u32, tree_state_height: u64)
    requires
        tree_state_height == tree_state_height_for(birthday_for_tip(chain_tip)),
    ensures
        tree_state_height + 1 == (if birthday_for_tip(chain_tip) >= 1 { birthday_for_tip(chain_tip) as int } else { 1 }),
        tree_state_height < u32::MAX,
{
}

} // verus!
