//! The decisions of wallet creation: the network, the heights the wallet
//! starts from, and the age identity file that protects its seed.
use vstd::prelude::*;
use crate::text::push_char;

verus! {

/// The network a wallet lives on.
#[derive(Clone, Copy, Debug, PartialEq, Eq, Structural)]
pub enum WalletNetwork {
    Main,
    Test,
}

/// How many blocks below the chain tip a new wallet's birthday lies.
pub const BIRTHDAY_DEPTH: u32 = 100;

/// The file name of the age identity inside the wallet directory.
pub open spec fn identity_file_name() -> Seq<char> {
    "wallet"@
}

/// The network of a new wallet: main network when asked for, else test.
pub fn wallet_network(mainnet: bool) -> (r: WalletNetwork)
    ensures
        mainnet ==> r == WalletNetwork::Main,
        !mainnet ==> r == WalletNetwork::Test,
{
    if mainnet {
        WalletNetwork::Main
    } else {
        WalletNetwork::Test
    }
}

/// The chain tip height that a server reports, as a block height. The server
/// reports it as a 64-bit number; block heights fit 32 bits.
pub fn chain_tip_height(reported: u64) -> (r: u32)
    requires
        reported <= u32::MAX,
    ensures
        r == reported,
{
    reported as u32
}

/// The chain tip height that a server reports, where it fits a block height;
/// `None` where it does not, on which a wallet cannot be created.
pub fn checked_chain_tip_height(reported: u64) -> (r: Option<u32>)
    ensures
        reported <= u32::MAX ==> r == Some(reported as u32),
        reported > u32::MAX ==> r is None,
{
    if reported <= u32::MAX as u64 {
        Some(chain_tip_height(reported))
    } else {
        None
    }
}

/// The birthday of a new wallet: 100 blocks below the chain tip, or the
/// genesis block where the chain is shorter.
pub open spec fn birthday_for_tip(chain_tip: u32) -> u32 {
    if chain_tip >= BIRTHDAY_DEPTH {
        (chain_tip - BIRTHDAY_DEPTH) as u32
    } else {
        0
    }
}

/// The block whose tree state a wallet with this birthday starts from: the
/// one before the birthday, or the genesis block.
pub open spec fn tree_state_height_for(birthday: u32) -> u64 {
    if birthday >= 1 {
        (birthday - 1) as u64
    } else {
        0
    }
}

/// The birthday height of a new wallet: 100 blocks below the chain tip, or
/// the genesis block where the chain is shorter.
pub fn birthday_height(chain_tip: u32) -> (r: u32)
    ensures
        r == birthday_for_tip(chain_tip),
{
    chain_tip.saturating_sub(BIRTHDAY_DEPTH)
}

/// The block whose tree state a new wallet asks for: the last block before
/// its birthday (the genesis block for a birthday at genesis).
pub fn tree_state_request_height(birthday: u32) -> (r: u64)
    ensures
        r == tree_state_height_for(birthday),
{
    (birthday as u64).saturating_sub(1)
}

/// A file name joined to a directory as `PathBuf::push` does on Unix for a
/// relative name: a separator goes between them unless the directory is
/// empty or already ends with one.
pub open spec fn joined_path(dir: Seq<char>, name: Seq<char>) -> Seq<char> {
    if dir.len() == 0 || dir.last() == '/' {
        dir + name
    } else {
        dir + seq!['/'] + name
    }
}

/// The path of the age identity file of a wallet directory.
pub fn identity_file_path(wallet_dir: &str) -> (r: String)
    ensures
        r@ == joined_path(wallet_dir@, identity_file_name()),
{
    let mut path = wallet_dir.to_owned();
    let n = wallet_dir.unicode_len();
    if n > 0 && wallet_dir.get_char(n - 1) != '/' {
        push_char(&mut path, '/');
    }
    path.append("wallet");
    path
}

/// The contents of a new age identity file: the creation time, the public
/// key, and the secret key, each on a line of its own.
pub open spec fn identity_file_text(created: Seq<char>, public_key: Seq<char>, secret_key: Seq<char>) -> Seq<char> {
    "# created: "@ + created + "\n"@ + "# public key: "@ + public_key + "\n"@ + secret_key + "\n"@
}

/// Writes the contents of a new age identity file.
pub fn identity_file_contents(created: &str, public_key: &str, secret_key: &str) -> (r: String)
    ensures
        r@ == identity_file_text(created@, public_key@, secret_key@),
{
    let mut s = "# created: ".to_owned();
    s.append(created);
    s.append("\n");
    s.append("# public key: ");
    s.append(public_key);
    s.append("\n");
    s.append(secret_key);
    s.append("\n");
    s
}

/// A decimal digit.
pub open spec fn is_digit(c: char) -> bool {
    '0' <= c && c <= '9'
}

/// The date and time part of an RFC 3339 time after its year, to whole
/// seconds: `-MM-DDTHH:MM:SS`, fifteen characters.
pub open spec fn is_date_time_tail(t: Seq<char>) -> bool {
    &&& t.len() == 15
    &&& t[0] == '-' && is_digit(t[1]) && is_digit(t[2])
    &&& t[3] == '-' && is_digit(t[4]) && is_digit(t[5])
    &&& t[6] == 'T' && is_digit(t[7]) && is_digit(t[8])
    &&& t[9] == ':' && is_digit(t[10]) && is_digit(t[11])
    &&& t[12] == ':' && is_digit(t[13]) && is_digit(t[14])
}

/// The year of an RFC 3339 time: four digits, or a sign and at least four
/// digits for a year beyond 0 to 9999.
pub open spec fn is_year_text(t: Seq<char>) -> bool {
    ||| t.len() == 4 && (forall|i: int| 0 <= i < 4 ==> is_digit(#[trigger] t[i]))
    ||| t.len() >= 5 && (t[0] == '+' || t[0] == '-') && (forall|i: int| 1 <= i < t.len() ==> is_digit(#[trigger] t[i]))
}

/// The offset of an RFC 3339 time in minutes: `Z` for UTC, else a sign,
/// hours, a colon and minutes.
pub open spec fn is_offset_text(t: Seq<char>) -> bool {
    ||| t == seq!['Z']
    ||| t.len() == 6 && (t[0] == '+' || t[0] == '-') && is_digit(t[1]) && is_digit(t[2]) && t[3] == ':' && is_digit(t[4]) && is_digit(t[5])
}

/// An RFC 3339 time to whole seconds: a year, the date and time, and an
/// offset.
pub open spec fn is_rfc3339_seconds(t: Seq<char>) -> bool {
    exists|year_len: int|
        0 <= year_len && year_len + 15 <= t.len()
        && is_year_text(#[trigger] t.subrange(0, year_len))
        && is_date_time_tail(t.subrange(year_len, year_len + 15))
        && is_offset_text(t.subrange(year_len + 15, t.len() as int))
}

/// The current local time in RFC 3339 form, to whole seconds, with `Z` for
/// UTC (`chrono::Local::now().to_rfc3339_opts(SecondsFormat::Secs, true)`).
///
/// Claimed, as chrono's `write_rfc3339` shows: the text has that form. Which
/// time it names depends on the clock and the machine's time zone.
#[verifier::external_body]
fn local_time_rfc3339() -> (r: String)
    ensures
        is_rfc3339_seconds(r@),
{
    chrono::Local::now().to_rfc3339_opts(chrono::SecondsFormat::Secs, true)
}

/// The public key text of the age x25519 identity whose secret key text is
/// `secret_key`: the `Display` text of its recipient (`Identity::to_public`).
pub uninterp spec fn age_recipient_text(secret_key: Seq<char>) -> Seq<char>;

/// The BIP 39 seed (`Mnemonic::to_seed` with the empty passphrase) of the
/// English mnemonic whose phrase is `phrase`.
pub uninterp spec fn bip39_seed(phrase: Seq<char>) -> Seq<u8>;

/// A fresh random x25519 identity (`age::x25519::Identity::generate`), as the
/// text of its recipient (`Identity::to_public`, then `Display`) and its
/// secret text (`Identity::to_string`, exposed).
///
/// Claimed: the public key text is `age_recipient_text` of the secret text,
/// for whatever identity comes out. The identity itself depends on chance.
#[verifier::external_body]
fn generate_identity() -> (r: (String, String))
    ensures
        r.0@ == age_recipient_text(r.1@),
{
    let identity = age::x25519::Identity::generate();
    let public_key = identity.to_public().to_string();
    let secret_key = age::secrecy::ExposeSecret::expose_secret(&identity.to_string()).to_owned();
    (public_key, secret_key)
}

/// The number of spaces in a text.
pub open spec fn space_count(text: Seq<char>) -> nat {
    text.filter(|c: char| c == ' ').len()
}

/// A text of `words` non-empty words, each two separated by one space.
pub open spec fn is_word_phrase(text: Seq<char>, words: nat) -> bool {
    &&& text.len() > 0
    &&& text[0] != ' '
    &&& text.last() != ' '
    &&& forall|i: int| 0 <= i < text.len() - 1 && #[trigger] text[i] == ' ' ==> text[i + 1] != ' '
    &&& space_count(text) + 1 == words
}

/// A fresh random 24-word English mnemonic
/// (`Mnemonic::<English>::generate(Count::Words24)`), as its phrase
/// (`Mnemonic::phrase`) and its 64-byte seed (`Mnemonic::to_seed("")`), copied
/// out before the returned array is zeroized.
///
/// Claimed, as bip0039's source shows: the phrase is the 24 words of the
/// English word list that the entropy picks, joined by single spaces (no word
/// is empty or holds a space); the seed is `bip39_seed` of the phrase, 64
/// bytes long as the array type shows. The words depend on chance.
#[verifier::external_body]
fn generate_mnemonic() -> (r: (String, Vec<u8>))
    ensures
        is_word_phrase(r.0@, 24),
        r.1@ == bip39_seed(r.0@),
        r.1@.len() == 64,
{
    let mnemonic = bip0039::Mnemonic::<bip0039::English>::generate(bip0039::Count::Words24);
    let phrase = mnemonic.phrase().to_owned();
    let mut seed = mnemonic.to_seed("");
    let copy = seed.to_vec();
    secrecy::zeroize::Zeroize::zeroize(&mut seed);
    (phrase, copy)
}

/// The secret of a new wallet: its 24-word English seed phrase and the seed
/// made from it.
pub struct NewSeed {
    pub phrase: String,
    pub seed: Vec<u8>,
}

/// Generates the seed phrase of a new wallet and the 64-byte seed that its
/// keys derive from (the phrase with the empty passphrase).
pub fn new_seed() -> (r: NewSeed)
    ensures
        is_word_phrase(r.phrase@, 24),
        r.seed@ == bip39_seed(r.phrase@),
        r.seed@.len() == 64,
{
    let (phrase, seed) = generate_mnemonic();
    NewSeed { phrase, seed }
}

/// A new age identity for a wallet, with the file that stores it.
pub struct NewIdentity {
    pub created: String,
    pub public_key: String,
    pub secret_key: String,
    pub file_contents: String,
}

/// Generates the age identity that protects a new wallet's seed, and writes
/// the contents of the file that keeps it: its creation time, its public key
/// and its secret key.
pub fn new_identity() -> (r: NewIdentity)
    ensures
        r.public_key@ == age_recipient_text(r.secret_key@),
        is_rfc3339_seconds(r.created@),
        r.file_contents@ == identity_file_text(r.created@, r.public_key@, r.secret_key@),
{
    let (public_key, secret_key) = generate_identity();
    let created = local_time_rfc3339();
    let file_contents = identity_file_contents(created.as_str(), public_key.as_str(), secret_key.as_str());
    NewIdentity { created, public_key, secret_key, file_contents }
}

} // verus!
