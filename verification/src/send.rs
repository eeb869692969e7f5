//! The checks that run before a transfer is proposed, and the outcome of a
//! broadcast.
use vstd::prelude::*;
use vstd::utf8::encode_utf8;
use crate::text::{encode_hex, hex_text, nul_free, lemma_hex_digits};
use zcash_address::ZcashAddress;
use zcash_protocol::memo::{Memo, MemoBytes};
use zcash_protocol::value::{BalanceError, Zatoshis};
use zip321::{Payment, TransactionRequest, Zip321Error};

verus! {

#[verifier::external_type_specification]
#[verifier::external_body]
pub struct ExZatoshis(Zatoshis);

#[verifier::external_type_specification]
#[verifier::external_body]
pub struct ExBalanceError(BalanceError);

#[verifier::external_type_specification]
#[verifier::external_body]
pub struct ExMemo(Memo);

#[verifier::external_type_specification]
#[verifier::external_body]
pub struct ExMemoError(zcash_protocol::memo::Error);

#[verifier::external_type_specification]
#[verifier::external_body]
pub struct ExZcashAddress(ZcashAddress);

#[verifier::external_type_specification]
#[verifier::external_body]
pub struct ExAddressParseError(zcash_address::ParseError);

#[verifier::external_type_specification]
#[verifier::external_body]
pub struct ExTransactionRequest(TransactionRequest);

#[verifier::external_type_specification]
#[verifier::external_body]
pub struct ExZip321Error(Zip321Error);

/// The largest amount of zatoshis that can exist (21 million ZEC).
pub const MAX_MONEY: u64 = 2_100_000_000_000_000;

/// The number of notes the change is split into when none is asked for.
pub const DEFAULT_TARGET_NOTE_COUNT: usize = 4;

/// The smallest value of a split change note when none is asked for (0.1 ZEC).
pub const DEFAULT_MIN_SPLIT_OUTPUT_VALUE: u64 = 10_000_000;

/// Whether `zcash_address::ZcashAddress::from_str` accepts a text as an
/// address.
pub uninterp spec fn address_parses(text: Seq<char>) -> bool;

/// `ZcashAddress::is_sprout` of the address that `ZcashAddress::from_str`
/// reads from the text.
pub uninterp spec fn address_is_sprout(text: Seq<char>) -> bool;

/// `ZcashAddress::can_receive_memo` of the address that
/// `ZcashAddress::from_str` reads from the text.
pub uninterp spec fn address_can_receive_memo(text: Seq<char>) -> bool;

/// `ZcashAddress::is_transparent_only` of the address that
/// `ZcashAddress::from_str` reads from the text.
pub uninterp spec fn address_is_transparent_only(text: Seq<char>) -> bool;

/// The text that `ZcashAddress::encode` writes for the address that
/// `ZcashAddress::from_str` reads from the text.
pub uninterp spec fn address_encoding(text: Seq<char>) -> Seq<char>;

/// Whether `TransactionRequest::new` accepts the one payment of `value`
/// zatoshis to the address read from `recipient`, with the memo read from
/// `memo` (if any).
pub uninterp spec fn request_accepted(recipient: Seq<char>, value: u64, memo: Option<Seq<char>>) -> bool;

/// The payments that a `TransactionRequest` holds, in the order of their
/// indices, each as: the text `ZcashAddress::encode` writes for its recipient,
/// its amount in zatoshis (if it has one), and its memo bytes (if it has a
/// memo).
pub uninterp spec fn request_payments(request: TransactionRequest) -> Seq<(Seq<char>, Option<u64>, Option<Seq<u8>>)>;

/// Why a payment could not be built for a recipient.
#[derive(Debug, Clone, Copy, PartialEq, Eq, Structural)]
pub enum PaymentRejection {
    /// A memo was given for a recipient that cannot receive one.
    TransparentMemo,
    /// A zero value was to be paid to a transparent recipient.
    ZeroValuedTransparentOutput,
    /// The recipient is a Sprout address.
    SproutAddress,
}

/// Why a transfer was refused before, or failed after, it was proposed.
#[derive(Debug)]
pub enum SendError {
    /// The account holds no spending key derivation: it can only view.
    ViewOnlyAccount,
    /// The wallet's seed is not present, so nothing can be signed.
    MissingSeed,
    /// The spending key of the account could not be derived from the seed:
    /// the derivation's error, or none where the account index is no ZIP 32
    /// account index.
    KeyDerivation(Option<zcash_keys::keys::DerivationError>),
    /// The change was to be split into zero notes.
    ZeroTargetNoteCount,
    /// The smallest split change value lies beyond the money range.
    InvalidSplitOutputValue(BalanceError),
    /// The recipient text is not a Zcash address.
    InvalidRecipient,
    /// The value to send lies beyond the money range.
    InvalidAmount,
    /// The memo is longer than 512 bytes.
    InvalidMemo,
    /// No payment can be made to the recipient with these parts.
    PaymentRejected(PaymentRejection),
    /// The payment does not form a valid transaction request.
    InvalidRequest(Zip321Error),
    /// The proposal needs more than one transaction.
    MultipleTransactions,
    /// The created transaction is not in the wallet.
    TransactionNotFound,
    /// The server refused the transaction.
    SendFailed { code: i32, reason: String },
}

/// A transfer that passed every check: how change is split, what is paid to
/// whom, and the one-payment request to propose.
pub struct PreparedTransfer {
    /// The number of notes change is split into.
    pub target_note_count: usize,
    /// The smallest value of a split change note, in zatoshis.
    pub min_split_output_value: u64,
    /// The recipient, as the text it was given in.
    pub recipient: String,
    /// The amount paid, in zatoshis.
    pub value: u64,
    /// The memo sent with the payment, if any.
    pub memo: Option<String>,
    /// The request that pays `value` to `recipient` with `memo`.
    pub request: TransactionRequest,
}

/// Builds an amount with `Zatoshis::from_u64`.
///
/// Claimed of the outside function, as its source shows: it succeeds exactly
/// for values up to `MAX_MONEY`.
#[verifier::external_body]
fn zatoshis_from_u64(value: u64) -> (r: Result<Zatoshis, BalanceError>)
    ensures
        r is Ok <==> value <= MAX_MONEY,
{
    Zatoshis::from_u64(value)
}

/// Builds a memo with `Memo::from_str`.
///
/// Claimed of the outside function, as its source shows: it succeeds exactly
/// when the UTF-8 encoding of the text is at most 512 bytes long.
#[verifier::external_body]
fn memo_from_str(text: &str) -> (r: Result<Memo, zcash_protocol::memo::Error>)
    ensures
        r is Ok <==> encode_utf8(text@).len() <= 512,
{
    <Memo as core::str::FromStr>::from_str(text)
}

/// Parses a recipient with `ZcashAddress::from_str`.
///
/// Claimed: it succeeds exactly when `address_parses` holds of the text, a
/// result that depends on the text alone. The address itself is opaque.
#[verifier::external_body]
fn address_from_str(text: &str) -> (r: Result<ZcashAddress, zcash_address::ParseError>)
    ensures
        r is Ok <==> address_parses(text@),
{
    <ZcashAddress as core::str::FromStr>::from_str(text)
}

/// The memo text of a transfer, by its view.
pub open spec fn memo_text(memo: Option<String>) -> Option<Seq<char>> {
    match memo {
        Some(m) => Some(m@),
        None => None,
    }
}

/// A borrowed memo text, by its view.
pub open spec fn memo_str_text(memo: Option<&str>) -> Option<Seq<char>> {
    match memo {
        Some(m) => Some(m@),
        None => None,
    }
}

/// The 512 bytes of the memo field that carries a text (ZIP 302): a marker
/// byte 0xF6 and zeros for the empty text, else the text's UTF-8 bytes padded
/// with zeros.
pub open spec fn memo_field_bytes(text: Seq<char>) -> Seq<u8> {
    if text.len() == 0 {
        seq![0xF6u8] + Seq::new(511, |i: int| 0u8)
    } else {
        encode_utf8(text) + Seq::new((512 - encode_utf8(text).len()) as nat, |i: int| 0u8)
    }
}

/// The memo field of a payment, where a memo text is given.
pub open spec fn memo_field(memo: Option<Seq<char>>) -> Option<Seq<u8>> {
    match memo {
        Some(m) => Some(memo_field_bytes(m)),
        None => None,
    }
}

/// Why a payment to `recipient` is refused, in the order that
/// `Payment::new` checks: a Sprout recipient, then a memo for a recipient
/// that cannot receive one, then a zero value for a transparent-only
/// recipient.
pub open spec fn payment_refusal(recipient: Seq<char>, value: u64, memo: Option<Seq<char>>) -> Option<PaymentRejection> {
    if address_is_sprout(recipient) {
        Some(PaymentRejection::SproutAddress)
    } else if memo is Some && !address_can_receive_memo(recipient) {
        Some(PaymentRejection::TransparentMemo)
    } else if address_is_transparent_only(recipient) && value == 0 {
        Some(PaymentRejection::ZeroValuedTransparentOutput)
    } else {
        None
    }
}

/// Builds the one-payment request of a transfer: reads the recipient with
/// `ZcashAddress::from_str`, the amount with `Zatoshis::from_u64` and the memo
/// with `Memo::from_str` and `MemoBytes::from`, then calls `Payment::new`
/// (no label, message or other parameters) and `TransactionRequest::new`.
///
/// Claimed, as zip321's source shows: `Payment::new` refuses a Sprout
/// recipient, else a memo for a recipient that cannot receive one, else a
/// zero value for a transparent-only recipient, and otherwise keeps the
/// recipient, amount and memo it was given; a request made by
/// `TransactionRequest::new` holds its payments in the order given. Whether
/// `TransactionRequest::new` accepts the payment (it reads the payment back
/// from its URI form) is named, not stated.
#[verifier::external_body]
fn transfer_request(recipient: &str, value: u64, memo: Option<&str>) -> (r: Result<Result<TransactionRequest, Zip321Error>, PaymentRejection>)
    requires
        address_parses(recipient@),
        value <= MAX_MONEY,
        memo matches Some(m) ==> encode_utf8(m@).len() <= 512,
    ensures
        (r matches Err(PaymentRejection::SproutAddress)) <==> address_is_sprout(recipient@),
        (r matches Err(PaymentRejection::TransparentMemo)) <==> (!address_is_sprout(recipient@) && memo is Some && !address_can_receive_memo(recipient@)),
        (r matches Err(PaymentRejection::ZeroValuedTransparentOutput)) <==> (!address_is_sprout(recipient@) && !(memo is Some && !address_can_receive_memo(recipient@)) && address_is_transparent_only(recipient@) && value == 0),
        r matches Ok(q) ==> (q is Ok <==> request_accepted(recipient@, value, memo_str_text(memo))),
        r matches Ok(Ok(request)) ==> request_payments(request) == seq![(address_encoding(recipient@), Some(value), memo_field(memo_str_text(memo)))],
{
    let address = <ZcashAddress as core::str::FromStr>::from_str(recipient).expect("a parsed recipient");
    let memo = match memo {
        Some(m) => Some(MemoBytes::from(<Memo as core::str::FromStr>::from_str(m).expect("a fitting memo"))),
        None => None,
    };
    match Payment::new(address, Some(Zatoshis::const_from_u64(value)), memo, None, None, vec![]) {
        Ok(p) => Ok(TransactionRequest::new(vec![p])),
        Err(zip321::PaymentError::TransparentMemo) => Err(PaymentRejection::TransparentMemo),
        Err(zip321::PaymentError::ZeroValuedTransparentOutput) => Err(PaymentRejection::ZeroValuedTransparentOutput),
        Err(zip321::PaymentError::SproutAddress) => Err(PaymentRejection::SproutAddress),
    }
}

/// The target note count that a transfer splits change into.
pub open spec fn effective_note_count(target_note_count: Option<usize>) -> usize {
    match target_note_count {
        Some(n) => n,
        None => DEFAULT_TARGET_NOTE_COUNT,
    }
}

/// The smallest split change value that a transfer uses.
pub open spec fn effective_split_value(min_split_output_value: Option<u64>) -> u64 {
    match min_split_output_value {
        Some(v) => v,
        None => DEFAULT_MIN_SPLIT_OUTPUT_VALUE,
    }
}

/// A memo text that fits a memo field.
pub open spec fn memo_fits(memo: Option<String>) -> bool {
    match memo {
        Some(m) => encode_utf8(m@).len() <= 512,
        None => true,
    }
}

/// The inputs of a transfer pass every check that precedes building the
/// payment.
pub open spec fn transfer_inputs_valid(
    target_note_count: Option<usize>,
    min_split_output_value: Option<u64>,
    address: Seq<char>,
    value: u64,
    memo: Option<String>,
) -> bool {
    &&& effective_note_count(target_note_count) != 0
    &&& effective_split_value(min_split_output_value) <= MAX_MONEY
    &&& address_parses(address)
    &&& value <= MAX_MONEY
    &&& memo_fits(memo)
}

/// How the outcome of preparing a transfer follows from its inputs: the
/// first check that fails decides the error, in the order note count, split
/// value, recipient, amount, memo, payment, request; and a prepared transfer
/// keeps the effective split settings and pays `value` to `address` with
/// `memo`, in a request that holds that payment alone.
pub open spec fn preparation_fits(
    target_note_count: Option<usize>,
    min_split_output_value: Option<u64>,
    address: Seq<char>,
    value: u64,
    memo: Option<String>,
    r: Result<PreparedTransfer, SendError>,
) -> bool {
    let count_ok = effective_note_count(target_note_count) != 0;
    let split_ok = effective_split_value(min_split_output_value) <= MAX_MONEY;
    let inputs_ok = transfer_inputs_valid(target_note_count, min_split_output_value, address, value, memo);
    let refusal = payment_refusal(address, value, memo_text(memo));
    let accepted = request_accepted(address, value, memo_text(memo));
    &&& (!count_ok <==> r matches Err(SendError::ZeroTargetNoteCount))
    &&& (r matches Err(SendError::InvalidSplitOutputValue(_)) <==> (count_ok && !split_ok))
    &&& (r matches Err(SendError::InvalidRecipient) <==> (count_ok && split_ok && !address_parses(address)))
    &&& (r matches Err(SendError::InvalidAmount) <==> (count_ok && split_ok && address_parses(address) && value > MAX_MONEY))
    &&& (r matches Err(SendError::InvalidMemo) <==> (count_ok && split_ok && address_parses(address) && value <= MAX_MONEY && !memo_fits(memo)))
    &&& (r matches Err(SendError::PaymentRejected(why)) ==> inputs_ok && refusal == Some(why))
    &&& (inputs_ok && refusal is Some ==> r matches Err(SendError::PaymentRejected(_)))
    &&& (r matches Err(SendError::InvalidRequest(_)) <==> (inputs_ok && refusal is None && !accepted))
    &&& (r is Ok <==> (inputs_ok && refusal is None && accepted))
    &&& (r matches Ok(t) ==> {
        &&& t.target_note_count == effective_note_count(target_note_count)
        &&& t.min_split_output_value == effective_split_value(min_split_output_value)
        &&& t.recipient@ == address
        &&& t.value == value
        &&& memo_text(t.memo) == memo_text(memo)
        &&& request_payments(t.request) == seq![(address_encoding(address), Some(value), memo_field(memo_text(memo)))]
    })
    &&& (r is Err ==> (r matches Err(SendError::ZeroTargetNoteCount) || r matches Err(SendError::InvalidSplitOutputValue(_)) || r matches Err(SendError::InvalidRecipient) || r matches Err(SendError::InvalidAmount) || r matches Err(SendError::InvalidMemo) || r matches Err(SendError::PaymentRejected(_)) || r matches Err(SendError::InvalidRequest(_))))
}

/// Checks the parts of a transfer in the order the wallet checks them, and
/// builds the one-payment request to propose with the change split to use.
///
/// The change is split into `target_note_count` notes (4 when not given) of
/// at least `min_split_output_value` zatoshis (10,000,000 when not given).
pub fn prepare_transfer(
    target_note_count: Option<usize>,
    min_split_output_value: Option<u64>,
    address: &str,
    value: u64,
    memo: Option<String>,
) -> (r: Result<PreparedTransfer, SendError>)
    ensures
        preparation_fits(target_note_count, min_split_output_value, address@, value, memo, r),
        r matches Ok(t) ==> (min_split_output_value matches Some(v) ==> t.min_split_output_value == v),
        r matches Ok(t) ==> (target_note_count matches Some(n) ==> t.target_note_count == n),
        r matches Err(SendError::InvalidMemo) ==> (memo matches Some(m) && encode_utf8(m@).len() > 512),
{
    let note_count = match target_note_count {
        Some(n) => n,
        None => DEFAULT_TARGET_NOTE_COUNT,
    };
    if note_count == 0 {
        return Err(SendError::ZeroTargetNoteCount);
    }
    let split_value = match min_split_output_value {
        Some(v) => v,
        None => DEFAULT_MIN_SPLIT_OUTPUT_VALUE,
    };
    if let Err(e) = zatoshis_from_u64(split_value) {
        return Err(SendError::InvalidSplitOutputValue(e));
    }
    if address_from_str(address).is_err() {
        return Err(SendError::InvalidRecipient);
    }
    if zatoshis_from_u64(value).is_err() {
        return Err(SendError::InvalidAmount);
    }
    let memo_ref: Option<&str> = match &memo {
        Some(text) => {
            if memo_from_str(text.as_str()).is_err() {
                return Err(SendError::InvalidMemo);
            }
            Some(text.as_str())
        },
        None => None,
    };
    match transfer_request(address, value, memo_ref) {
        Err(why) => Err(SendError::PaymentRejected(why)),
        Ok(Err(e)) => Err(SendError::InvalidRequest(e)),
        Ok(Ok(request)) => Ok(
            PreparedTransfer {
                target_note_count: note_count,
                min_split_output_value: split_value,
                recipient: address.to_string(),
                value,
                memo,
                request,
            },
        ),
    }
}

/// A memo is refused exactly when its UTF-8 encoding is longer than the
/// 512 bytes of a memo field, whatever characters it holds, once the note
/// count, split value, recipient and amount have passed their checks.
pub proof fn lemma_memo_refused_only_when_too_long(
    target_note_count: Option<usize>,
    min_split_output_value: Option<u64>,
    address: Seq<char>,
    value: u64,
    memo: String,
    r: Result<PreparedTransfer, SendError>,
)
    requires
        preparation_fits(target_note_count, min_split_output_value, address, value, Some(memo), r),
        target_note_count != Some(0usize),
        min_split_output_value matches Some(v) ==> v <= MAX_MONEY,
        address_parses(address),
        value <= MAX_MONEY,
    ensures
        r matches Err(SendError::InvalidMemo) <==> encode_utf8(memo@).len() > 512,
{
}

/// A transfer without a memo is never refused for its memo.
pub proof fn lemma_no_memo_is_never_refused(
    target_note_count: Option<usize>,
    min_split_output_value: Option<u64>,
    address: Seq<char>,
    value: u64,
    r: Result<PreparedTransfer, SendError>,
)
    requires
        preparation_fits(target_note_count, min_split_output_value, address, value, None, r),
    ensures
        !(r matches Err(SendError::InvalidMemo)),
{
}

/// The change split settings are kept as given, and are 4 notes of at least
/// 10,000,000 zatoshis where not given: a zero note count and a split value
/// beyond the money range are the only settings refused.
pub proof fn lemma_split_settings_kept(
    target_note_count: Option<usize>,
    min_split_output_value: Option<u64>,
    address: Seq<char>,
    value: u64,
    memo: Option<String>,
    r: Result<PreparedTransfer, SendError>,
)
    requires
        preparation_fits(target_note_count, min_split_output_value, address, value, memo, r),
    ensures
        r matches Ok(t) ==> t.min_split_output_value == (match min_split_output_value {
            Some(v) => v,
            None => 10_000_000u64,
        }),
        r matches Ok(t) ==> t.target_note_count == (match target_note_count {
            Some(n) => n,
            None => 4usize,
        }),
        r matches Err(SendError::ZeroTargetNoteCount) <==> target_note_count == Some(0usize),
        r matches Err(SendError::InvalidSplitOutputValue(_)) <==> (target_note_count != Some(0usize)
            && (min_split_output_value matches Some(v) && v > MAX_MONEY)),
{
}

/// The change split settings of a transfer are the defaults (4 notes of at
/// least 0.1 ZEC) where none are given: leaving them out and giving the
/// defaults explicitly prepare the same outcome.
pub proof fn lemma_default_split_settings(
    address: Seq<char>,
    value: u64,
    memo: Option<String>,
    r: Result<PreparedTransfer, SendError>,
)
    ensures
        preparation_fits(None, None, address, value, memo, r)
            <==> preparation_fits(Some(4), Some(10_000_000), address, value, memo, r),
{
}

/// The transaction of a proposal that the wallet broadcasts: the only one,
/// or an error where the proposal needs several.
pub fn proposal_txid(txids: &Vec<[u8; 32]>) -> (r: Result<[u8; 32], SendError>)
    requires
        txids@.len() >= 1,
    ensures
        txids@.len() > 1 <==> r matches Err(SendError::MultipleTransactions),
        r is Err ==> r matches Err(SendError::MultipleTransactions),
        txids@.len() == 1 ==> r == Ok::<[u8; 32], SendError>(txids@[0]),
{
    if txids.len() > 1 {
        return Err(SendError::MultipleTransactions);
    }
    Ok(txids[0])
}

/// The display text of a transaction id: the lowercase hexadecimal text of
/// its bytes in reverse order, as block explorers show it.
pub open spec fn txid_text(txid: Seq<u8>) -> Seq<char> {
    hex_text(txid.reverse())
}

/// The display text of a transaction id, as `TxId`'s `to_string` writes it.
pub fn format_txid(txid: &[u8; 32]) -> (r: String)
    ensures
        r@ == txid_text(txid@),
{
    let mut reversed: Vec<u8> = Vec::new();
    let mut i: usize = 32;
    while i > 0
        invariant
            i <= 32,
            reversed@.len() == 32 - i,
            forall|k: int| 0 <= k < reversed@.len() ==> reversed@[k] == txid@[31 - k],
        decreases i,
    {
        i = i - 1;
        reversed.push(txid[i]);
    }
    assert(reversed@ =~= txid@.reverse());
    encode_hex(reversed.as_slice())
}

/// What the wallet reports once the server has answered a broadcast: the
/// transaction id, or the server's refusal with its code and message.
pub fn send_outcome(txid: &[u8; 32], error_code: i32, error_message: String) -> (r: Result<String, SendError>)
    ensures
        error_code == 0 ==> (r matches Ok(t) && t@ == txid_text(txid@)),
        error_code != 0 ==> (r matches Err(SendError::SendFailed { code, reason }) && code == error_code && reason == error_message),
{
    if error_code != 0 {
        Err(SendError::SendFailed { code: error_code, reason: error_message })
    } else {
        Ok(format_txid(txid))
    }
}

/// The text of a transaction id never holds a NUL character, so the id of a
/// sent transaction always crosses the C boundary.
pub proof fn lemma_txid_text_nul_free(txid: Seq<u8>)
    ensures
        nul_free(txid_text(txid)),
        txid_text(txid).len() == 2 * txid.len(),
{
    lemma_hex_digits(txid.reverse());
}

} // verus!
