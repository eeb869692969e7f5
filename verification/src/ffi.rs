//! The values that cross the C boundary: the arguments C callers pass in,
//! and the texts and numbers handed back to them.
use vstd::prelude::*;
use crate::accounts::VAccountAddress;
use crate::balance::{Balance, BalanceReportError};
use crate::send::SendError;
use crate::text::nul_free;

verus! {

/// Whether a C caller asks for the main network: any flag but zero.
pub fn mainnet_flag(network: u32) -> (r: bool)
    ensures
        r == (network != 0),
{
    network != 0
}

/// The optional arguments of a transfer as a C caller passes them: zero, or
/// the empty memo, stand for "not given".
pub struct SendArguments {
    pub target_note_count: Option<usize>,
    pub min_split_output_value: Option<u64>,
    pub memo: Option<String>,
}

/// Reads the optional arguments of a transfer from their C form.
pub fn send_arguments(target_note_count: usize, min_split_output_value: u64, memo: &str) -> (r: SendArguments)
    ensures
        target_note_count == 0 ==> r.target_note_count is None,
        target_note_count != 0 ==> r.target_note_count == Some(target_note_count),
        min_split_output_value == 0 ==> r.min_split_output_value is None,
        min_split_output_value != 0 ==> r.min_split_output_value == Some(min_split_output_value),
        memo@.len() == 0 ==> r.memo is None,
        memo@.len() != 0 ==> (r.memo matches Some(m) && m@ == memo@),
{
    let target = if target_note_count == 0 {
        None
    } else {
        Some(target_note_count)
    };
    let split = if min_split_output_value == 0 {
        None
    } else {
        Some(min_split_output_value)
    };
    let memo_text = if memo.is_empty() {
        None
    } else {
        Some(memo.to_owned())
    };
    SendArguments { target_note_count: target, min_split_output_value: split, memo: memo_text }
}

/// Whether a text holds no NUL character, so that it can become a C string.
pub fn is_nul_free(text: &str) -> (r: bool)
    ensures
        r == nul_free(text@),
{
    let n = text.unicode_len();
    let mut i: usize = 0;
    while i < n
        invariant
            n == text@.len(),
            i <= n,
            forall|k: int| 0 <= k < i ==> text@[k] != '\0',
        decreases n - i,
    {
        if text.get_char(i) == '\0' {
            return false;
        }
        i = i + 1;
    }
    true
}

/// A text as it is handed to a C caller: unchanged where it can become a C
/// string, the empty text where it holds a NUL character.
pub fn c_text_or_empty(text: String) -> (r: String)
    ensures
        nul_free(text@) ==> r == text,
        !nul_free(text@) ==> r@.len() == 0,
{
    if is_nul_free(text.as_str()) {
        text
    } else {
        String::new()
    }
}

/// The two address texts handed to a C caller.
pub struct CAddressText {
    pub t_address: String,
    pub u_address: String,
}

/// The addresses handed to a C caller: each as `c_text_or_empty` gives it,
/// or two empty texts where no address could be had.
pub fn address_for_c(address: Option<VAccountAddress>) -> (r: CAddressText)
    ensures
        address is None ==> r.t_address@.len() == 0 && r.u_address@.len() == 0,
        address matches Some(a) ==> (nul_free(a.t_address@) ==> r.t_address == a.t_address) && (!nul_free(a.t_address@) ==> r.t_address@.len() == 0) && (nul_free(a.u_address@) ==> r.u_address == a.u_address) && (!nul_free(a.u_address@) ==> r.u_address@.len() == 0),
{
    match address {
        Some(a) => CAddressText {
            t_address: c_text_or_empty(a.t_address),
            u_address: c_text_or_empty(a.u_address),
        },
        None => CAddressText { t_address: String::new(), u_address: String::new() },
    }
}

/// The balance handed to a C caller: the height text, total, orchard and
/// unshielded values.
pub struct CBalanceValues {
    pub height: String,
    pub total: u64,
    pub orchard: u64,
    pub unshielded: u64,
}

/// The balance handed to a C caller: that of the report, or an empty height
/// and zero values where no report could be made.
pub fn balance_for_c(report: Result<Balance, BalanceReportError>) -> (r: CBalanceValues)
    requires
        report matches Ok(b) ==> nul_free(b.height@),
    ensures
        report is Err ==> r.height@.len() == 0 && r.total == 0 && r.orchard == 0 && r.unshielded == 0,
        report matches Ok(b) ==> r.height == b.height && r.total == b.total && r.orchard == b.orchard && r.unshielded == b.unshielded,
{
    match report {
        Ok(b) => CBalanceValues { height: b.height, total: b.total, orchard: b.orchard, unshielded: b.unshielded },
        Err(_) => CBalanceValues { height: String::new(), total: 0, orchard: 0, unshielded: 0 },
    }
}

/// The transaction id handed to a C caller: the id of a sent transaction
/// where it can become a C string, nothing otherwise.
pub fn txid_for_c(outcome: Result<String, SendError>) -> (r: Option<String>)
    ensures
        outcome matches Ok(t) ==> (nul_free(t@) ==> r == Some(t)) && (!nul_free(t@) ==> r is None),
        outcome is Err ==> r is None,
{
    match outcome {
        Ok(t) => if is_nul_free(t.as_str()) {
            Some(t)
        } else {
            None
        },
        Err(_) => None,
    }
}

} // verus!
