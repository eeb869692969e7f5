//! Account listings and account addresses.
use vstd::prelude::*;
use crate::account_id::{
    format_account_id, hex_decode, hyphenated_digits, is_hyphenated_uuid, lemma_account_id_roundtrip,
    lemma_account_id_text_nul_free, lemma_formatted_id_parses, uuid_parse_result, uuid_text,
};
use crate::text::nul_free;

verus! {

/// An account as the wallet lists it: its identifier, its encoded incoming
/// and full viewing keys, and the seed it was derived from.
pub struct VAccount {
    pub uuid: String,
    pub uivk: String,
    pub ufvk: String,
    pub source: String,
}

/// The default addresses of an account: its transparent address and its
/// unified address.
pub struct VAccountAddress {
    pub t_address: String,
    pub u_address: String,
}

/// An account as the wallet database holds it: its identifier, its encoded
/// unified incoming viewing key, its encoded unified full viewing key where
/// it has one, and the text of the fingerprint of the seed it derives from.
pub struct AccountRecord {
    pub id: [u8; 16],
    pub uivk: String,
    pub ufvk: Option<String>,
    pub seed_fingerprint: String,
}

/// What `format!("{:?}", text)` writes for a string: the text quoted, with
/// the characters that need it escaped.
pub uninterp spec fn debug_quoted(text: Seq<char>) -> Seq<char>;

/// Writes a string in its `Debug` form with `format!("{:?}", ..)`.
///
/// Claimed of std's `Debug` for `str`: the result is a function of the text
/// alone (`debug_quoted`).
#[verifier::external_body]
fn debug_string(text: &str) -> (r: String)
    ensures
        r@ == debug_quoted(text@),
{
    format!("{:?}", text)
}

/// The full viewing key column of a listing: the key, or `None` spelled out.
pub open spec fn ufvk_text(ufvk: Option<String>) -> Seq<char> {
    match ufvk {
        Some(k) => k@,
        None => "None"@,
    }
}

/// The listing entry of an account record.
pub open spec fn lists_account(record: AccountRecord, entry: VAccount) -> bool {
    &&& entry.uuid@ == uuid_text(record.id@)
    &&& entry.uivk@ == record.uivk@
    &&& entry.ufvk@ == ufvk_text(record.ufvk)
    &&& entry.source@ == debug_quoted(record.seed_fingerprint@)
}

/// The listing entry of one account.
pub fn account_entry(record: &AccountRecord) -> (r: VAccount)
    ensures
        lists_account(*record, r),
        r.uuid@ == uuid_text(record.id@),
        r.uivk@ == record.uivk@,
        record.ufvk matches Some(k) ==> r.ufvk@ == k@,
        record.ufvk is None ==> r.ufvk@ == "None"@,
{
    let ufvk = match &record.ufvk {
        Some(k) => k.clone(),
        None => "None".to_owned(),
    };
    VAccount {
        uuid: format_account_id(&record.id),
        uivk: record.uivk.clone(),
        ufvk,
        source: debug_string(record.seed_fingerprint.as_str()),
    }
}

/// The listing of the wallet's accounts, one entry per account, in the order
/// the database gives them.
pub fn list_accounts(records: &Vec<AccountRecord>) -> (r: Vec<VAccount>)
    ensures
        r@.len() == records@.len(),
        forall|i: int| 0 <= i < records@.len() ==> lists_account(#[trigger] records@[i], r@[i]),
        forall|i: int| 0 <= i < records@.len() ==> (#[trigger] r@[i]).uivk@ == records@[i].uivk@,
{
    let mut out: Vec<VAccount> = Vec::new();
    let mut i: usize = 0;
    while i < records.len()
        invariant
            i <= records@.len(),
            out@.len() == i,
            forall|k: int| 0 <= k < i ==> lists_account(#[trigger] records@[k], out@[k]),
        decreases records@.len() - i,
    {
        out.push(account_entry(&records[i]));
        i = i + 1;
    }
    out
}

/// The default addresses of an account, from its encoded unified address and
/// the encoding of that address's transparent receiver.
pub fn account_address(unified_address: String, transparent_address: String) -> (r: VAccountAddress)
    ensures
        r.u_address == unified_address,
        r.t_address == transparent_address,
{
    VAccountAddress { t_address: transparent_address, u_address: unified_address }
}

/// A listing shows each account's own keys: the incoming viewing key column
/// is the record's incoming viewing key, whether or not the account has a
/// full viewing key, and the full viewing key column is that key, or `None`
/// spelled out for an account without one.
pub proof fn lemma_listing_shows_record_keys(record: AccountRecord, entry: VAccount)
    requires
        lists_account(record, entry),
    ensures
        entry.uivk@ == record.uivk@,
        record.ufvk matches Some(k) ==> entry.ufvk@ == k@,
        record.ufvk is None ==> entry.ufvk@ == "None"@,
{
}

/// The identifier that a listing shows for an account is in the hyphenated
/// form and spells that account's identifier, so reading it back (as
/// `parse_account_id` does for the balance, address and transfer calls)
/// gives the same account; and it crosses the C boundary unchanged.
pub proof fn lemma_listed_id_reads_back(record: AccountRecord, entry: VAccount)
    requires
        lists_account(record, entry),
    ensures
        is_hyphenated_uuid(entry.uuid@),
        hex_decode(hyphenated_digits(entry.uuid@)) == record.id@,
        uuid_parse_result(entry.uuid@) == Some(record.id@),
        nul_free(entry.uuid@),
{
    lemma_formatted_id_parses(record.id@);
    lemma_account_id_roundtrip(record.id@);
    lemma_account_id_text_nul_free(record.id@);
}

} // verus!
