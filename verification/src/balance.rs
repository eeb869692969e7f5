//! The balance report of an account.
use vstd::prelude::*;
use crate::text::{decimal_string, decimal_text, decimal_value, nul_free, lemma_decimal_digits, lemma_decimal_text_spells};

verus! {

/// What the wallet reports of an account: the chain tip height its summary
/// was made at, the spendable value of each pool, and the account's total.
pub struct Balance {
    pub height: String,
    pub unshielded: u64,
    pub orchard: u64,
    pub sapling: u64,
    pub total: u64,
}

/// The balance of one account as the wallet summary holds it: the spendable
/// value of each pool, and the total of all its value. The spendable values
/// of the three pools together stay within the total, as the wallet summary
/// keeps them: each pool's spendable value is part of that pool's total, and
/// the account's total is the sum of all its pools' totals.
#[derive(Clone, Copy, Debug)]
pub struct AccountBalances {
    unshielded_spendable: u64,
    orchard_spendable: u64,
    sapling_spendable: u64,
    total: u64,
}

impl AccountBalances {
    #[verifier::type_invariant]
    spec fn pools_within_total(self) -> bool {
        self.unshielded_spendable + self.orchard_spendable + self.sapling_spendable <= self.total
    }

    /// The spendable value of the transparent pool.
    pub closed spec fn unshielded_value(self) -> u64 {
        self.unshielded_spendable
    }

    /// The spendable value of the Orchard pool.
    pub closed spec fn orchard_value(self) -> u64 {
        self.orchard_spendable
    }

    /// The spendable value of the Sapling pool.
    pub closed spec fn sapling_value(self) -> u64 {
        self.sapling_spendable
    }

    /// The total value of the account.
    pub closed spec fn total_value(self) -> u64 {
        self.total
    }

    /// The balances of an account, where the pools' spendable values stay
    /// within the total; `None` where they do not, as no wallet summary
    /// holds.
    pub fn new(unshielded_spendable: u64, orchard_spendable: u64, sapling_spendable: u64, total: u64) -> (r: Option<AccountBalances>)
        ensures
            r is Some <==> unshielded_spendable + orchard_spendable + sapling_spendable <= total,
            r matches Some(b) ==> b.unshielded_value() == unshielded_spendable && b.orchard_value() == orchard_spendable
                && b.sapling_value() == sapling_spendable && b.total_value() == total,
    {
        if unshielded_spendable as u128 + orchard_spendable as u128 + sapling_spendable as u128 <= total as u128 {
            Some(AccountBalances { unshielded_spendable, orchard_spendable, sapling_spendable, total })
        } else {
            None
        }
    }

    /// The spendable values of the pools, and the total.
    pub fn values(&self) -> (r: (u64, u64, u64, u64))
        ensures
            r == (self.unshielded_value(), self.orchard_value(), self.sapling_value(), self.total_value()),
            r.0 + r.1 + r.2 <= r.3,
    {
        proof { use_type_invariant(self); }
        (self.unshielded_spendable, self.orchard_spendable, self.sapling_spendable, self.total)
    }
}

/// The parts of a wallet summary that the balance report reads: the height of
/// the chain tip, and the balances of the account asked about, where the
/// summary holds that account.
#[derive(Clone, Copy, Debug)]
pub struct WalletSummary {
    pub chain_tip_height: u32,
    pub account: Option<AccountBalances>,
}

/// Why no balance could be reported.
#[derive(Clone, Copy, Debug, PartialEq, Eq, Structural)]
pub enum BalanceReportError {
    /// The wallet has no summary (it has not been synced far enough).
    SummaryUnavailable,
    /// The summary holds no balance for the account.
    MissingAccount,
}

/// What a balance report made from `summary` is: no summary is refused, a
/// summary without the account is refused, and otherwise the report copies
/// the summary's height (as decimal text) and the account's balances.
pub open spec fn wallet_balance_outcome(summary: Option<WalletSummary>, r: Result<Balance, BalanceReportError>) -> bool {
    match summary {
        None => r == Err::<Balance, BalanceReportError>(BalanceReportError::SummaryUnavailable),
        Some(s) => match s.account {
            None => r == Err::<Balance, BalanceReportError>(BalanceReportError::MissingAccount),
            Some(a) => r matches Ok(b) && b.height@ == decimal_text(s.chain_tip_height as nat)
                && b.unshielded == a.unshielded_value() && b.orchard == a.orchard_value()
                && b.sapling == a.sapling_value() && b.total == a.total_value(),
        },
    }
}

/// The balance report of an account, from the wallet summary (if any).
pub fn wallet_balance(summary: Option<WalletSummary>) -> (r: Result<Balance, BalanceReportError>)
    ensures
        wallet_balance_outcome(summary, r),
        summary is None ==> r == Err::<Balance, BalanceReportError>(BalanceReportError::SummaryUnavailable),
        summary matches Some(s) ==> (s.account is None <==> r == Err::<Balance, BalanceReportError>(BalanceReportError::MissingAccount)),
        summary matches Some(s) && s.account is Some ==> r is Ok,
        r matches Ok(b) ==> b.unshielded + b.orchard + b.sapling <= b.total,
        r matches Ok(b) ==> (summary matches Some(s) && decimal_value(b.height@) == s.chain_tip_height),
        r matches Ok(b) ==> (summary matches Some(s) && s.account matches Some(a) && b.height@ == decimal_text(s.chain_tip_height as nat) && b.unshielded == a.unshielded_value() && b.orchard == a.orchard_value() && b.sapling == a.sapling_value() && b.total == a.total_value()),
{
    match summary {
        None => Err(BalanceReportError::SummaryUnavailable),
        Some(s) => match s.account {
            None => Err(BalanceReportError::MissingAccount),
            Some(a) => {
                let (unshielded, orchard, sapling, total) = a.values();
                Ok(Balance { height: decimal_string(s.chain_tip_height as u64), unshielded, orchard, sapling, total })
            },
        },
    }
}

/// Two reports made from one summary agree: the report is a function of the
/// summary alone.
pub proof fn lemma_reports_agree(summary: Option<WalletSummary>, r1: Result<Balance, BalanceReportError>, r2: Result<Balance, BalanceReportError>)
    requires
        wallet_balance_outcome(summary, r1),
        wallet_balance_outcome(summary, r2),
    ensures
        r1 matches Ok(b1) ==> (r2 matches Ok(b2) && b1.height@ == b2.height@ && b1.unshielded == b2.unshielded && b1.orchard == b2.orchard && b1.sapling == b2.sapling && b1.total == b2.total),
        r1 is Err ==> r1 == r2,
{
}

/// The height a balance report shows spells the chain tip height of the
/// summary it was made from: reading its digits back gives that height, it
/// holds digits only, and it has no leading zero.
pub proof fn lemma_report_height_spells_tip(summary: Option<WalletSummary>, r: Result<Balance, BalanceReportError>)
    requires
        wallet_balance_outcome(summary, r),
        r is Ok,
    ensures
        r matches Ok(b) && summary matches Some(s) && decimal_value(b.height@) == s.chain_tip_height
            && b.height@.len() >= 1 && (b.height@[0] == '0' ==> s.chain_tip_height == 0)
            && (forall|i: int| 0 <= i < b.height@.len() ==> '0' <= #[trigger] b.height@[i] <= '9'),
{
    let s = summary->Some_0;
    lemma_decimal_text_spells(s.chain_tip_height as nat);
}

/// The height text of a balance report is a non-empty string of decimal
/// digits: it never holds a NUL character.
pub proof fn lemma_balance_height_nul_free(height: nat)
    ensures
        nul_free(decimal_text(height)),
        decimal_text(height).len() >= 1,
{
    lemma_decimal_digits(height);
}

} // verus!
