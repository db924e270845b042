//! Bank reconciliation: a statement is imported once, matches are made
//! within a window of days, and what is unmatched is always what has no
//! match, listed with its voucher label.

use crate::dato::Dato;
use crate::tekst::{bilagsetikett, etikett};
use vstd::prelude::*;

verus! {

/// How many days a bank booking date and a voucher date may lie apart
/// for an automatic match.
pub const MATCH_WINDOW_DAYS: i64 = 5;

/// What a statement import did.
#[derive(Clone, Copy, Debug)]
pub struct ImportSummary {
    pub statement_id: u128,
    pub transactions: usize,
    pub auto_matched: usize,
}

/// A bank transaction with no match.
#[derive(Clone, Debug)]
pub struct UnmatchedBankRow {
    pub id: u128,
    pub booking_date: Dato,
    pub amount_ore: i64,
    pub description: String,
    pub reference: Option<String>,
}

/// A ledger entry on the bank account with no match.
#[derive(Clone, Debug)]
pub struct UnmatchedEntryRow {
    pub entry_id: u128,
    pub voucher_date: Dato,
    pub voucher_label: String,
    pub amount_ore: i64,
    pub description: Option<String>,
}

/// The state of a bank account's reconciliation.
#[derive(Clone, Debug)]
pub struct ReconciliationStatus {
    pub account_number: String,
    pub ledger_balance_ore: i64,
    /// The latest statement's closing balance; absent (never zero) when
    /// the statement carried none.
    pub statement_closing_ore: Option<i64>,
    pub statement_to_date: Option<Dato>,
    pub matched_count: i64,
    pub unmatched_bank: Vec<UnmatchedBankRow>,
    pub unmatched_entries: Vec<UnmatchedEntryRow>,
}

/// Why a reconciliation step is refused.
#[derive(Clone, Debug, PartialEq, Eq)]
pub enum BankFeil {
    /// The statement carries no id.
    UtenId,
    /// No (active) account with that number.
    UkjentKonto,
    /// The statement with this id is already imported.
    AlleredeImportert { statement_ref: String },
    /// The bank transaction and the entry are not of the same company
    /// and bank account.
    UlikKonto,
    /// No such match.
    IngenMatch,
}

/// A statement can be imported when it has an id and the account exists
/// and is active.
pub fn sjekk_kontoutskrift(statement_ref: &str, konto_funnet: bool) -> (r: Result<(), BankFeil>)
    ensures
        statement_ref@.len() == 0 ==> r == Err::<(), BankFeil>(BankFeil::UtenId),
        statement_ref@.len() > 0 && !konto_funnet ==> r == Err::<(), BankFeil>(BankFeil::UkjentKonto),
        r is Ok <==> statement_ref@.len() > 0 && konto_funnet,
{
    if statement_ref.unicode_len() == 0 {
        return Err(BankFeil::UtenId);
    }
    if !konto_funnet {
        return Err(BankFeil::UkjentKonto);
    }
    Ok(())
}

/// A statement is stored once: exactly one new row, else it was imported
/// before.
pub fn sjekk_ny_kontoutskrift(rader: u64, statement_ref: &str) -> (r: Result<(), BankFeil>)
    ensures
        r is Ok <==> rader == 1,
        r matches Err(e) ==> e matches BankFeil::AlleredeImportert { statement_ref: s } && s@ == statement_ref@,
{
    if rader == 1 {
        Ok(())
    } else {
        Err(BankFeil::AlleredeImportert { statement_ref: statement_ref.to_string() })
    }
}

/// A manual match needs both sides in the same company and bank account.
pub fn sjekk_manuell_match(gyldig: bool) -> (r: Result<(), BankFeil>)
    ensures
        r is Ok <==> gyldig,
        r matches Err(e) ==> e == BankFeil::UlikKonto,
{
    if gyldig {
        Ok(())
    } else {
        Err(BankFeil::UlikKonto)
    }
}

/// Removing a match removes exactly one, else there was none.
pub fn sjekk_fjernet(rader: u64) -> (r: Result<(), BankFeil>)
    ensures
        r is Ok <==> rader == 1,
        r matches Err(e) ==> e == BankFeil::IngenMatch,
{
    if rader == 1 {
        Ok(())
    } else {
        Err(BankFeil::IngenMatch)
    }
}

/// An unmatched entry as listed, labelled "year-number" by its voucher.
pub fn umatchet_post(
    entry_id: u128,
    voucher_date: Dato,
    fiscal_year: i32,
    voucher_number: i64,
    amount_ore: i64,
    description: Option<String>,
) -> (r: UnmatchedEntryRow)
    ensures
        r.entry_id == entry_id,
        r.voucher_date == voucher_date,
        r.voucher_label@ == bilagsetikett(fiscal_year as int, voucher_number as int),
        r.amount_ore == amount_ore,
        r.description == description,
{
    UnmatchedEntryRow {
        entry_id,
        voucher_date,
        voucher_label: etikett(fiscal_year, voucher_number),
        amount_ore,
        description,
    }
}

} // verus!
