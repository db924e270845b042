//! Payment follow-up: overdue invoices are computed from what is still
//! open, sorted into age buckets, and a reminder step's total is the
//! remaining amount plus the fee and interest claimed; a claim is posted
//! only when there is one.

use crate::dato::{Dato, dager_fra, dager_mellom, gyldig};
use vstd::prelude::*;

verus! {

/// An open, overdue invoice.
#[derive(Clone, Debug)]
pub struct OverdueInvoice {
    pub invoice_id: u128,
    pub invoice_no: i64,
    pub party_no: String,
    pub party_name: String,
    pub due_date: Dato,
    pub days_overdue: i64,
    /// Age bucket: "1-14", "15-30" or "30+".
    pub bucket: &'static str,
    pub remaining_ore: i64,
    pub last_steg: Option<String>,
    pub last_sent: Option<Dato>,
}

/// A reminder step to be previewed or recorded.
#[derive(Clone, Debug)]
pub struct ReminderDraft {
    pub steg: String,
    /// `None`: today.
    pub sent_date: Option<Dato>,
    pub frist_date: Dato,
    pub gebyr_ore: i64,
    /// Claim accrued late-payment interest as well.
    pub med_rente: bool,
    /// The debtor is a business: the fee cap is the standard
    /// compensation, not the reminder fee maximum.
    pub naeringsdrivende: bool,
    pub gebyr_account: String,
    pub rente_account: String,
}

/// A previewed or recorded reminder step.
#[derive(Clone, Debug)]
pub struct ReminderResult {
    pub reminder_id: Option<u128>,
    pub steg: String,
    pub sent_date: Dato,
    pub frist_date: Dato,
    pub remaining_ore: i64,
    pub gebyr_ore: i64,
    pub maks_gebyr_ore: i64,
    pub rente_ore: i64,
    pub total_ore: i64,
    pub kid: String,
    pub document: String,
    pub voucher: Option<(i32, i64)>,
}

/// A recorded reminder step.
#[derive(Clone, Debug)]
pub struct ReminderRow {
    pub reminder_id: u128,
    pub steg: String,
    pub sent_date: Dato,
    pub frist_date: Dato,
    pub remaining_ore: i64,
    pub gebyr_ore: i64,
    pub rente_ore: i64,
    pub voucher: Option<(i32, i64)>,
    pub created_by: String,
}

/// Why a reminder is refused.
#[derive(Clone, Copy, Debug, PartialEq, Eq, Structural)]
pub enum PurreFeil {
    /// The invoice is settled: nothing to remind of.
    Oppgjort,
    UkjentPurring,
}

/// The age bucket of an overdue invoice.
pub open spec fn aldersintervall(dager: int) -> Seq<char> {
    if dager <= 14 { "1-14"@ } else if dager <= 30 { "15-30"@ } else { "30+"@ }
}

pub fn bucket_for(dager: i64) -> (r: &'static str)
    ensures
        r@ == aldersintervall(dager as int),
{
    if dager <= 14 {
        "1-14"
    } else if dager <= 30 {
        "15-30"
    } else {
        "30+"
    }
}

/// An invoice as the overdue list shows it on `per_date`: only while
/// something remains open, with the days since its due date and their
/// bucket.
pub fn forfalt_faktura(
    invoice_id: u128,
    invoice_no: i64,
    party_no: String,
    party_name: String,
    due_date: Dato,
    per_date: Dato,
    remaining_ore: i64,
    last_steg: Option<String>,
    last_sent: Option<Dato>,
) -> (r: Option<OverdueInvoice>)
    requires
        gyldig(due_date),
        gyldig(per_date),
    ensures
        remaining_ore <= 0 ==> r is None,
        remaining_ore > 0 ==> (r matches Some(o) && {
            &&& o.invoice_id == invoice_id
            &&& o.invoice_no == invoice_no
            &&& o.party_no == party_no
            &&& o.party_name == party_name
            &&& o.due_date == due_date
            &&& o.days_overdue == dager_fra(due_date, per_date)
            &&& o.bucket@ == aldersintervall(dager_fra(due_date, per_date))
            &&& o.remaining_ore == remaining_ore
            &&& o.last_steg == last_steg
            &&& o.last_sent == last_sent
        }),
{
    if remaining_ore <= 0 {
        return None;
    }
    let dager = dager_mellom(due_date, per_date);
    Some(OverdueInvoice {
        invoice_id,
        invoice_no,
        party_no,
        party_name,
        due_date,
        days_overdue: dager,
        bucket: bucket_for(dager),
        remaining_ore,
        last_steg,
        last_sent,
    })
}

/// A reminder needs something left to pay.
pub fn sjekk_restbelop(remaining_ore: i64) -> (r: Result<(), PurreFeil>)
    ensures
        r is Ok <==> remaining_ore > 0,
        r matches Err(e) ==> e == PurreFeil::Oppgjort,
{
    if remaining_ore > 0 {
        Ok(())
    } else {
        Err(PurreFeil::Oppgjort)
    }
}

/// Which rate caps the fee: the standard compensation for a business
/// debtor, the reminder fee maximum otherwise.
pub fn gebyrdomene(naeringsdrivende: bool) -> (r: &'static str)
    ensures
        r@ == (if naeringsdrivende { "standardkompensasjon"@ } else { "purregebyr_maks"@ }),
{
    if naeringsdrivende {
        "standardkompensasjon"
    } else {
        "purregebyr_maks"
    }
}

/// The fee cap: the rate in force on the day, or zero without one.
pub fn maks_gebyr(sats: Option<i64>) -> (r: i64)
    ensures
        r == (match sats { Some(s) => s, None => 0 }),
{
    match sats {
        Some(s) => s,
        None => 0,
    }
}

/// The interest claimed: none unless asked for, else the interest
/// computed (`beregnet`).
pub fn rente_krevd(med_rente: bool, beregnet: i64) -> (r: i64)
    ensures
        r == (if med_rente { beregnet } else { 0 }),
{
    if med_rente {
        beregnet
    } else {
        0
    }
}

/// The amount a step claims on top of the remaining amount: fee plus
/// interest.
pub open spec fn krav(gebyr: int, rente: int) -> int {
    gebyr + rente
}

/// A claim is posted only when the step claims something.
pub fn krav_skal_bokfores(gebyr_ore: i64, rente_ore: i64) -> (r: bool)
    requires
        i64::MIN <= gebyr_ore + rente_ore <= i64::MAX,
    ensures
        r == (krav(gebyr_ore as int, rente_ore as int) > 0),
{
    gebyr_ore + rente_ore > 0
}

/// The result of a step: what remains, the fee and its cap, the
/// interest, and the total the debtor is asked for.
pub fn purreresultat(
    steg: String,
    sent_date: Dato,
    frist_date: Dato,
    remaining_ore: i64,
    gebyr_ore: i64,
    maks_gebyr_ore: i64,
    rente_ore: i64,
    kid: String,
    document: String,
) -> (r: ReminderResult)
    requires
        i64::MIN <= remaining_ore + gebyr_ore + rente_ore <= i64::MAX,
        i64::MIN <= remaining_ore + gebyr_ore <= i64::MAX,
    ensures
        r.reminder_id is None,
        r.steg == steg,
        r.sent_date == sent_date,
        r.frist_date == frist_date,
        r.remaining_ore == remaining_ore,
        r.gebyr_ore == gebyr_ore,
        r.maks_gebyr_ore == maks_gebyr_ore,
        r.rente_ore == rente_ore,
        r.total_ore == remaining_ore + krav(gebyr_ore as int, rente_ore as int),
        r.kid == kid,
        r.document == document,
        r.voucher is None,
{
    ReminderResult {
        reminder_id: None,
        steg,
        sent_date,
        frist_date,
        remaining_ore,
        gebyr_ore,
        maks_gebyr_ore,
        rente_ore,
        total_ore: remaining_ore + gebyr_ore + rente_ore,
        kid,
        document,
        voucher: None,
    }
}

/// The voucher of a recorded step, when both its year and number are
/// there.
pub fn purrebilag(fiscal_year: Option<i32>, voucher_number: Option<i64>) -> (r: Option<(i32, i64)>)
    ensures
        r == (match (fiscal_year, voucher_number) {
            (Some(a), Some(n)) => Some((a, n)),
            _ => None,
        }),
{
    match (fiscal_year, voucher_number) {
        (Some(a), Some(n)) => Some((a, n)),
        _ => None,
    }
}

/// The stored document of a step, when the step exists.
pub fn purredokument(dokument: Option<String>) -> (r: Result<String, PurreFeil>)
    ensures
        match dokument {
            Some(d) => r == Ok::<String, PurreFeil>(d),
            None => r == Err::<String, PurreFeil>(PurreFeil::UkjentPurring),
        },
{
    match dokument {
        Some(d) => Ok(d),
        None => Err(PurreFeil::UkjentPurring),
    }
}

} // verus!
