//! Automatic follow-up of subscription invoices: remind, end coverage
//! when an invoice stays unpaid long after a reminder, and restore it
//! once everything is paid, but only coverage the follow-up itself ended
//! for non-payment, never a cancellation.

use crate::dato::{Dato, datotekst, dato_tekst, dager_fra, dager_mellom, gyldig, pluss_dager};
use crate::purring::ReminderDraft;
use crate::tekst::{desimal, heltall_tekst, like};
use vstd::prelude::*;
use vstd::string::*;

verus! {

/// Who the follow-up's own actions are recorded as.
pub const UTFORT_AV: &'static str = "regnmed abonnement-oppfolging";

/// An open subscription invoice with the customer company it bills.
#[derive(Clone, Debug)]
pub struct AbonnementFaktura {
    pub company_id: u128,
    pub company_navn: String,
    /// The customer company's own e-mail address, the recipient.
    pub epost: Option<String>,
    pub invoice_id: u128,
    pub invoice_no: i64,
    pub due_date: Dato,
    pub remaining_ore: i64,
    /// At least one mail about the invoice has gone out.
    pub sendt: bool,
    pub last_steg: Option<String>,
    pub last_sent: Option<Dato>,
}

/// A reminder on a subscription invoice that never went out.
#[derive(Clone, Debug)]
pub struct UsendtPurring {
    pub company_id: u128,
    pub company_navn: String,
    pub epost: Option<String>,
    pub invoice_id: u128,
    pub invoice_no: i64,
    pub reminder_id: u128,
    pub steg: String,
}

/// Why a follow-up step is refused.
#[derive(Clone, Copy, Debug, PartialEq, Eq, Structural)]
pub enum OppfolgingFeil {
    /// The standard compensation rate is missing from the rate register.
    ManglerStandardkompensasjon,
    /// The due date of the new step lies outside the calendar.
    UgyldigFrist,
    /// A logged action needs its detail.
    ManglerDetalj,
}

/// The fee of a reminder step: the standard compensation rate when the
/// step carries a fee (`sats`, the rate in force today), none otherwise.
pub fn purregebyr(med_gebyr: bool, sats: Option<i64>) -> (r: Result<i64, OppfolgingFeil>)
    ensures
        !med_gebyr ==> r == Ok::<i64, OppfolgingFeil>(0),
        med_gebyr ==> r == (match sats {
            Some(s) => Ok(s),
            None => Err(OppfolgingFeil::ManglerStandardkompensasjon),
        }),
{
    if !med_gebyr {
        return Ok(0);
    }
    match sats {
        Some(s) => Ok(s),
        None => Err(OppfolgingFeil::ManglerStandardkompensasjon),
    }
}

/// The fee and interest accounts are needed when the step claims a fee
/// or interest.
pub fn trenger_kravkontoer(gebyr_ore: i64, med_rente: bool) -> (r: bool)
    ensures
        r == (gebyr_ore > 0 || med_rente),
{
    gebyr_ore > 0 || med_rente
}

/// The reminder step the follow-up takes: sent today, due `frist_dager`
/// days later, the fee and interest on accounts 3950 and 8050, and the
/// debtor treated as a business.
pub fn purreutkast(steg: &str, idag: Dato, frist_dager: i64, gebyr_ore: i64, med_rente: bool) -> (r: Result<ReminderDraft, OppfolgingFeil>)
    requires
        gyldig(idag),
    ensures
        r is Ok <==> crate::dato::forste_dagnr() <= crate::dato::dagnr_av(idag) + frist_dager <= crate::dato::siste_dagnr(),
        r matches Ok(d) ==> {
            &&& d.steg@ == steg@
            &&& d.sent_date == Some(idag)
            &&& gyldig(d.frist_date) && dager_fra(idag, d.frist_date) == frist_dager
            &&& d.gebyr_ore == gebyr_ore
            &&& d.med_rente == med_rente
            &&& d.naeringsdrivende
            &&& d.gebyr_account@ == "3950"@
            &&& d.rente_account@ == "8050"@
        },
        r matches Err(e) ==> e == OppfolgingFeil::UgyldigFrist,
{
    let frist = match pluss_dager(idag, frist_dager) {
        Some(f) => f,
        None => {
            return Err(OppfolgingFeil::UgyldigFrist);
        },
    };
    Ok(ReminderDraft {
        steg: steg.to_string(),
        sent_date: Some(idag),
        frist_date: frist,
        gebyr_ore,
        med_rente,
        naeringsdrivende: true,
        gebyr_account: String::from_str("3950"),
        rente_account: String::from_str("8050"),
    })
}

/// Coverage ends when the invoice has been reminded with a purring or a
/// later step (`purret`), at least `sperr_dager` days have passed since
/// its due date, and the company has open coverage to end.
pub open spec fn modent_for_sperring(purret: bool, due_date: Dato, idag: Dato, sperr_dager: int, apen_dekning: bool) -> bool {
    purret && dager_fra(due_date, idag) >= sperr_dager && apen_dekning
}

pub fn skal_sperres(purret: bool, due_date: Dato, idag: Dato, sperr_dager: i64, apen_dekning: bool) -> (r: bool)
    requires
        gyldig(due_date),
        gyldig(idag),
    ensures
        r == modent_for_sperring(purret, due_date, idag, sperr_dager as int, apen_dekning),
{
    if !purret {
        return false;
    }
    let dager = dager_mellom(due_date, idag);
    dager >= sperr_dager && apen_dekning
}

/// The logged detail of an ended coverage.
pub open spec fn sperretekst(invoice_no: int, dager: int, due_date: Dato) -> Seq<char> {
    "faktura "@ + desimal(invoice_no) + " ubetalt "@ + desimal(dager) + " dager etter forfall ("@ + datotekst(due_date)
        + ") — dekningen avsluttet"@
}

pub fn sperredetalj(invoice_no: i64, due_date: Dato, idag: Dato) -> (r: String)
    requires
        gyldig(due_date),
        gyldig(idag),
    ensures
        r@ == sperretekst(invoice_no as int, dager_fra(due_date, idag), due_date),
{
    let mut s = String::from_str("faktura ");
    let n = heltall_tekst(invoice_no);
    s.append(n.as_str());
    s.append(" ubetalt ");
    let d = heltall_tekst(dager_mellom(due_date, idag));
    s.append(d.as_str());
    s.append(" dager etter forfall (");
    let f = dato_tekst(due_date);
    s.append(f.as_str());
    s.append(") — dekningen avsluttet");
    s
}

/// The latest follow-up action of a company was to end its coverage.
pub open spec fn sperret(siste: Option<Seq<char>>) -> bool {
    siste == Some("sperret"@)
}

/// The companies whose latest follow-up action ended their coverage,
/// from `(company, latest action)` pairs, in order.
pub open spec fn sperrede_til(siste: Seq<(u128, String)>, n: int) -> Seq<u128>
    decreases n,
{
    if n <= 0 {
        Seq::empty()
    } else if siste[n - 1].1@ == "sperret"@ {
        sperrede_til(siste, n - 1).push(siste[n - 1].0)
    } else {
        sperrede_til(siste, n - 1)
    }
}

pub fn auto_sperrede(siste: &Vec<(u128, String)>) -> (r: Vec<u128>)
    ensures
        r@ == sperrede_til(siste@, siste@.len() as int),
{
    let mut ut: Vec<u128> = Vec::new();
    let mut i: usize = 0;
    while i < siste.len()
        invariant
            i <= siste@.len(),
            ut@ == sperrede_til(siste@, i as int),
        decreases siste@.len() - i,
    {
        if like(siste[i].1.as_str(), "sperret") {
            ut.push(siste[i].0);
        }
        i = i + 1;
    }
    ut
}

/// Some open invoice bills the company.
pub open spec fn utestaaende(apne: Seq<AbonnementFaktura>, company_id: u128) -> bool {
    exists|k: int| 0 <= k < apne.len() && #[trigger] apne[k].company_id == company_id
}

/// Coverage is restored when the follow-up itself ended it for
/// non-payment (its latest action) and no open invoice bills the
/// company any more.
pub fn skal_gjenopprettes(siste: Option<&str>, apne: &Vec<AbonnementFaktura>, company_id: u128) -> (r: bool)
    ensures
        r == (sperret(match siste { Some(s) => Some(s@), None => None }) && !utestaaende(apne@, company_id)),
{
    let er_sperret = match siste {
        Some(s) => like(s, "sperret"),
        None => false,
    };
    if !er_sperret {
        return false;
    }
    let mut k: usize = 0;
    while k < apne.len()
        invariant
            k <= apne@.len(),
            forall|j: int| 0 <= j < k ==> #[trigger] apne@[j].company_id != company_id,
        decreases apne@.len() - k,
    {
        if apne[k].company_id == company_id {
            return false;
        }
        k = k + 1;
    }
    true
}

/// A cancellation is never undone by a payment: unless the latest action
/// was the follow-up's own ending for non-payment, coverage is not
/// restored whatever is paid.
pub proof fn lov_oppsigelse_gjenopprettes_aldri(siste: Option<Seq<char>>, apne: Seq<AbonnementFaktura>, company_id: u128)
    requires
        !sperret(siste),
    ensures
        !(sperret(siste) && !utestaaende(apne, company_id)),
{
}

/// The logged detail of a restored coverage.
pub open spec fn gjenopprettingstekst(idag: Dato, plan: Seq<char>) -> Seq<char> {
    "alle abonnementsfakturaer betalt — dekning fra "@ + datotekst(idag) + ", plan "@ + plan
}

pub fn gjenopprettingsdetalj(idag: Dato, plan: &str) -> (r: String)
    ensures
        r@ == gjenopprettingstekst(idag, plan@),
{
    let mut s = String::from_str("alle abonnementsfakturaer betalt — dekning fra ");
    let d = dato_tekst(idag);
    s.append(d.as_str());
    s.append(", plan ");
    s.append(plan);
    s
}

/// A logged action needs its detail.
pub fn sjekk_logg(detail: &str) -> (r: Result<(), OppfolgingFeil>)
    ensures
        r is Ok <==> detail@.len() > 0,
        r matches Err(e) ==> e == OppfolgingFeil::ManglerDetalj,
{
    if detail.unicode_len() > 0 {
        Ok(())
    } else {
        Err(OppfolgingFeil::ManglerDetalj)
    }
}

} // verus!
