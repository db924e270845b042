//! Recurring invoices: templates, when one is due, and the invoice a due
//! template issues.

use crate::dato::{Dato, for_, gyldig, pluss_dager, dager_fra};
use crate::invoice::{InvoiceDraft, InvoiceLineDraft};
use crate::tekst::like;
use vstd::prelude::*;
use vstd::string::*;

verus! {

/// A line of a recurring invoice template.
#[derive(Clone, Debug)]
pub struct TemplateLineDraft {
    pub description: String,
    pub account_number: String,
    pub quantity_milli: i64,
    pub unit_price_ore: i64,
    pub vat_code: Option<String>,
    pub avdeling: Option<String>,
    pub prosjekt: Option<String>,
}

/// Why a template is refused.
#[derive(Clone, Debug, PartialEq, Eq)]
pub enum MalFeil {
    UkjentIntervall,
    IngenLinjer,
}

/// The intervals a template can repeat at.
pub open spec fn kjent_intervall(i: Seq<char>) -> bool {
    i == "manedlig"@ || i == "kvartalsvis"@ || i == "arlig"@
}

/// A template repeats monthly, quarterly or yearly.
pub fn check_intervall(intervall: &str) -> (r: Result<(), MalFeil>)
    ensures
        r is Ok <==> kjent_intervall(intervall@),
        r matches Err(e) ==> e == MalFeil::UkjentIntervall,
{
    if like(intervall, "manedlig") || like(intervall, "kvartalsvis") || like(intervall, "arlig") {
        Ok(())
    } else {
        Err(MalFeil::UkjentIntervall)
    }
}

/// A new template needs a known interval and at least one line.
pub fn sjekk_mal(intervall: &str, antall_linjer: usize) -> (r: Result<(), MalFeil>)
    ensures
        !kjent_intervall(intervall@) ==> r == Err::<(), MalFeil>(MalFeil::UkjentIntervall),
        kjent_intervall(intervall@) && antall_linjer == 0 ==> r == Err::<(), MalFeil>(MalFeil::IngenLinjer),
        r is Ok <==> kjent_intervall(intervall@) && antall_linjer > 0,
{
    match check_intervall(intervall) {
        Err(e) => Err(e),
        Ok(()) => if antall_linjer == 0 {
            Err(MalFeil::IngenLinjer)
        } else {
            Ok(())
        },
    }
}

/// A template is due when it is active, its next date has come, and it
/// has not passed its end date.
pub open spec fn forfalt(aktiv: bool, neste: Dato, slutt: Option<Dato>, idag: Dato) -> bool {
    &&& aktiv
    &&& !for_(idag, neste)
    &&& match slutt {
        Some(s) => !for_(s, neste),
        None => true,
    }
}

/// Whether a template is due for generation today.
pub fn er_forfalt(aktiv: bool, neste: Dato, slutt: Option<Dato>, idag: Dato) -> (r: bool)
    ensures
        r == forfalt(aktiv, neste, slutt, idag),
{
    aktiv && !crate::dato::er_for(idag, neste) && match slutt {
        Some(s) => !crate::dato::er_for(s, neste),
        None => true,
    }
}

/// The invoice a due template issues: dated its next date, due
/// `forfall_dager` later, delivered on the invoice date, journal GL with
/// receivable 1500 and VAT 2700, one line per template line with the
/// period text filled in (`beskrivelser[i]` is line `i`'s description
/// with its {måned}/{år} placeholders filled for the date). `None` when
/// the due date falls outside the calendar or `forfall_dager` is
/// negative.
pub fn faktura_fra_mal(
    party_no: &str,
    neste: Dato,
    forfall_dager: i32,
    linjer: &Vec<TemplateLineDraft>,
    beskrivelser: &Vec<String>,
) -> (r: Option<InvoiceDraft>)
    requires
        gyldig(neste),
        beskrivelser@.len() == linjer@.len(),
    ensures
        forfall_dager < 0 ==> r is None,
        forfall_dager >= 0 ==> (r is Some <==> crate::dato::forste_dagnr() <= crate::dato::dagnr_av(neste)
            + forfall_dager <= crate::dato::siste_dagnr()),
        r matches Some(d) ==> {
            &&& forfall_dager >= 0
            &&& d.party_no@ == party_no@
            &&& d.invoice_date == neste
            &&& gyldig(d.due_date) && dager_fra(neste, d.due_date) == forfall_dager
            &&& d.delivery_date == neste
            &&& d.delivery_place is None
            &&& d.kontant_betalingsmiddel is None
            &&& d.journal_code@ == "GL"@
            &&& d.receivable_account@ == "1500"@
            &&& d.vat_account@ == "2700"@
            &&& d.valuta is None
            &&& d.valuta_kurs_micro is None
            &&& d.lines@.len() == linjer@.len()
            &&& forall|i: int| 0 <= i < linjer@.len() ==> {
                let l = #[trigger] d.lines@[i];
                &&& l.description@ == beskrivelser@[i]@
                &&& l.account_number@ == linjer@[i].account_number@
                &&& l.quantity_milli == linjer@[i].quantity_milli
                &&& l.unit_price_ore == linjer@[i].unit_price_ore
                &&& crate::tekst::opt_syn(l.vat_code) == crate::tekst::opt_syn(linjer@[i].vat_code)
                &&& crate::tekst::opt_syn(l.avdeling) == crate::tekst::opt_syn(linjer@[i].avdeling)
                &&& crate::tekst::opt_syn(l.prosjekt) == crate::tekst::opt_syn(linjer@[i].prosjekt)
                &&& l.product_id is None
            }
        },
{
    if forfall_dager < 0 {
        return None;
    }
    let due = match pluss_dager(neste, forfall_dager as i64) {
        Some(d) => d,
        None => {
            return None;
        },
    };
    let mut lines: Vec<InvoiceLineDraft> = Vec::new();
    let mut i: usize = 0;
    while i < linjer.len()
        invariant
            beskrivelser@.len() == linjer@.len(),
            i <= linjer@.len(),
            lines@.len() == i,
            forall|k: int| 0 <= k < i ==> {
                let l = #[trigger] lines@[k];
                &&& l.description@ == beskrivelser@[k]@
                &&& l.account_number@ == linjer@[k].account_number@
                &&& l.quantity_milli == linjer@[k].quantity_milli
                &&& l.unit_price_ore == linjer@[k].unit_price_ore
                &&& crate::tekst::opt_syn(l.vat_code) == crate::tekst::opt_syn(linjer@[k].vat_code)
                &&& crate::tekst::opt_syn(l.avdeling) == crate::tekst::opt_syn(linjer@[k].avdeling)
                &&& crate::tekst::opt_syn(l.prosjekt) == crate::tekst::opt_syn(linjer@[k].prosjekt)
                &&& l.product_id is None
            },
        decreases linjer@.len() - i,
    {
        let t = &linjer[i];
        lines.push(InvoiceLineDraft {
            description: beskrivelser[i].clone(),
            account_number: t.account_number.clone(),
            quantity_milli: t.quantity_milli,
            unit_price_ore: t.unit_price_ore,
            vat_code: crate::tekst::kopi_valg(&t.vat_code),
            avdeling: crate::tekst::kopi_valg(&t.avdeling),
            prosjekt: crate::tekst::kopi_valg(&t.prosjekt),
            product_id: None,
        });
        i = i + 1;
    }
    Some(InvoiceDraft {
        kontant_betalingsmiddel: None,
        party_no: String::from_str(party_no),
        invoice_date: neste,
        due_date: due,
        delivery_date: neste,
        delivery_place: None,
        journal_code: String::from_str("GL"),
        receivable_account: String::from_str("1500"),
        vat_account: String::from_str("2700"),
        valuta: None,
        valuta_kurs_micro: None,
        lines,
    })
}

/// The outcome of one generation attempt in a batch.
#[derive(Clone, Copy, Debug, PartialEq, Eq, Structural)]
pub enum Generering {
    /// Not due after all (lost a race).
    IkkeForfalt,
    /// An invoice was issued.
    Utstedt,
    /// The attempt failed; it is logged and retried next run.
    Feilet,
}

/// A batch keeps looping while some template got an invoice in the last
/// round; a round with only failures (or nothing) ends it.
pub fn fortsett_generering(runde: &Vec<Generering>) -> (r: bool)
    ensures
        r == exists|i: int| 0 <= i < runde@.len() && runde@[i] == Generering::Utstedt,
{
    let mut i: usize = 0;
    while i < runde.len()
        invariant
            i <= runde@.len(),
            forall|k: int| 0 <= k < i ==> runde@[k] != Generering::Utstedt,
        decreases runde@.len() - i,
    {
        if runde[i] == Generering::Utstedt {
            return true;
        }
        i = i + 1;
    }
    false
}

} // verus!
