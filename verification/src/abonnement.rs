//! Subscriptions: coverage rows, the stored card, and the vouchers and
//! invoices the card rail and the monthly run produce.

use crate::bilag::{EntryDraft, VoucherDraft, balansert, enkel_linje};
use crate::dato::{Dato, gyldig, pluss_dager, dager_fra};
use crate::invoice::{InvoiceDraft, InvoiceLineDraft};
use crate::tekst::{desimal, er_blank, heltall_tekst, trimmet};
use vstd::prelude::*;
use vstd::string::*;

verus! {

/// The company's stored card.
#[derive(Clone, Debug)]
pub struct Kort {
    pub stripe_customer_id: String,
    pub payment_method_id: String,
    pub brand: String,
    pub last4: String,
    pub aktiv: bool,
}

/// Why a subscription action is refused.
#[derive(Clone, Debug, PartialEq, Eq)]
pub enum AbonnementFeil {
    /// A new coverage row needs a reference.
    UtenReferanse,
    /// No open coverage to end (or the end is before its start).
    IngenApenDekning,
    /// The charge does not match the receivable.
    FeilBelop { belop_ore: i64, gross_ore: i64 },
    /// A payment must be positive.
    IkkePositiv,
}

/// Coverage needs a reference (a non-blank note).
pub fn sjekk_tegning(note: &str) -> (r: Result<(), AbonnementFeil>)
    ensures
        r is Ok <==> trimmet(note@).len() > 0,
        r matches Err(e) ==> e == AbonnementFeil::UtenReferanse,
{
    if er_blank(note) {
        Err(AbonnementFeil::UtenReferanse)
    } else {
        Ok(())
    }
}

/// Ending coverage must have closed an open row.
pub fn sjekk_avslutning(rader_endret: u64) -> (r: Result<(), AbonnementFeil>)
    ensures
        r is Ok <==> rader_endret > 0,
        r matches Err(e) ==> e == AbonnementFeil::IngenApenDekning,
{
    if rader_endret > 0 {
        Ok(())
    } else {
        Err(AbonnementFeil::IngenApenDekning)
    }
}

/// What a card charge event leads to.
#[derive(Clone, Copy, Debug, PartialEq, Eq, Structural)]
pub enum Kortsteg {
    /// Already registered (a replayed event): nothing happens.
    Gjentatt,
    /// A failed charge: logged only.
    Logget,
    /// A successful charge: the payment is posted and matched.
    Bokfor,
}

/// The card rail's decision for a charge: a replay changes nothing; a
/// failed charge is only logged; a successful one must be for exactly
/// the receivable and is then posted.
pub fn kortutfall(ny: bool, succeeded: bool, belop_ore: i64, gross_ore: i64) -> (r: Result<Kortsteg, AbonnementFeil>)
    ensures
        !ny ==> r == Ok::<Kortsteg, AbonnementFeil>(Kortsteg::Gjentatt),
        ny && !succeeded ==> r == Ok::<Kortsteg, AbonnementFeil>(Kortsteg::Logget),
        ny && succeeded && belop_ore != gross_ore ==> r == Err::<Kortsteg, AbonnementFeil>(
            AbonnementFeil::FeilBelop { belop_ore, gross_ore },
        ),
        ny && succeeded && belop_ore == gross_ore ==> r == Ok::<Kortsteg, AbonnementFeil>(Kortsteg::Bokfor),
{
    if !ny {
        Ok(Kortsteg::Gjentatt)
    } else if !succeeded {
        Ok(Kortsteg::Logget)
    } else if belop_ore != gross_ore {
        Err(AbonnementFeil::FeilBelop { belop_ore, gross_ore })
    } else {
        Ok(Kortsteg::Bokfor)
    }
}

/// A card payment of a subscription invoice: the money on 1570
/// (kortoppgjør) against the customer's receivable on 1500.
pub open spec fn kortbilag_av(tekst: Seq<char>, dato: Dato, gross: int, party_no: Seq<char>, v: VoucherDraft) -> bool {
    &&& v.journal_code@ == "GL"@
    &&& v.voucher_date == dato
    &&& v.description@ == tekst
    &&& v.reverses is None
    &&& v.entries@.len() == 2
    &&& enkel_linje("1570"@, gross, None, v.entries@[0])
    &&& v.entries@[1].account_number@ == "1500"@
    &&& v.entries@[1].amount_ore == -gross
    &&& crate::tekst::opt_syn(v.entries@[1].party_no) == Some(party_no)
    &&& v.entries@[1].vat_code is None
    &&& v.entries@[1].description is None
}

/// The payment voucher of a card charge.
pub fn kortbilag(tekst: String, dato: Dato, gross: i64, party_no: &str) -> (r: VoucherDraft)
    requires
        gross != i64::MIN,
    ensures
        kortbilag_av(tekst@, dato, gross as int, party_no@, r),
        balansert(r),
{
    let a = crate::bilag::linje("1570", gross, None);
    let b = EntryDraft {
        account_number: String::from_str("1500"),
        amount_ore: -gross,
        vat_code: None,
        description: None,
        party_no: Some(String::from_str(party_no)),
        avdeling: None,
        prosjekt: None,
        valuta: None,
    };
    proof {
        crate::bilag::lemma_sum_to(a, b);
    }
    VoucherDraft {
        journal_code: String::from_str("GL"),
        voucher_date: dato,
        description: tekst,
        reverses: None,
        entries: vec![a, b],
    }
}

/// "Kortbetaling faktura {nr}".
pub fn kortbetaling_tekst(invoice_no: i64) -> (r: String)
    ensures
        r@ == "Kortbetaling faktura "@ + desimal(invoice_no as int),
{
    let mut s = String::from_str("Kortbetaling faktura ");
    s.append(heltall_tekst(invoice_no).as_str());
    s
}

/// "Kortbetaling abonnement, faktura {nr}".
pub fn abonnementsbetaling_tekst(invoice_no: i64) -> (r: String)
    ensures
        r@ == "Kortbetaling abonnement, faktura "@ + desimal(invoice_no as int),
{
    let mut s = String::from_str("Kortbetaling abonnement, faktura ");
    s.append(heltall_tekst(invoice_no).as_str());
    s
}

/// A subscription invoice: one line on 3000 with VAT code 3, one unit at
/// the net price, journal GL, receivable 1500 and VAT 2700.
pub open spec fn abonnementsfaktura_av(party_no: Seq<char>, dato: Dato, forfall: Dato, tekst: Seq<char>, netto: int, d: InvoiceDraft) -> bool {
    &&& d.kontant_betalingsmiddel is None
    &&& d.party_no@ == party_no
    &&& d.invoice_date == dato
    &&& d.due_date == forfall
    &&& d.delivery_date == dato
    &&& d.delivery_place is None
    &&& d.journal_code@ == "GL"@
    &&& d.receivable_account@ == "1500"@
    &&& d.vat_account@ == "2700"@
    &&& d.valuta is None
    &&& d.valuta_kurs_micro is None
    &&& d.lines@.len() == 1
    &&& d.lines@[0].description@ == tekst
    &&& d.lines@[0].account_number@ == "3000"@
    &&& d.lines@[0].quantity_milli == 1000
    &&& d.lines@[0].unit_price_ore == netto
    &&& crate::tekst::opt_syn(d.lines@[0].vat_code) == Some("3"@)
    &&& d.lines@[0].avdeling is None
    &&& d.lines@[0].prosjekt is None
    &&& d.lines@[0].product_id is None
}

/// The invoice for a subscription period.
pub fn abonnementsfaktura(party_no: &str, dato: Dato, forfall: Dato, tekst: String, netto: i64) -> (r: InvoiceDraft)
    ensures
        abonnementsfaktura_av(party_no@, dato, forfall, tekst@, netto as int, r),
{
    InvoiceDraft {
        kontant_betalingsmiddel: None,
        party_no: String::from_str(party_no),
        invoice_date: dato,
        due_date: forfall,
        delivery_date: dato,
        delivery_place: None,
        journal_code: String::from_str("GL"),
        receivable_account: String::from_str("1500"),
        vat_account: String::from_str("2700"),
        valuta: None,
        valuta_kurs_micro: None,
        lines: vec![
            InvoiceLineDraft {
                description: tekst,
                account_number: String::from_str("3000"),
                quantity_milli: 1000,
                unit_price_ore: netto,
                vat_code: Some(String::from_str("3")),
                avdeling: None,
                prosjekt: None,
                product_id: None,
            },
        ],
    }
}

/// The line text of a subscription invoice: "regnmed {plan} — {period}".
pub fn abonnementstekst(plan: &str, periode: &str) -> (r: String)
    ensures
        r@ == "regnmed "@ + plan@ + " — "@ + periode@,
{
    let mut s = String::from_str("regnmed ");
    s.append(plan);
    s.append(" — ");
    s.append(periode);
    s
}

/// The invoice for a Stripe-paid subscription period: dated and due the
/// payment day, at the net price taken out of the gross.
pub fn stripe_faktura(party_no: &str, idag: Dato, plan: &str, periode: &str, netto: i64, brutto: i64) -> (r: Result<InvoiceDraft, AbonnementFeil>)
    ensures
        brutto <= 0 ==> r == Err::<InvoiceDraft, AbonnementFeil>(AbonnementFeil::IkkePositiv),
        brutto > 0 ==> (r matches Ok(d) && abonnementsfaktura_av(party_no@, idag, idag, "regnmed "@ + plan@ + " — "@ + periode@, netto as int, d)),
{
    if brutto <= 0 {
        return Err(AbonnementFeil::IkkePositiv);
    }
    Ok(abonnementsfaktura(party_no, idag, idag, abonnementstekst(plan, periode), netto))
}

/// What the monthly run does for one company.
#[derive(Clone, Copy, Debug, PartialEq, Eq, Structural)]
pub enum Maanedsfaktura {
    /// A free plan invoices nothing.
    Gratis,
    /// The month is already invoiced.
    AlleredeFakturert,
    /// Issue the invoice.
    Fakturer,
}

/// The monthly run's decision for a company: nothing for a free plan or
/// an already invoiced month, else an invoice.
pub fn maanedsfaktura(pris_ore: i64, allerede: bool) -> (r: Maanedsfaktura)
    ensures
        r == (if pris_ore == 0 {
            Maanedsfaktura::Gratis
        } else if allerede {
            Maanedsfaktura::AlleredeFakturert
        } else {
            Maanedsfaktura::Fakturer
        }),
{
    if pris_ore == 0 {
        Maanedsfaktura::Gratis
    } else if allerede {
        Maanedsfaktura::AlleredeFakturert
    } else {
        Maanedsfaktura::Fakturer
    }
}

/// The monthly invoice: dated `idag`, due 14 days later; `None` exactly
/// when that falls outside the calendar.
pub fn maanedsfaktura_utkast(party_no: &str, idag: Dato, tekst: String, pris_ore: i64) -> (r: Option<InvoiceDraft>)
    requires
        gyldig(idag),
    ensures
        r is Some <==> crate::dato::forste_dagnr() <= crate::dato::dagnr_av(idag) + 14 <= crate::dato::siste_dagnr(),
        r matches Some(d) ==> gyldig(d.due_date) && dager_fra(idag, d.due_date) == 14 && abonnementsfaktura_av(
            party_no@,
            idag,
            d.due_date,
            tekst@,
            pris_ore as int,
            d,
        ),
{
    match pluss_dager(idag, 14) {
        Some(forfall) => Some(abonnementsfaktura(party_no, idag, forfall, tekst, pris_ore)),
        None => None,
    }
}

/// The net monthly price for an interval: the interval's own price row
/// when there is one, else the plan's monthly price (times twelve for a
/// yearly interval).
pub fn netto_for(egen: Option<i64>, interval: &str, maanedspris: i64) -> (r: i64)
    requires
        egen is None && interval@ == "year"@ ==> -0x0aaa_aaaa_aaaa_aaaa <= maanedspris <= 0x0aaa_aaaa_aaaa_aaaa,
    ensures
        r == (match egen {
            Some(n) => n as int,
            None => if interval@ == "year"@ {
                maanedspris * 12
            } else {
                maanedspris as int
            },
        }),
{
    match egen {
        Some(n) => n,
        None => if crate::tekst::like(interval, "year") {
            maanedspris * 12
        } else {
            maanedspris
        },
    }
}

} // verus!
