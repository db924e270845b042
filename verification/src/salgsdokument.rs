//! Tilbud → ordre → faktura: the commercial chain before an invoice.
//! A tilbud is editable until it is accepted or rejected, its status
//! only moves forward, an ordre is a frozen confirmation, and a
//! confirmed ordre becomes exactly one invoice.

use crate::dato::Dato;
use crate::invoice::{InvoiceDraft, InvoiceLineDraft};
use crate::tekst::{desimal, heltall_tekst, like, opt_syn, kopi_valg, sammen};
use vstd::prelude::*;
use vstd::string::*;

pub use crate::invoice_template::TemplateLineDraft as SalgsLineDraft;

verus! {

/// A tilbud or an ordre as listed.
#[derive(Clone, Debug)]
pub struct SalgsdokumentRow {
    pub id: u128,
    pub kind: String,
    pub doc_no: i64,
    pub party_no: String,
    pub party_name: String,
    pub doc_date: Dato,
    pub status: String,
    pub netto_ore: i64,
    pub tilbud_no: Option<i64>,
    pub invoice_no: Option<i64>,
}

/// Why a step in the chain is refused.
#[derive(Clone, Copy, Debug, PartialEq, Eq, Structural)]
pub enum SalgsFeil {
    /// The kind is neither tilbud nor ordre.
    UkjentType,
    /// A document needs at least one line.
    IngenLinjer,
    /// The tilbud is accepted or rejected and can no longer change.
    IkkeRedigerbar,
    /// The new status is not sendt, akseptert or avslatt.
    UkjentStatus,
    /// The status cannot move from where it is to the new one.
    UlovligOvergang,
    /// Only an accepted tilbud becomes an ordre.
    IkkeAkseptert,
    /// The ordre is already invoiced.
    AlleredeFakturert,
}

/// A tilbud can be changed while it is a draft or sent.
pub open spec fn redigerbar(status: Seq<char>) -> bool {
    status == "utkast"@ || status == "sendt"@
}

/// Whether a tilbud with this status may still be edited.
pub fn tilbud_editable(status: &str) -> (r: bool)
    ensures
        r == redigerbar(status@),
{
    like(status, "utkast") || like(status, "sendt")
}

/// The status a new document starts in: a tilbud is a draft, a direct
/// ordre is confirmed.
pub open spec fn startstatus(kind: Seq<char>) -> Seq<char> {
    if kind == "tilbud"@ { "utkast"@ } else { "bekreftet"@ }
}

/// A new document: a tilbud or an ordre, with at least one line; the
/// result is the status it starts in.
pub fn ny_salgsdokument(kind: &str, antall_linjer: usize) -> (r: Result<String, SalgsFeil>)
    ensures
        !(kind@ == "tilbud"@ || kind@ == "ordre"@) ==> r == Err::<String, SalgsFeil>(SalgsFeil::UkjentType),
        (kind@ == "tilbud"@ || kind@ == "ordre"@) && antall_linjer == 0 ==> r == Err::<String, SalgsFeil>(
            SalgsFeil::IngenLinjer,
        ),
        r is Ok <==> (kind@ == "tilbud"@ || kind@ == "ordre"@) && antall_linjer > 0,
        r matches Ok(s) ==> s@ == startstatus(kind@),
{
    let tilbud = like(kind, "tilbud");
    if !tilbud && !like(kind, "ordre") {
        return Err(SalgsFeil::UkjentType);
    }
    if antall_linjer == 0 {
        return Err(SalgsFeil::IngenLinjer);
    }
    if tilbud {
        Ok(String::from_str("utkast"))
    } else {
        Ok(String::from_str("bekreftet"))
    }
}

/// A change of a tilbud: it must still be editable, and new lines, when
/// given, must not be empty. `nye_linjer` is the number of new lines.
pub fn sjekk_tilbudsendring(status: &str, nye_linjer: Option<usize>) -> (r: Result<(), SalgsFeil>)
    ensures
        !redigerbar(status@) ==> r == Err::<(), SalgsFeil>(SalgsFeil::IkkeRedigerbar),
        redigerbar(status@) ==> r == (if nye_linjer == Some(0usize) {
            Err(SalgsFeil::IngenLinjer)
        } else {
            Ok(())
        }),
{
    if !tilbud_editable(status) {
        return Err(SalgsFeil::IkkeRedigerbar);
    }
    match nye_linjer {
        Some(n) => if n == 0 {
            Err(SalgsFeil::IngenLinjer)
        } else {
            Ok(())
        },
        None => Ok(()),
    }
}

/// A status a tilbud can be set to.
pub open spec fn ny_tilbudsstatus(s: Seq<char>) -> bool {
    s == "sendt"@ || s == "akseptert"@ || s == "avslatt"@
}

/// Which moves are allowed: utkast → sendt, and utkast or sendt →
/// akseptert or avslatt.
pub open spec fn lovlig_overgang(fra: Seq<char>, til: Seq<char>) -> bool {
    if til == "sendt"@ {
        fra == "utkast"@
    } else if til == "akseptert"@ || til == "avslatt"@ {
        redigerbar(fra)
    } else {
        false
    }
}

/// Setting a tilbud's status: the new status must be one a tilbud can be
/// set to, and the move must be allowed from where it is.
pub fn tilbudsovergang(fra: &str, til: &str) -> (r: Result<(), SalgsFeil>)
    ensures
        !ny_tilbudsstatus(til@) ==> r == Err::<(), SalgsFeil>(SalgsFeil::UkjentStatus),
        ny_tilbudsstatus(til@) ==> r == (if lovlig_overgang(fra@, til@) {
            Ok(())
        } else {
            Err(SalgsFeil::UlovligOvergang)
        }),
{
    let sendt = like(til, "sendt");
    let avgjort = like(til, "akseptert") || like(til, "avslatt");
    if !sendt && !avgjort {
        return Err(SalgsFeil::UkjentStatus);
    }
    let lovlig = if sendt {
        like(fra, "utkast")
    } else {
        tilbud_editable(fra)
    };
    if lovlig {
        Ok(())
    } else {
        Err(SalgsFeil::UlovligOvergang)
    }
}

/// How far along a tilbud is: 0 for a draft, 1 when sent, 2 when
/// decided.
pub open spec fn trinn(status: Seq<char>) -> int {
    if status == "utkast"@ { 0 } else if status == "sendt"@ { 1 } else { 2 }
}

/// A tilbud's status only moves forward: every allowed move goes to a
/// later step, so no status is ever reached twice.
pub proof fn lov_tilbud_gaar_bare_fremover(fra: Seq<char>, til: Seq<char>)
    requires
        lovlig_overgang(fra, til),
    ensures
        trinn(til) > trinn(fra),
        !lovlig_overgang(til, fra),
{
    reveal_strlit("utkast");
    reveal_strlit("sendt");
    reveal_strlit("akseptert");
    reveal_strlit("avslatt");
    assert("utkast"@.len() == 6 && "sendt"@.len() == 5);
    assert("akseptert"@.len() == 9 && "avslatt"@.len() == 7);
    assert("utkast"@ != "sendt"@ && "utkast"@ != "akseptert"@ && "utkast"@ != "avslatt"@);
    assert("sendt"@ != "akseptert"@ && "sendt"@ != "avslatt"@ && "akseptert"@ != "avslatt"@);
}

/// An accepted or rejected tilbud never moves again.
pub proof fn lov_avgjort_tilbud_staar_fast(fra: Seq<char>, til: Seq<char>)
    requires
        !redigerbar(fra),
    ensures
        !lovlig_overgang(fra, til),
{
}

/// Only an accepted tilbud becomes an ordre.
pub fn sjekk_til_ordre(status: &str) -> (r: Result<(), SalgsFeil>)
    ensures
        r is Ok <==> status@ == "akseptert"@,
        r matches Err(e) ==> e == SalgsFeil::IkkeAkseptert,
{
    if like(status, "akseptert") {
        Ok(())
    } else {
        Err(SalgsFeil::IkkeAkseptert)
    }
}

/// Only a confirmed ordre is invoiced, and it needs lines.
pub fn sjekk_til_faktura(status: &str, antall_linjer: usize) -> (r: Result<(), SalgsFeil>)
    ensures
        status@ != "bekreftet"@ ==> r == Err::<(), SalgsFeil>(SalgsFeil::AlleredeFakturert),
        status@ == "bekreftet"@ ==> r == (if antall_linjer == 0 {
            Err(SalgsFeil::IngenLinjer)
        } else {
            Ok(())
        }),
{
    if !like(status, "bekreftet") {
        return Err(SalgsFeil::AlleredeFakturert);
    }
    if antall_linjer == 0 {
        Err(SalgsFeil::IngenLinjer)
    } else {
        Ok(())
    }
}

/// An invoice line is the ordre line taken over unchanged.
pub open spec fn overtatt_linje(l: InvoiceLineDraft, s: SalgsLineDraft) -> bool {
    &&& l.description@ == s.description@
    &&& l.account_number@ == s.account_number@
    &&& l.quantity_milli == s.quantity_milli
    &&& l.unit_price_ore == s.unit_price_ore
    &&& opt_syn(l.vat_code) == opt_syn(s.vat_code)
    &&& opt_syn(l.avdeling) == opt_syn(s.avdeling)
    &&& opt_syn(l.prosjekt) == opt_syn(s.prosjekt)
    &&& l.product_id is None
}

/// The invoice a confirmed ordre becomes: the customer, the dates, the
/// GL journal with receivable 1500 and output VAT 2700, delivered on the
/// invoice date, in NOK, with the ordre's lines in order.
pub fn ordrefaktura(party_no: &str, invoice_date: Dato, due_date: Dato, linjer: &Vec<SalgsLineDraft>) -> (r: InvoiceDraft)
    ensures
        r.party_no@ == party_no@,
        r.invoice_date == invoice_date,
        r.due_date == due_date,
        r.delivery_date == invoice_date,
        r.delivery_place is None,
        r.kontant_betalingsmiddel is None,
        r.journal_code@ == "GL"@,
        r.receivable_account@ == "1500"@,
        r.vat_account@ == "2700"@,
        r.valuta is None,
        r.valuta_kurs_micro is None,
        r.lines@.len() == linjer@.len(),
        forall|i: int| 0 <= i < linjer@.len() ==> overtatt_linje(#[trigger] r.lines@[i], linjer@[i]),
{
    let mut lines: Vec<InvoiceLineDraft> = Vec::new();
    let mut i: usize = 0;
    while i < linjer.len()
        invariant
            i <= linjer@.len(),
            lines@.len() == i,
            forall|k: int| 0 <= k < i ==> overtatt_linje(#[trigger] lines@[k], linjer@[k]),
        decreases linjer@.len() - i,
    {
        let t = &linjer[i];
        lines.push(InvoiceLineDraft {
            description: t.description.clone(),
            account_number: t.account_number.clone(),
            quantity_milli: t.quantity_milli,
            unit_price_ore: t.unit_price_ore,
            vat_code: kopi_valg(&t.vat_code),
            avdeling: kopi_valg(&t.avdeling),
            prosjekt: kopi_valg(&t.prosjekt),
            product_id: None,
        });
        i = i + 1;
    }
    InvoiceDraft {
        kontant_betalingsmiddel: None,
        party_no: String::from_str(party_no),
        invoice_date,
        due_date,
        delivery_date: invoice_date,
        delivery_place: None,
        journal_code: String::from_str("GL"),
        receivable_account: String::from_str("1500"),
        vat_account: String::from_str("2700"),
        valuta: None,
        valuta_kurs_micro: None,
        lines,
    }
}

/// The kind of document a tilbud or ordre prints as.
#[derive(Clone, Copy, Debug, PartialEq, Eq, Structural)]
pub enum Dokumenttype {
    Tilbud,
    Ordrebekreftelse,
}

/// A tilbud prints as a tilbud, anything else as an ordrebekreftelse.
pub fn dokumenttype(kind: &str) -> (r: Dokumenttype)
    ensures
        r == (if kind@ == "tilbud"@ { Dokumenttype::Tilbud } else { Dokumenttype::Ordrebekreftelse }),
{
    if like(kind, "tilbud") {
        Dokumenttype::Tilbud
    } else {
        Dokumenttype::Ordrebekreftelse
    }
}

/// The seller is in the Foretaksregisteret when it is an AS or an ASA.
pub fn foretaksregistrert(orgform: &Option<String>) -> (r: bool)
    ensures
        r == (match orgform {
            Some(f) => f@ == "AS"@ || f@ == "ASA"@,
            None => false,
        }),
{
    match orgform {
        Some(f) => like(f.as_str(), "AS") || like(f.as_str(), "ASA"),
        None => false,
    }
}

/// The file name of a printed document: kind, '-', number, ".pdf".
pub fn pdf_filnavn(kind: &str, doc_no: i64) -> (r: String)
    ensures
        r@ == kind@ + seq!['-'] + desimal(doc_no as int) + ".pdf"@,
{
    let nr = heltall_tekst(doc_no);
    let mut s = sammen(kind, '-', nr.as_str());
    s.append(".pdf");
    s
}

} // verus!
