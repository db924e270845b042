//! Invoicing rules: what an invoice must have before it is issued, the
//! posting of an invoice in a foreign currency, kreditnotaer and
//! kontantfakturaer.

use crate::bilag::{EntryDraft, Valutainfo, VoucherDraft, balansert, sum_linjer, lemma_sum_push};
use crate::dato::Dato;
use crate::tekst::{er_blank, heltall_tekst, desimal, trim, trimmet};
use vstd::prelude::*;
use vstd::string::*;

verus! {

/// A line of an invoice draft.
#[derive(Clone, Debug)]
pub struct InvoiceLineDraft {
    pub description: String,
    pub account_number: String,
    /// Thousandths of a unit.
    pub quantity_milli: i64,
    pub unit_price_ore: i64,
    pub vat_code: Option<String>,
    pub avdeling: Option<String>,
    pub prosjekt: Option<String>,
    pub product_id: Option<u128>,
}

/// An invoice to be issued.
#[derive(Clone, Debug)]
pub struct InvoiceDraft {
    /// Set for a kontantfaktura: what the sale was settled with.
    pub kontant_betalingsmiddel: Option<String>,
    pub party_no: String,
    pub invoice_date: Dato,
    pub due_date: Dato,
    pub delivery_date: Dato,
    pub delivery_place: Option<String>,
    pub journal_code: String,
    pub receivable_account: String,
    pub vat_account: String,
    /// Document currency; `None` is NOK.
    pub valuta: Option<String>,
    pub valuta_kurs_micro: Option<i64>,
    pub lines: Vec<InvoiceLineDraft>,
}

/// How a line's VAT rate resolved on the invoice date.
#[derive(Clone, Copy, Debug, PartialEq, Eq, Structural)]
pub enum SatsOppslag {
    /// The line has no VAT code: rate 0.
    UtenKode,
    /// The code is not in the VAT code table.
    UkjentKode,
    /// The code's rate class has no rate on the invoice date.
    IngenSats,
    /// The rate, in basis points.
    Sats(i64),
}

/// The customer as looked up by number.
#[derive(Clone, Debug)]
pub struct Kunde {
    pub kind: String,
    pub address: Option<String>,
}

/// Why an invoice is not issued.
#[derive(Clone, Debug, PartialEq, Eq)]
pub enum FakturaFeil {
    IngenLinjer,
    UkjentPart,
    IkkeKunde,
    /// The company has no address (bokføringsforskriften §5-1-2).
    SelskapUtenAdresse,
    /// The customer has no address.
    KundeUtenAdresse,
    /// Line `linje` (1-based) has a VAT code that does not exist.
    UkjentMvaKode { linje: usize },
    /// Line `linje` has no rate on the invoice date.
    IngenSats { linje: usize },
    /// Line `linje` has an empty description.
    TomBeskrivelse { linje: usize },
    /// A (non-credit) invoice must have a positive total.
    IkkePositiv,
    /// A kontantfaktura must say what it was settled with.
    UtenBetalingsmiddel,
}

/// Filled in: present and not blank.
pub open spec fn utfylt(v: Option<String>) -> bool {
    v matches Some(s) && trimmet(s@).len() > 0
}

/// The first of the first `n` lines whose rate or description fails, as
/// the error it gives; `None` when all pass.
pub open spec fn linjefeil(linjer: Seq<InvoiceLineDraft>, satser: Seq<SatsOppslag>, n: int) -> Option<FakturaFeil>
    decreases n,
{
    if n <= 0 {
        None
    } else {
        match linjefeil(linjer, satser, n - 1) {
            Some(e) => Some(e),
            None => if satser[n - 1] == SatsOppslag::UkjentKode {
                Some(FakturaFeil::UkjentMvaKode { linje: n as usize })
            } else if satser[n - 1] == SatsOppslag::IngenSats {
                Some(FakturaFeil::IngenSats { linje: n as usize })
            } else if linjer[n - 1].description@.len() == 0 {
                Some(FakturaFeil::TomBeskrivelse { linje: n as usize })
            } else {
                None
            },
        }
    }
}

/// The rate a resolved line carries (0 without a code).
pub open spec fn sats_av(s: SatsOppslag) -> int {
    match s {
        SatsOppslag::Sats(bp) => bp as int,
        _ => 0,
    }
}

/// Law: when no line fails, every line has a description and a VAT code
/// that resolved (to a rate, or to no code at all); any line with an
/// unknown code, a code without a rate on the date, or no description
/// makes some line fail.
pub proof fn lov_godtatte_fakturalinjer(linjer: Seq<InvoiceLineDraft>, satser: Seq<SatsOppslag>, n: int)
    requires
        0 <= n <= linjer.len(),
        n <= satser.len(),
    ensures
        linjefeil(linjer, satser, n) is None <==> forall|i: int| 0 <= i < n ==> {
            &&& (#[trigger] linjer[i]).description@.len() > 0
            &&& (satser[i] is UtenKode || satser[i] is Sats)
        },
    decreases n,
{
    if n > 0 {
        lov_godtatte_fakturalinjer(linjer, satser, n - 1);
        if linjefeil(linjer, satser, n) is None {
            assert forall|i: int| 0 <= i < n implies {
                &&& (#[trigger] linjer[i]).description@.len() > 0
                &&& (satser[i] is UtenKode || satser[i] is Sats)
            } by {
                if i < n - 1 {
                    assert(linjefeil(linjer, satser, n - 1) is None);
                }
            }
        } else if linjefeil(linjer, satser, n - 1) is None {
            let i = n - 1;
            assert(!((linjer[i]).description@.len() > 0 && (satser[i] is UtenKode || satser[i] is Sats)));
        }
    }
}

/// The checks an invoice passes before anything is written, in order:
/// it has lines; the party exists and is a customer; company and
/// customer have an address; every line's VAT code resolves to a rate on
/// the invoice date and its description is not empty. `satser[i]` is how
/// line `i`'s rate resolved. On success, the rate of each line.
pub fn sjekk_faktura(
    draft: &InvoiceDraft,
    kunde: &Option<Kunde>,
    selskap_adresse: &Option<String>,
    satser: &Vec<SatsOppslag>,
) -> (r: Result<Vec<i64>, FakturaFeil>)
    requires
        satser@.len() == draft.lines@.len(),
    ensures
        draft.lines@.len() == 0 ==> r == Err::<Vec<i64>, FakturaFeil>(FakturaFeil::IngenLinjer),
        draft.lines@.len() > 0 ==> match kunde {
            None => r == Err::<Vec<i64>, FakturaFeil>(FakturaFeil::UkjentPart),
            Some(k) => if k.kind@ != "kunde"@ {
                r == Err::<Vec<i64>, FakturaFeil>(FakturaFeil::IkkeKunde)
            } else if !utfylt(*selskap_adresse) {
                r == Err::<Vec<i64>, FakturaFeil>(FakturaFeil::SelskapUtenAdresse)
            } else if !utfylt(k.address) {
                r == Err::<Vec<i64>, FakturaFeil>(FakturaFeil::KundeUtenAdresse)
            } else {
                match linjefeil(draft.lines@, satser@, draft.lines@.len() as int) {
                    Some(e) => r == Err::<Vec<i64>, FakturaFeil>(e),
                    None => r matches Ok(v) && v@.len() == satser@.len() && forall|i: int|
                        0 <= i < v@.len() ==> #[trigger] v@[i] == sats_av(satser@[i]),
                }
            },
        },
{
    if draft.lines.len() == 0 {
        return Err(FakturaFeil::IngenLinjer);
    }
    let k = match kunde {
        None => {
            return Err(FakturaFeil::UkjentPart);
        },
        Some(k) => k,
    };
    if !crate::tekst::like(k.kind.as_str(), "kunde") {
        return Err(FakturaFeil::IkkeKunde);
    }
    let selskap_ok = match selskap_adresse {
        Some(a) => !er_blank(a.as_str()),
        None => false,
    };
    if !selskap_ok {
        return Err(FakturaFeil::SelskapUtenAdresse);
    }
    let kunde_ok = match &k.address {
        Some(a) => !er_blank(a.as_str()),
        None => false,
    };
    if !kunde_ok {
        return Err(FakturaFeil::KundeUtenAdresse);
    }
    let mut v: Vec<i64> = Vec::new();
    let mut i: usize = 0;
    while i < draft.lines.len()
        invariant
            satser@.len() == draft.lines@.len(),
            draft.lines@.len() > 0,
            kunde matches Some(kk) && kk.kind@ == "kunde"@ && utfylt(kk.address),
            utfylt(*selskap_adresse),
            i <= draft.lines@.len(),
            linjefeil(draft.lines@, satser@, i as int) is None,
            v@.len() == i,
            forall|j: int| 0 <= j < i ==> #[trigger] v@[j] == sats_av(satser@[j]),
        decreases draft.lines@.len() - i,
    {
        let s = satser[i];
        assert(linjefeil(draft.lines@, satser@, i + 1) == (if satser@[i as int] == SatsOppslag::UkjentKode {
            Some(FakturaFeil::UkjentMvaKode { linje: (i + 1) as usize })
        } else if satser@[i as int] == SatsOppslag::IngenSats {
            Some(FakturaFeil::IngenSats { linje: (i + 1) as usize })
        } else if draft.lines@[i as int].description@.len() == 0 {
            Some(FakturaFeil::TomBeskrivelse { linje: (i + 1) as usize })
        } else {
            None
        }));
        match s {
            SatsOppslag::UkjentKode => {
                proof {
                    lemma_linjefeil_stabil(draft.lines@, satser@, i + 1, draft.lines@.len() as int);
                }
                return Err(FakturaFeil::UkjentMvaKode { linje: i + 1 });
            },
            SatsOppslag::IngenSats => {
                proof {
                    lemma_linjefeil_stabil(draft.lines@, satser@, i + 1, draft.lines@.len() as int);
                }
                return Err(FakturaFeil::IngenSats { linje: i + 1 });
            },
            _ => {},
        }
        if draft.lines[i].description.unicode_len() == 0 {
            proof {
                lemma_linjefeil_stabil(draft.lines@, satser@, i + 1, draft.lines@.len() as int);
            }
            return Err(FakturaFeil::TomBeskrivelse { linje: i + 1 });
        }
        let bp = match s {
            SatsOppslag::Sats(bp) => bp,
            _ => 0,
        };
        v.push(bp);
        i = i + 1;
    }
    Ok(v)
}

proof fn lemma_linjefeil_stabil(linjer: Seq<InvoiceLineDraft>, satser: Seq<SatsOppslag>, m: int, n: int)
    requires
        0 <= m <= n,
        linjefeil(linjer, satser, m) is Some,
    ensures
        linjefeil(linjer, satser, n) == linjefeil(linjer, satser, m),
    decreases n - m,
{
    if n > m {
        lemma_linjefeil_stabil(linjer, satser, m, n - 1);
    }
}

/// A non-credit invoice must total more than zero; a kreditnota may not.
pub fn sjekk_brutto(kreditnota: bool, gross_ore: i64) -> (r: Result<(), FakturaFeil>)
    ensures
        r is Ok <==> (kreditnota || gross_ore > 0),
        r matches Err(e) ==> e == FakturaFeil::IkkePositiv,
{
    if !kreditnota && gross_ore <= 0 {
        Err(FakturaFeil::IkkePositiv)
    } else {
        Ok(())
    }
}

/// The kind of sales document.
#[derive(Clone, Copy, Debug, PartialEq, Eq, Structural)]
pub enum Dokumenttype {
    Faktura,
    Kreditnota,
    Kontantfaktura,
}

/// A kreditnota when it credits an invoice, else a kontantfaktura when it
/// names a means of payment, else a faktura.
pub fn dokumenttype(kreditnota: bool, kontant: bool) -> (r: Dokumenttype)
    ensures
        r == (if kreditnota {
            Dokumenttype::Kreditnota
        } else if kontant {
            Dokumenttype::Kontantfaktura
        } else {
            Dokumenttype::Faktura
        }),
{
    if kreditnota {
        Dokumenttype::Kreditnota
    } else if kontant {
        Dokumenttype::Kontantfaktura
    } else {
        Dokumenttype::Faktura
    }
}

/// The file name the sales document is stored under.
pub open spec fn vedleggsnavn_av(kreditnota: bool, invoice_no: int) -> Seq<char> {
    (if kreditnota {
        "kreditnota"@
    } else {
        "faktura"@
    }) + "-"@ + desimal(invoice_no) + ".pdf"@
}

/// "faktura-{nr}.pdf" or "kreditnota-{nr}.pdf".
pub fn vedleggsnavn(kreditnota: bool, invoice_no: i64) -> (r: String)
    ensures
        r@ == vedleggsnavn_av(kreditnota, invoice_no as int),
{
    let mut s = if kreditnota {
        String::from_str("kreditnota")
    } else {
        String::from_str("faktura")
    };
    s.append("-");
    let n = heltall_tekst(invoice_no);
    s.append(n.as_str());
    s.append(".pdf");
    s
}

} // verus!

verus! {

/// A currency amount in minor units (cent) converted to øre at a rate in
/// millionths of NOK per unit, rounded half away from zero.
pub open spec fn nok_av(cent: int, kurs_micro: int) -> int {
    let p = cent * kurs_micro;
    if p >= 0 {
        (p + 500_000) / 1_000_000
    } else {
        -((-p + 500_000) / 1_000_000)
    }
}

/// Law: the conversion is rounded to the nearest øre: the øre amount
/// times a million is within half a million of cent times the rate, and
/// converting the negated amount gives the negated result.
pub proof fn lov_nok_avrunding(cent: int, kurs_micro: int)
    ensures
        nok_av(cent, kurs_micro) * 1_000_000 - 500_000 <= cent * kurs_micro <= nok_av(cent, kurs_micro) * 1_000_000
            + 500_000,
        nok_av(-cent, kurs_micro) == -nok_av(cent, kurs_micro),
{
    let p = cent * kurs_micro;
    assert((-cent) * kurs_micro == -p) by (nonlinear_arith)
        requires
            p == cent * kurs_micro,
    ;
    if p >= 0 {
        let q = (p + 500_000) / 1_000_000;
        assert(q * 1_000_000 <= p + 500_000 < q * 1_000_000 + 1_000_000) by (nonlinear_arith)
            requires
                q == (p + 500_000) / 1_000_000,
                p >= 0,
        ;
    } else {
        let q = (-p + 500_000) / 1_000_000;
        assert(q * 1_000_000 <= -p + 500_000 < q * 1_000_000 + 1_000_000) by (nonlinear_arith)
            requires
                q == (-p + 500_000) / 1_000_000,
                p < 0,
        ;
    }
    if p == 0 {
        assert(nok_av(cent, kurs_micro) == 0);
        assert(nok_av(-cent, kurs_micro) == 0);
    }
}

/// Converts cent to øre at the rate, half away from zero.
pub fn nok_ore(cent: i64, kurs_micro: i64) -> (r: i128)
    ensures
        r == nok_av(cent as int, kurs_micro as int),
{
    assert(-0x4000_0000_0000_0000_0000_0000_0000_0000 <= cent * kurs_micro <= 0x4000_0000_0000_0000_0000_0000_0000_0000) by (nonlinear_arith)
        requires
            -0x8000_0000_0000_0000 <= cent <= 0x7fff_ffff_ffff_ffff,
            -0x8000_0000_0000_0000 <= kurs_micro <= 0x7fff_ffff_ffff_ffff,
    ;
    let p: i128 = (cent as i128) * (kurs_micro as i128);
    if p >= 0 {
        (p + 500_000) / 1_000_000
    } else {
        -((-p + 500_000) / 1_000_000)
    }
}

/// NOK value of the VAT plus the first `n` line nets.
pub open spec fn valuta_brutto(vat: int, netto: Seq<i64>, kurs: int, n: int) -> int
    decreases n,
{
    if n <= 0 {
        nok_av(vat, kurs)
    } else {
        valuta_brutto(vat, netto, kurs, n - 1) + nok_av(netto[n - 1] as int, kurs)
    }
}

/// The amounts of a currency invoice fit the ledger's integers.
pub open spec fn valuta_passer(vat: i64, gross: i64, netto: Seq<i64>, kurs: i64) -> bool {
    &&& vat != i64::MIN
    &&& forall|k: int| 0 <= k < netto.len() ==> #[trigger] netto[k] != i64::MIN
    &&& forall|k: int| 0 <= k < netto.len() ==> -0x7fff_ffff_ffff_ffff <= #[trigger] nok_av(netto[k] as int, kurs as int) <= 0x7fff_ffff_ffff_ffff
    &&& -0x7fff_ffff_ffff_ffff <= nok_av(vat as int, kurs as int) <= 0x7fff_ffff_ffff_ffff
    &&& forall|n: int| 0 <= n <= netto.len() ==> i64::MIN <= #[trigger] valuta_brutto(vat as int, netto, kurs as int, n) <= i64::MAX
}

/// One entry of a currency invoice posting: account, øre, VAT code, text,
/// party, dimensions and the currency amount it arose from.
pub open spec fn valutapost(
    e: EntryDraft,
    konto: Seq<char>,
    belop: int,
    mva: Option<Seq<char>>,
    tekst: Option<Seq<char>>,
    part: Option<Seq<char>>,
    avdeling: Option<Seq<char>>,
    prosjekt: Option<Seq<char>>,
    valuta: Seq<char>,
    cent: int,
    kurs: int,
) -> bool {
    &&& e.account_number@ == konto
    &&& e.amount_ore == belop
    &&& crate::tekst::opt_syn(e.vat_code) == mva
    &&& crate::tekst::opt_syn(e.description) == tekst
    &&& crate::tekst::opt_syn(e.party_no) == part
    &&& crate::tekst::opt_syn(e.avdeling) == avdeling
    &&& crate::tekst::opt_syn(e.prosjekt) == prosjekt
    &&& e.valuta matches Some(v) && v.valuta@ == valuta && v.belop_cent == cent && v.kurs_micro == kurs
}

/// The text of a currency invoice voucher: "Faktura 17 (EUR)".
pub open spec fn valutatekst(kreditnota: bool, invoice_no: int, valuta: Seq<char>) -> Seq<char> {
    (if kreditnota {
        "Kreditnota "@
    } else {
        "Faktura "@
    }) + desimal(invoice_no) + " ("@ + valuta + ")"@
}

/// The posting of an invoice in a foreign currency. Every line net is
/// converted to øre at the same rate; the VAT likewise; the receivable
/// (first line, on the customer) is the exact sum of the converted parts,
/// so the voucher balances by construction. `netto[i]` is line `i`'s net
/// in cent; `vat` and `gross` the invoice's VAT and gross in cent.
/// Returns the voucher and the gross in øre.
pub fn build_valuta_voucher(
    draft: &InvoiceDraft,
    invoice_no: i64,
    credit_note: bool,
    netto: &Vec<i64>,
    vat: i64,
    gross: i64,
    valuta: &str,
    kurs_micro: i64,
) -> (r: (VoucherDraft, i64))
    requires
        netto@.len() == draft.lines@.len(),
        valuta_passer(vat, gross, netto@, kurs_micro),
    ensures
        r.1 == valuta_brutto(vat as int, netto@, kurs_micro as int, netto@.len() as int),
        r.0.journal_code@ == draft.journal_code@,
        r.0.voucher_date == draft.invoice_date,
        r.0.description@ == valutatekst(credit_note, invoice_no as int, valuta@),
        r.0.reverses is None,
        r.0.entries@.len() == netto@.len() + 1 + (if nok_av(vat as int, kurs_micro as int) != 0 { 1int } else { 0int }),
        valutapost(
            r.0.entries@[0],
            draft.receivable_account@,
            r.1 as int,
            None,
            None,
            Some(draft.party_no@),
            None,
            None,
            valuta@,
            gross as int,
            kurs_micro as int,
        ),
        forall|i: int| 0 <= i < netto@.len() ==> #[trigger] valutapost(
            r.0.entries@[i + 1],
            draft.lines@[i].account_number@,
            -nok_av(netto@[i] as int, kurs_micro as int),
            crate::tekst::opt_syn(draft.lines@[i].vat_code),
            Some(draft.lines@[i].description@),
            None,
            crate::tekst::opt_syn(draft.lines@[i].avdeling),
            crate::tekst::opt_syn(draft.lines@[i].prosjekt),
            valuta@,
            -netto@[i],
            kurs_micro as int,
        ),
        nok_av(vat as int, kurs_micro as int) != 0 ==> valutapost(
            r.0.entries@[netto@.len() as int + 1],
            draft.vat_account@,
            -nok_av(vat as int, kurs_micro as int),
            None,
            None,
            None,
            None,
            None,
            valuta@,
            -vat,
            kurs_micro as int,
        ),
        balansert(r.0),
{
    let vat_nok = nok_ore(vat, kurs_micro) as i64;
    let mut gross_nok: i64 = vat_nok;
    let mut linjer: Vec<EntryDraft> = Vec::new();
    let mut i: usize = 0;
    while i < netto.len()
        invariant
            netto@.len() == draft.lines@.len(),
            valuta_passer(vat, gross, netto@, kurs_micro),
            vat_nok == nok_av(vat as int, kurs_micro as int),
            i <= netto@.len(),
            gross_nok == valuta_brutto(vat as int, netto@, kurs_micro as int, i as int),
            linjer@.len() == i,
            sum_linjer(linjer@) == vat_nok - gross_nok,
            forall|k: int| 0 <= k < i ==> #[trigger] valutapost(
                linjer@[k],
                draft.lines@[k].account_number@,
                -nok_av(netto@[k] as int, kurs_micro as int),
                crate::tekst::opt_syn(draft.lines@[k].vat_code),
                Some(draft.lines@[k].description@),
                None,
                crate::tekst::opt_syn(draft.lines@[k].avdeling),
                crate::tekst::opt_syn(draft.lines@[k].prosjekt),
                valuta@,
                -netto@[k],
                kurs_micro as int,
            ),
        decreases netto@.len() - i,
    {
        let l = &draft.lines[i];
        assert(netto@[i as int] != i64::MIN);
        assert(valuta_brutto(vat as int, netto@, kurs_micro as int, i + 1) <= i64::MAX);
        assert(valuta_brutto(vat as int, netto@, kurs_micro as int, i + 1) >= i64::MIN);
        let net_nok = nok_ore(netto[i], kurs_micro) as i64;
        gross_nok = gross_nok + net_nok;
        let e = EntryDraft {
            account_number: l.account_number.clone(),
            amount_ore: -net_nok,
            vat_code: crate::tekst::kopi_valg(&l.vat_code),
            description: Some(l.description.clone()),
            party_no: None,
            avdeling: crate::tekst::kopi_valg(&l.avdeling),
            prosjekt: crate::tekst::kopi_valg(&l.prosjekt),
            valuta: Some(Valutainfo { valuta: String::from_str(valuta), belop_cent: -netto[i], kurs_micro }),
        };
        proof {
            lemma_sum_push(linjer@, e);
        }
        linjer.push(e);
        i = i + 1;
    }
    let ghost foer_mva = linjer@;
    if vat_nok != 0 {
        let e = EntryDraft {
            account_number: draft.vat_account.clone(),
            amount_ore: -vat_nok,
            vat_code: None,
            description: None,
            party_no: None,
            avdeling: None,
            prosjekt: None,
            valuta: Some(Valutainfo { valuta: String::from_str(valuta), belop_cent: -vat, kurs_micro }),
        };
        proof {
            lemma_sum_push(linjer@, e);
        }
        linjer.push(e);
    }
    assert(sum_linjer(linjer@) == -gross_nok);
    let fordring = EntryDraft {
        account_number: draft.receivable_account.clone(),
        amount_ore: gross_nok,
        vat_code: None,
        description: None,
        party_no: Some(draft.party_no.clone()),
        avdeling: None,
        prosjekt: None,
        valuta: Some(Valutainfo { valuta: String::from_str(valuta), belop_cent: gross, kurs_micro }),
    };
    let mut entries: Vec<EntryDraft> = Vec::new();
    entries.push(fordring);
    let ghost start = entries@;
    let mut k: usize = 0;
    while k < linjer.len()
        invariant
            k <= linjer@.len(),
            start.len() == 1,
            start[0] == fordring,
            entries@ == start + linjer@.take(k as int),
        decreases linjer@.len() - k,
    {
        // The lines move over one by one behind the receivable.
        let x = kopi_post(&linjer[k]);
        entries.push(x);
        k = k + 1;
        assert(entries@ =~= start + linjer@.take(k as int));
    }
    assert(linjer@.take(linjer@.len() as int) =~= linjer@);
    proof {
        lemma_sum_foran(fordring, linjer@);
    }
    let mut tekst = if credit_note {
        String::from_str("Kreditnota ")
    } else {
        String::from_str("Faktura ")
    };
    let nr = heltall_tekst(invoice_no);
    tekst.append(nr.as_str());
    tekst.append(" (");
    tekst.append(valuta);
    tekst.append(")");
    let v = VoucherDraft {
        journal_code: draft.journal_code.clone(),
        voucher_date: draft.invoice_date,
        description: tekst,
        reverses: None,
        entries,
    };
    (v, gross_nok)
}

/// A copy of a voucher line.
pub fn kopi_post(e: &EntryDraft) -> (r: EntryDraft)
    ensures
        r == *e,
{
    EntryDraft {
        account_number: e.account_number.clone(),
        amount_ore: e.amount_ore,
        vat_code: crate::tekst::kopi_valg(&e.vat_code),
        description: crate::tekst::kopi_valg(&e.description),
        party_no: crate::tekst::kopi_valg(&e.party_no),
        avdeling: crate::tekst::kopi_valg(&e.avdeling),
        prosjekt: crate::tekst::kopi_valg(&e.prosjekt),
        valuta: match &e.valuta {
            Some(v) => Some(Valutainfo { valuta: v.valuta.clone(), belop_cent: v.belop_cent, kurs_micro: v.kurs_micro }),
            None => None,
        },
    }
}

proof fn lemma_sum_foran(x: EntryDraft, s: Seq<EntryDraft>)
    ensures
        sum_linjer(seq![x] + s) == x.amount_ore + sum_linjer(s),
    decreases s.len(),
{
    if s.len() == 0 {
        assert(seq![x] + s =~= Seq::<EntryDraft>::empty().push(x));
        lemma_sum_push(Seq::<EntryDraft>::empty(), x);
    } else {
        let t = s.drop_last();
        lemma_sum_foran(x, t);
        assert(seq![x] + s =~= (seq![x] + t).push(s.last()));
        assert(s =~= t.push(s.last()));
        lemma_sum_push(seq![x] + t, s.last());
        lemma_sum_push(t, s.last());
    }
}

} // verus!

verus! {

/// What a kreditnota is built from: the original invoice and its lines.
#[derive(Clone, Debug)]
pub struct KreditGrunnlag {
    pub party_no: String,
    pub invoice_date: Dato,
    pub delivery_date: Option<Dato>,
    pub delivery_place: Option<String>,
    pub valuta: Option<String>,
    pub kurs_micro: Option<i64>,
    pub already_credited: bool,
    pub journal_code: String,
    pub receivable_account: String,
    pub lines: Vec<InvoiceLineDraft>,
}

/// Why a kreditnota cannot be made.
#[derive(Clone, Debug, PartialEq, Eq)]
pub enum KreditFeil {
    AlleredeKreditert,
    IngenLinjer,
}

/// A kreditnota line: the original line with the quantity negated.
pub open spec fn kreditlinje(o: InvoiceLineDraft, k: InvoiceLineDraft) -> bool {
    &&& k.description@ == o.description@
    &&& k.account_number@ == o.account_number@
    &&& k.quantity_milli == -o.quantity_milli
    &&& k.unit_price_ore == o.unit_price_ore
    &&& crate::tekst::opt_syn(k.vat_code) == crate::tekst::opt_syn(o.vat_code)
    &&& crate::tekst::opt_syn(k.avdeling) == crate::tekst::opt_syn(o.avdeling)
    &&& crate::tekst::opt_syn(k.prosjekt) == crate::tekst::opt_syn(o.prosjekt)
    &&& k.product_id == o.product_id
}

/// Law: a kreditnota line cancels the line it credits: the quantities
/// sum to zero at the same unit price, so the two lines' net amounts
/// (quantity times unit price) sum to zero.
pub proof fn lov_kreditlinje_opphever(o: InvoiceLineDraft, k: InvoiceLineDraft)
    requires
        kreditlinje(o, k),
    ensures
        k.quantity_milli + o.quantity_milli == 0,
        k.unit_price_ore == o.unit_price_ore,
        k.quantity_milli * k.unit_price_ore + o.quantity_milli * o.unit_price_ore == 0,
{
    assert(k.quantity_milli * k.unit_price_ore + o.quantity_milli * o.unit_price_ore == 0) by (nonlinear_arith)
        requires
            k.quantity_milli == -o.quantity_milli,
            k.unit_price_ore == o.unit_price_ore,
    ;
}

/// The full kreditnota for an invoice, dated `idag`: same customer,
/// journal and receivable account, the original's delivery date (or its
/// invoice date when none was recorded), the original's currency and
/// rate, and every line with its quantity negated.
pub fn kreditnota_utkast(o: &KreditGrunnlag, idag: Dato) -> (r: Result<InvoiceDraft, KreditFeil>)
    requires
        forall|i: int| 0 <= i < o.lines@.len() ==> #[trigger] o.lines@[i].quantity_milli != i64::MIN,
    ensures
        o.already_credited ==> r == Err::<InvoiceDraft, KreditFeil>(KreditFeil::AlleredeKreditert),
        !o.already_credited && o.lines@.len() == 0 ==> r == Err::<InvoiceDraft, KreditFeil>(KreditFeil::IngenLinjer),
        !o.already_credited && o.lines@.len() > 0 ==> (r matches Ok(d) && {
            &&& d.kontant_betalingsmiddel is None
            &&& d.party_no@ == o.party_no@
            &&& d.invoice_date == idag
            &&& d.due_date == idag
            &&& d.delivery_date == (match o.delivery_date {
                Some(x) => x,
                None => o.invoice_date,
            })
            &&& crate::tekst::opt_syn(d.delivery_place) == crate::tekst::opt_syn(o.delivery_place)
            &&& d.journal_code@ == o.journal_code@
            &&& d.receivable_account@ == o.receivable_account@
            &&& d.vat_account@ == "2700"@
            &&& crate::tekst::opt_syn(d.valuta) == crate::tekst::opt_syn(o.valuta)
            &&& d.valuta_kurs_micro == o.kurs_micro
            &&& d.lines@.len() == o.lines@.len()
            &&& forall|i: int| 0 <= i < o.lines@.len() ==> #[trigger] kreditlinje(o.lines@[i], d.lines@[i])
            &&& forall|i: int|
                0 <= i < o.lines@.len() ==> (#[trigger] d.lines@[i]).quantity_milli + o.lines@[i].quantity_milli == 0
                    && d.lines@[i].unit_price_ore == o.lines@[i].unit_price_ore
        }),
{
    if o.already_credited {
        return Err(KreditFeil::AlleredeKreditert);
    }
    if o.lines.len() == 0 {
        return Err(KreditFeil::IngenLinjer);
    }
    let mut lines: Vec<InvoiceLineDraft> = Vec::new();
    let mut i: usize = 0;
    while i < o.lines.len()
        invariant
            i <= o.lines@.len(),
            forall|k: int| 0 <= k < o.lines@.len() ==> #[trigger] o.lines@[k].quantity_milli != i64::MIN,
            lines@.len() == i,
            forall|k: int| 0 <= k < i ==> #[trigger] kreditlinje(o.lines@[k], lines@[k]),
        decreases o.lines@.len() - i,
    {
        let l = &o.lines[i];
        assert(o.lines@[i as int].quantity_milli != i64::MIN);
        lines.push(InvoiceLineDraft {
            description: l.description.clone(),
            account_number: l.account_number.clone(),
            quantity_milli: -l.quantity_milli,
            unit_price_ore: l.unit_price_ore,
            vat_code: crate::tekst::kopi_valg(&l.vat_code),
            avdeling: crate::tekst::kopi_valg(&l.avdeling),
            prosjekt: crate::tekst::kopi_valg(&l.prosjekt),
            product_id: l.product_id,
        });
        i = i + 1;
    }
    proof {
        assert forall|k: int| 0 <= k < o.lines@.len() implies (#[trigger] lines@[k]).quantity_milli
            + o.lines@[k].quantity_milli == 0 && lines@[k].unit_price_ore == o.lines@[k].unit_price_ore by {
            lov_kreditlinje_opphever(o.lines@[k], lines@[k]);
        }
    }
    Ok(InvoiceDraft {
        kontant_betalingsmiddel: None,
        party_no: o.party_no.clone(),
        invoice_date: idag,
        due_date: idag,
        delivery_date: match o.delivery_date {
            Some(x) => x,
            None => o.invoice_date,
        },
        delivery_place: crate::tekst::kopi_valg(&o.delivery_place),
        journal_code: o.journal_code.clone(),
        receivable_account: o.receivable_account.clone(),
        vat_account: String::from_str("2700"),
        valuta: crate::tekst::kopi_valg(&o.valuta),
        valuta_kurs_micro: o.kurs_micro,
        lines,
    })
}

/// How much of the original's open remainder the kreditnota closes: the
/// smaller of what remains and the credit's size (`-credit_gross`);
/// `None` when that is not positive, and nothing is matched.
pub fn krediterbart(remaining: i64, credit_gross: i64) -> (r: Option<i64>)
    requires
        credit_gross != i64::MIN,
    ensures
        ({
            let m = if remaining <= -credit_gross { remaining as int } else { -credit_gross };
            if m > 0 {
                r == Some(m as i64)
            } else {
                r is None
            }
        }),
{
    let m = if remaining <= -credit_gross {
        remaining
    } else {
        -credit_gross
    };
    if m > 0 {
        Some(m)
    } else {
        None
    }
}

/// The remainder the original invoice still has open among the
/// customer's items (0 when it is not there).
pub fn aapent_for(items: &Vec<crate::reskontro::PartyItem>, entry_id: u128) -> (r: i64)
    ensures
        r == (match crate::reskontro::rest_av(items@, entry_id) {
            Some(x) => x,
            None => 0,
        }),
{
    match crate::reskontro::rest_for(items, entry_id) {
        Some(x) => x,
        None => 0,
    }
}

/// The settlement voucher of a kontantfaktura: the money landed on
/// `oppgjorskonto`, and the customer's receivable is closed with the
/// customer on the line.
pub open spec fn oppgjorsbilag_av(
    d: InvoiceDraft,
    invoice_no: int,
    party_no: Seq<char>,
    gross: int,
    oppgjorskonto: Seq<char>,
    betalingsmiddel: Seq<char>,
    v: VoucherDraft,
) -> bool {
    &&& v.journal_code@ == d.journal_code@
    &&& v.voucher_date == d.invoice_date
    &&& v.description@ == "Kontantsalg, oppgjør faktura "@ + desimal(invoice_no) + " ("@ + betalingsmiddel + ")"@
    &&& v.reverses is None
    &&& v.entries@.len() == 2
    &&& v.entries@[0].account_number@ == oppgjorskonto
    &&& v.entries@[0].amount_ore == gross
    &&& crate::tekst::opt_syn(v.entries@[0].description) == Some(trimmet(betalingsmiddel))
    &&& v.entries@[0].party_no is None
    &&& v.entries@[0].vat_code is None
    &&& v.entries@[1].account_number@ == d.receivable_account@
    &&& v.entries@[1].amount_ore == -gross
    &&& crate::tekst::opt_syn(v.entries@[1].party_no) == Some(party_no)
    &&& v.entries@[1].description is None
    &&& v.entries@[1].vat_code is None
}

/// A copy of an invoice line.
pub fn kopi_fakturalinje(l: &InvoiceLineDraft) -> (r: InvoiceLineDraft)
    ensures
        r == *l,
{
    InvoiceLineDraft {
        description: l.description.clone(),
        account_number: l.account_number.clone(),
        quantity_milli: l.quantity_milli,
        unit_price_ore: l.unit_price_ore,
        vat_code: crate::tekst::kopi_valg(&l.vat_code),
        avdeling: crate::tekst::kopi_valg(&l.avdeling),
        prosjekt: crate::tekst::kopi_valg(&l.prosjekt),
        product_id: l.product_id,
    }
}

/// A kontantfaktura must say what it was settled with; the draft is
/// the given one unchanged but for the trimmed means of payment.
pub fn kontant_utkast(d: &InvoiceDraft, betalingsmiddel: &str) -> (r: Result<InvoiceDraft, FakturaFeil>)
    ensures
        trimmet(betalingsmiddel@).len() == 0 ==> r == Err::<InvoiceDraft, FakturaFeil>(FakturaFeil::UtenBetalingsmiddel),
        trimmet(betalingsmiddel@).len() > 0 ==> (r matches Ok(k) && crate::tekst::opt_syn(k.kontant_betalingsmiddel)
            == Some(trimmet(betalingsmiddel@)) && k == (InvoiceDraft { kontant_betalingsmiddel: k.kontant_betalingsmiddel, lines: k.lines, ..*d })
            && k.lines@ == d.lines@),
{
    if er_blank(betalingsmiddel) {
        return Err(FakturaFeil::UtenBetalingsmiddel);
    }
    let mut lines: Vec<InvoiceLineDraft> = Vec::new();
    let mut i: usize = 0;
    while i < d.lines.len()
        invariant
            i <= d.lines@.len(),
            lines@ == d.lines@.subrange(0, i as int),
        decreases d.lines@.len() - i,
    {
        let l = kopi_fakturalinje(&d.lines[i]);
        lines.push(l);
        i = i + 1;
        assert(lines@ =~= d.lines@.subrange(0, i as int));
    }
    assert(lines@ =~= d.lines@);
    Ok(InvoiceDraft {
        kontant_betalingsmiddel: Some(trim(betalingsmiddel)),
        party_no: d.party_no.clone(),
        invoice_date: d.invoice_date,
        due_date: d.due_date,
        delivery_date: d.delivery_date,
        delivery_place: crate::tekst::kopi_valg(&d.delivery_place),
        journal_code: d.journal_code.clone(),
        receivable_account: d.receivable_account.clone(),
        vat_account: d.vat_account.clone(),
        valuta: crate::tekst::kopi_valg(&d.valuta),
        valuta_kurs_micro: d.valuta_kurs_micro,
        lines,
    })
}

/// The settlement voucher of a kontantfaktura.
pub fn oppgjorsbilag(
    d: &InvoiceDraft,
    invoice_no: i64,
    party_no: &str,
    gross: i64,
    oppgjorskonto: &str,
    betalingsmiddel: &str,
) -> (r: VoucherDraft)
    requires
        gross != i64::MIN,
    ensures
        oppgjorsbilag_av(*d, invoice_no as int, party_no@, gross as int, oppgjorskonto@, betalingsmiddel@, r),
        balansert(r),
{
    let mut tekst = String::from_str("Kontantsalg, oppgjør faktura ");
    let nr = heltall_tekst(invoice_no);
    tekst.append(nr.as_str());
    tekst.append(" (");
    tekst.append(betalingsmiddel);
    tekst.append(")");
    let a = EntryDraft {
        account_number: String::from_str(oppgjorskonto),
        amount_ore: gross,
        vat_code: None,
        description: Some(trim(betalingsmiddel)),
        party_no: None,
        avdeling: None,
        prosjekt: None,
        valuta: None,
    };
    let b = EntryDraft {
        account_number: d.receivable_account.clone(),
        amount_ore: -gross,
        vat_code: None,
        description: None,
        party_no: Some(String::from_str(party_no)),
        avdeling: None,
        prosjekt: None,
        valuta: None,
    };
    proof {
        crate::bilag::lemma_sum_to(a, b);
    }
    VoucherDraft {
        journal_code: d.journal_code.clone(),
        voucher_date: d.invoice_date,
        description: tekst,
        reverses: None,
        entries: vec![a, b],
    }
}

} // verus!
