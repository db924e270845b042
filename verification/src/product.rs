//! Products and simple inventory: document lines copied from the
//! register, which sales move stock, and the stock count with the value
//! adjustment it posts.

use crate::bilag::{VoucherDraft, balansert, enkel_linje};
use crate::dato::{Dato, datotekst, dato_tekst};
use crate::invoice::InvoiceLineDraft;
use crate::tekst::{like, opt_syn};
use vstd::prelude::*;
use vstd::string::*;

verus! {

/// A product to register.
#[derive(Clone, Debug)]
pub struct ProductDraft {
    pub nummer: String,
    pub navn: String,
    pub salgspris_ore: i64,
    pub vat_code: Option<String>,
    pub konto: String,
    pub lagerfort: bool,
}

/// A product in the register.
#[derive(Clone, Debug)]
pub struct ProductRow {
    pub nummer: String,
    pub navn: String,
    pub salgspris_ore: i64,
    pub vat_code: Option<String>,
    pub konto: String,
    pub aktiv: bool,
    pub lagerfort: bool,
}

/// A document line as specified: free text, or a product reference whose
/// register values fill what the caller did not give.
#[derive(Clone, Debug)]
pub struct ProductLineSpec {
    pub produkt: Option<String>,
    pub description: Option<String>,
    pub account: Option<String>,
    pub quantity_milli: i64,
    pub unit_price_ore: Option<i64>,
    pub vat_code: Option<String>,
    pub avdeling: Option<String>,
    pub prosjekt: Option<String>,
}

/// The register values of a referenced product.
#[derive(Clone, Debug)]
pub struct Produktdata {
    pub id: u128,
    pub navn: String,
    pub salgspris_ore: i64,
    pub vat_code: Option<String>,
    pub konto: String,
    pub aktiv: bool,
}

/// Why a product operation is refused.
#[derive(Clone, Debug, PartialEq, Eq)]
pub enum ProduktFeil {
    UkjentProdukt,
    Deaktivert,
    ManglerBeskrivelse,
    ManglerPris,
    IkkeLagerfort,
    UgyldigBevegelse,
    IngenLinjer,
    /// Count line `linje` (0-based) fails.
    Linje { linje: usize, feil: LinjeFeil },
}

/// Why a count line fails.
#[derive(Clone, Copy, Debug, PartialEq, Eq, Structural)]
pub enum LinjeFeil {
    UkjentProdukt,
    IkkeLagerfort,
}

/// A non-empty description, when given.
pub open spec fn ikke_tom(o: Option<String>) -> Option<Seq<char>> {
    match o {
        Some(d) => if d@.len() > 0 { Some(d@) } else { None },
        None => None,
    }
}

/// The document line a spec resolves to. With a product: the product
/// must exist and be active; the caller's description (when not empty),
/// account, price and VAT code win, the register fills the rest, and the
/// line carries the product id. Without: a description and a price are
/// required, the account defaults to 3000.
pub fn resolve_product_line(spec: &ProductLineSpec, produkt: &Option<Produktdata>) -> (r: Result<InvoiceLineDraft, ProduktFeil>)
    ensures
        match spec.produkt {
            Some(_) => match produkt {
                None => r == Err::<InvoiceLineDraft, ProduktFeil>(ProduktFeil::UkjentProdukt),
                Some(p) => if !p.aktiv {
                    r == Err::<InvoiceLineDraft, ProduktFeil>(ProduktFeil::Deaktivert)
                } else {
                    r matches Ok(l) && {
                        &&& l.description@ == (match ikke_tom(spec.description) { Some(d) => d, None => p.navn@ })
                        &&& l.account_number@ == (match spec.account { Some(a) => a@, None => p.konto@ })
                        &&& l.quantity_milli == spec.quantity_milli
                        &&& l.unit_price_ore == (match spec.unit_price_ore { Some(x) => x, None => p.salgspris_ore })
                        &&& opt_syn(l.vat_code) == (match spec.vat_code { Some(v) => Some(v@), None => opt_syn(p.vat_code) })
                        &&& opt_syn(l.avdeling) == opt_syn(spec.avdeling)
                        &&& opt_syn(l.prosjekt) == opt_syn(spec.prosjekt)
                        &&& l.product_id == Some(p.id)
                    }
                },
            },
            None => match ikke_tom(spec.description) {
                None => r == Err::<InvoiceLineDraft, ProduktFeil>(ProduktFeil::ManglerBeskrivelse),
                Some(d) => match spec.unit_price_ore {
                    None => r == Err::<InvoiceLineDraft, ProduktFeil>(ProduktFeil::ManglerPris),
                    Some(pris) => r matches Ok(l) && {
                        &&& l.description@ == d
                        &&& l.account_number@ == (match spec.account { Some(a) => a@, None => "3000"@ })
                        &&& l.quantity_milli == spec.quantity_milli
                        &&& l.unit_price_ore == pris
                        &&& opt_syn(l.vat_code) == opt_syn(spec.vat_code)
                        &&& opt_syn(l.avdeling) == opt_syn(spec.avdeling)
                        &&& opt_syn(l.prosjekt) == opt_syn(spec.prosjekt)
                        &&& l.product_id is None
                    },
                },
            },
        },
{
    let beskrivelse = match &spec.description {
        Some(d) => if d.unicode_len() > 0 {
            Some(d.clone())
        } else {
            None
        },
        None => None,
    };
    match &spec.produkt {
        Some(_) => {
            let p = match produkt {
                None => {
                    return Err(ProduktFeil::UkjentProdukt);
                },
                Some(p) => p,
            };
            if !p.aktiv {
                return Err(ProduktFeil::Deaktivert);
            }
            Ok(InvoiceLineDraft {
                description: match beskrivelse {
                    Some(d) => d,
                    None => p.navn.clone(),
                },
                account_number: match &spec.account {
                    Some(a) => a.clone(),
                    None => p.konto.clone(),
                },
                quantity_milli: spec.quantity_milli,
                unit_price_ore: match spec.unit_price_ore {
                    Some(x) => x,
                    None => p.salgspris_ore,
                },
                vat_code: match &spec.vat_code {
                    Some(v) => Some(v.clone()),
                    None => crate::tekst::kopi_valg(&p.vat_code),
                },
                avdeling: crate::tekst::kopi_valg(&spec.avdeling),
                prosjekt: crate::tekst::kopi_valg(&spec.prosjekt),
                product_id: Some(p.id),
            })
        },
        None => {
            let d = match beskrivelse {
                None => {
                    return Err(ProduktFeil::ManglerBeskrivelse);
                },
                Some(d) => d,
            };
            let pris = match spec.unit_price_ore {
                None => {
                    return Err(ProduktFeil::ManglerPris);
                },
                Some(p) => p,
            };
            Ok(InvoiceLineDraft {
                description: d,
                account_number: match &spec.account {
                    Some(a) => a.clone(),
                    None => String::from_str("3000"),
                },
                quantity_milli: spec.quantity_milli,
                unit_price_ore: pris,
                vat_code: crate::tekst::kopi_valg(&spec.vat_code),
                avdeling: crate::tekst::kopi_valg(&spec.avdeling),
                prosjekt: crate::tekst::kopi_valg(&spec.prosjekt),
                product_id: None,
            })
        },
    }
}

/// An invoice line moves stock when it references a stocked product and
/// has a quantity; the movement is the quantity negated (a credit line
/// returns stock). `lagerfort` is whether the referenced product is
/// stocked.
pub fn salgsbevegelse(line: &InvoiceLineDraft, lagerfort: bool) -> (r: Option<(u128, i64)>)
    requires
        line.quantity_milli != i64::MIN,
    ensures
        match line.product_id {
            Some(p) => if line.quantity_milli != 0 && lagerfort {
                r matches Some((q, m)) && q == p && m == -line.quantity_milli
            } else {
                r is None
            },
            None => r is None,
        },
{
    match line.product_id {
        Some(p) => if line.quantity_milli != 0 && lagerfort {
            Some((p, -line.quantity_milli))
        } else {
            None
        },
        None => None,
    }
}

/// A manual movement is a purchase (`kjop`) or an adjustment
/// (`justering`), of a stocked product.
pub fn sjekk_bevegelse(kind: &str, produkt: Option<bool>) -> (r: Result<(), ProduktFeil>)
    ensures
        !(kind@ == "kjop"@ || kind@ == "justering"@) ==> r == Err::<(), ProduktFeil>(ProduktFeil::UgyldigBevegelse),
        (kind@ == "kjop"@ || kind@ == "justering"@) ==> r == (match produkt {
            None => Err(ProduktFeil::UkjentProdukt),
            Some(l) => if l { Ok(()) } else { Err(ProduktFeil::IkkeLagerfort) },
        }),
{
    if !(like(kind, "kjop") || like(kind, "justering")) {
        return Err(ProduktFeil::UgyldigBevegelse);
    }
    match produkt {
        None => Err(ProduktFeil::UkjentProdukt),
        Some(l) => if l {
            Ok(())
        } else {
            Err(ProduktFeil::IkkeLagerfort)
        },
    }
}

/// A product's stock and value.
#[derive(Clone, Debug)]
pub struct InventoryRow {
    pub nummer: String,
    pub navn: String,
    pub antall_milli: i64,
    pub verdi_ore: i64,
    pub gjennomsnitt_ore: Option<i64>,
}

/// A counted quantity.
#[derive(Clone, Debug)]
pub struct TellingLinje {
    pub nummer: String,
    pub talt_milli: i64,
}

/// The accounts the count's value adjustment is posted on.
#[derive(Clone, Debug)]
pub struct TellingKonti {
    pub journal_code: String,
    pub lager_konto: String,
    pub endring_konto: String,
}

/// A product's booked and counted quantity.
#[derive(Clone, Debug)]
pub struct TellingJustering {
    pub nummer: String,
    pub bokfort_milli: i64,
    pub talt_milli: i64,
}

/// What a count did.
#[derive(Clone, Debug)]
pub struct TellingResult {
    pub justeringer: Vec<TellingJustering>,
    /// Stock value after the count.
    pub verdi_ore: i64,
    /// Booked balance on the stock account before the adjustment (when
    /// posting was asked for).
    pub bokfort_ore: Option<i64>,
    pub voucher: Option<(i32, i64)>,
}

/// A counted line's product as looked up: `None` when there is no such
/// product; else whether it is stocked and its booked quantity.
pub open spec fn tellingsutfall(p: Option<(bool, i64)>, i: int) -> Option<ProduktFeil> {
    match p {
        None => Some(ProduktFeil::Linje { linje: i as usize, feil: LinjeFeil::UkjentProdukt }),
        Some((lagerfort, _)) => if !lagerfort {
            Some(ProduktFeil::Linje { linje: i as usize, feil: LinjeFeil::IkkeLagerfort })
        } else {
            None
        },
    }
}

/// The first failing count line among the first `n`.
pub open spec fn forste_tellingsfeil(p: Seq<Option<(bool, i64)>>, n: int) -> Option<ProduktFeil>
    decreases n,
{
    if n <= 0 {
        None
    } else {
        match forste_tellingsfeil(p, n - 1) {
            Some(e) => Some(e),
            None => tellingsutfall(p[n - 1], n - 1),
        }
    }
}

proof fn lemma_tellingsfeil_stabil(p: Seq<Option<(bool, i64)>>, m: int, n: int)
    requires
        0 <= m <= n,
        forste_tellingsfeil(p, m) is Some,
    ensures
        forste_tellingsfeil(p, n) == forste_tellingsfeil(p, m),
    decreases n - m,
{
    if n > m {
        lemma_tellingsfeil_stabil(p, m, n - 1);
    }
}

/// The count's adjustments: for each line, the booked and counted
/// quantity, and the adjustment movement (counted less booked) when they
/// differ. `produkter[i]` is line `i`'s product as looked up.
pub fn tellingsjusteringer(linjer: &Vec<TellingLinje>, produkter: &Vec<Option<(bool, i64)>>) -> (r: Result<(Vec<TellingJustering>, Vec<Option<i64>>), ProduktFeil>)
    requires
        produkter@.len() == linjer@.len(),
        forall|i: int| 0 <= i < produkter@.len() ==> (#[trigger] produkter@[i] matches Some((_, b)) ==> i64::MIN <= linjer@[i].talt_milli - b <= i64::MAX),
    ensures
        linjer@.len() == 0 ==> r == Err::<(Vec<TellingJustering>, Vec<Option<i64>>), ProduktFeil>(ProduktFeil::IngenLinjer),
        linjer@.len() > 0 ==> match r {
            Err(e) => forste_tellingsfeil(produkter@, linjer@.len() as int) == Some(e),
            Ok((j, d)) => forste_tellingsfeil(produkter@, linjer@.len() as int) is None && j@.len() == linjer@.len()
                && d@.len() == linjer@.len() && forall|i: int| 0 <= i < j@.len() ==> {
                let b = produkter@[i].unwrap().1;
                &&& (#[trigger] j@[i]).nummer@ == linjer@[i].nummer@
                &&& j@[i].bokfort_milli == b
                &&& j@[i].talt_milli == linjer@[i].talt_milli
                &&& d@[i] == (if linjer@[i].talt_milli - b != 0 { Some((linjer@[i].talt_milli - b) as i64) } else { None })
            },
        },
{
    if linjer.len() == 0 {
        return Err(ProduktFeil::IngenLinjer);
    }
    let mut j: Vec<TellingJustering> = Vec::new();
    let mut d: Vec<Option<i64>> = Vec::new();
    let mut i: usize = 0;
    while i < linjer.len()
        invariant
            produkter@.len() == linjer@.len(),
            linjer@.len() > 0,
            forall|k: int| 0 <= k < produkter@.len() ==> (#[trigger] produkter@[k] matches Some((_, b)) ==> i64::MIN <= linjer@[k].talt_milli - b <= i64::MAX),
            i <= linjer@.len(),
            forste_tellingsfeil(produkter@, i as int) is None,
            j@.len() == i,
            d@.len() == i,
            forall|k: int| 0 <= k < i ==> {
                let b = produkter@[k].unwrap().1;
                &&& (#[trigger] j@[k]).nummer@ == linjer@[k].nummer@
                &&& j@[k].bokfort_milli == b
                &&& j@[k].talt_milli == linjer@[k].talt_milli
                &&& d@[k] == (if linjer@[k].talt_milli - b != 0 { Some((linjer@[k].talt_milli - b) as i64) } else { None })
            },
        decreases linjer@.len() - i,
    {
        let (lagerfort, bokfort) = match produkter[i] {
            None => {
                proof {
                    lemma_tellingsfeil_stabil(produkter@, i + 1, linjer@.len() as int);
                }
                return Err(ProduktFeil::Linje { linje: i, feil: LinjeFeil::UkjentProdukt });
            },
            Some(p) => p,
        };
        if !lagerfort {
            proof {
                lemma_tellingsfeil_stabil(produkter@, i + 1, linjer@.len() as int);
            }
            return Err(ProduktFeil::Linje { linje: i, feil: LinjeFeil::IkkeLagerfort });
        }
        let talt = linjer[i].talt_milli;
        assert(produkter@[i as int] matches Some((_, b)) ==> i64::MIN <= linjer@[i as int].talt_milli - b <= i64::MAX);
        let diff = talt - bokfort;
        j.push(TellingJustering { nummer: linjer[i].nummer.clone(), bokfort_milli: bokfort, talt_milli: talt });
        d.push(if diff != 0 { Some(diff) } else { None });
        i = i + 1;
    }
    Ok((j, d))
}

/// The value adjustment of a count, when posting is asked for and the
/// counted value differs from the booked stock balance: the difference on
/// the stock account against the change-in-stock account.
pub fn tellingsbilag(dato: Dato, konti: &TellingKonti, verdi_ore: i64, bokfort_ore: i64) -> (r: Option<VoucherDraft>)
    requires
        i64::MIN < verdi_ore - bokfort_ore <= i64::MAX,
    ensures
        verdi_ore == bokfort_ore ==> r is None,
        verdi_ore != bokfort_ore ==> (r matches Some(v) && {
            let endring = verdi_ore - bokfort_ore;
            &&& v.journal_code@ == konti.journal_code@
            &&& v.voucher_date == dato
            &&& v.description@ == "Varetelling "@ + datotekst(dato)
            &&& v.reverses is None
            &&& v.entries@.len() == 2
            &&& enkel_linje(konti.lager_konto@, endring, Some("Varelager etter telling"@), v.entries@[0])
            &&& enkel_linje(konti.endring_konto@, -endring, Some("Beholdningsendring"@), v.entries@[1])
            &&& balansert(v)
        }),
{
    let endring = verdi_ore - bokfort_ore;
    if endring == 0 {
        return None;
    }
    let mut tekst = String::from_str("Varetelling ");
    tekst.append(dato_tekst(dato).as_str());
    let a = crate::bilag::linje(konti.lager_konto.as_str(), endring, Some(String::from_str("Varelager etter telling")));
    let b = crate::bilag::linje(konti.endring_konto.as_str(), -endring, Some(String::from_str("Beholdningsendring")));
    proof {
        crate::bilag::lemma_sum_to(a, b);
    }
    Some(VoucherDraft {
        journal_code: konti.journal_code.clone(),
        voucher_date: dato,
        description: tekst,
        reverses: None,
        entries: vec![a, b],
    })
}

/// Editing a product must hit exactly one product.
pub fn sjekk_oppdatering(rader_endret: u64) -> (r: Result<(), ProduktFeil>)
    ensures
        r is Ok <==> rader_endret == 1,
        r matches Err(e) ==> e == ProduktFeil::UkjentProdukt,
{
    if rader_endret == 1 {
        Ok(())
    } else {
        Err(ProduktFeil::UkjentProdukt)
    }
}

} // verus!
