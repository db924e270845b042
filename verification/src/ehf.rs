//! EHF: splitting a free-text address into the parts EHF wants, and the
//! posting suggestion for an inbox document.

use crate::dato::Dato;
use crate::tekst::{alle_siffer, bare_siffer_v, del_av, opt_syn, streng_av, tegn_i, trim_v, trimmet};
use vstd::string::*;
use vstd::prelude::*;

verus! {

/// Index of the last `c` among the first `n` characters, or -1.
pub open spec fn siste_pos(s: Seq<char>, c: char, n: int) -> int
    decreases n,
{
    if n <= 0 {
        -1
    } else if s[n - 1] == c {
        n - 1
    } else {
        siste_pos(s, c, n - 1)
    }
}

/// Index of the first `c` at or after `i`, or -1.
pub open spec fn forste_pos(s: Seq<char>, c: char, i: int) -> int
    decreases s.len() - i,
{
    if i < 0 || i >= s.len() {
        -1
    } else if s[i] == c {
        i
    } else {
        forste_pos(s, c, i + 1)
    }
}

/// The address split the way EHF wants it (street, postnr, poststed),
/// from an already trimmed, non-empty address: split at the last comma;
/// the rest, trimmed, must be a 4-digit postnr, a space and the place.
/// Any other shape goes out whole as the street line.
pub open spec fn delt_adresse(a: Seq<char>) -> (Option<Seq<char>>, Option<Seq<char>>, Option<Seq<char>>) {
    let k = siste_pos(a, ',', a.len() as int);
    if k < 0 {
        (Some(a), None, None)
    } else {
        let resten = trimmet(a.subrange(k + 1, a.len() as int));
        let m = forste_pos(resten, ' ', 0);
        if m == 4 && alle_siffer(resten.take(4)) {
            (
                Some(trimmet(a.take(k))),
                Some(resten.take(4)),
                Some(trimmet(resten.subrange(5, resten.len() as int))),
            )
        } else {
            (Some(a), None, None)
        }
    }
}

/// The split of an optional free-text address.
pub open spec fn adressedeler(adresse: Option<Seq<char>>) -> (Option<Seq<char>>, Option<Seq<char>>, Option<Seq<char>>) {
    match adresse {
        None => (None, None, None),
        Some(a) => if trimmet(a).len() == 0 {
            (None, None, None)
        } else {
            delt_adresse(trimmet(a))
        },
    }
}

proof fn lemma_siste_pos(s: Seq<char>, c: char, n: int)
    requires
        0 <= n <= s.len(),
    ensures
        -1 <= siste_pos(s, c, n) < n,
    decreases n,
{
    if n > 0 {
        lemma_siste_pos(s, c, n - 1);
    }
}

fn siste_komma(v: &Vec<char>) -> (r: usize)
    ensures
        r <= v@.len(),
        -1 <= siste_pos(v@, ',', v@.len() as int) < v@.len(),
        siste_pos(v@, ',', v@.len() as int) < 0 ==> r == v@.len(),
        siste_pos(v@, ',', v@.len() as int) >= 0 ==> r == siste_pos(v@, ',', v@.len() as int),
{
    proof {
        lemma_siste_pos(v@, ',', v@.len() as int);
    }
    let mut i: usize = v.len();
    while i > 0
        invariant
            i <= v@.len(),
            -1 <= siste_pos(v@, ',', v@.len() as int) < v@.len(),
            siste_pos(v@, ',', v@.len() as int) == siste_pos(v@, ',', i as int),
        decreases i,
    {
        if v[i - 1] == ',' {
            return i - 1;
        }
        i = i - 1;
    }
    v.len()
}

proof fn lemma_forste_pos(s: Seq<char>, c: char, i: int)
    requires
        0 <= i <= s.len(),
    ensures
        forste_pos(s, c, i) == -1 || i <= forste_pos(s, c, i) < s.len(),
    decreases s.len() - i,
{
    if i < s.len() {
        lemma_forste_pos(s, c, i + 1);
    }
}

fn forste_mellomrom(v: &Vec<char>) -> (r: usize)
    ensures
        r <= v@.len(),
        forste_pos(v@, ' ', 0) == -1 || 0 <= forste_pos(v@, ' ', 0) < v@.len(),
        forste_pos(v@, ' ', 0) < 0 ==> r == v@.len(),
        forste_pos(v@, ' ', 0) >= 0 ==> r == forste_pos(v@, ' ', 0),
{
    proof {
        lemma_forste_pos(v@, ' ', 0);
    }
    let mut i: usize = 0;
    while i < v.len()
        invariant
            i <= v@.len(),
            forste_pos(v@, ' ', 0) == -1 || 0 <= forste_pos(v@, ' ', 0) < v@.len(),
            forste_pos(v@, ' ', 0) == forste_pos(v@, ' ', i as int),
        decreases v@.len() - i,
    {
        if v[i] == ' ' {
            return i;
        }
        i = i + 1;
    }
    v.len()
}

/// Splits "Storgata 1, 0155 Oslo" into street, postnr and poststed.
/// Addresses are free text in the master data; EHF wants them apart. A
/// shape that is not recognised goes out whole as the street line.
pub fn split_adresse(adresse: Option<String>) -> (r: (Option<String>, Option<String>, Option<String>))
    ensures
        (opt_syn(r.0), opt_syn(r.1), opt_syn(r.2)) == adressedeler(opt_syn(adresse)),
{
    let a = match adresse {
        None => {
            return (None, None, None);
        },
        Some(a) => a,
    };
    let v = trim_v(&tegn_i(a.as_str()));
    if v.len() == 0 {
        return (None, None, None);
    }
    let k = siste_komma(&v);
    if k == v.len() {
        return (Some(streng_av(&v)), None, None);
    }
    let resten = trim_v(&del_av(&v, k + 1, v.len()));
    let m = forste_mellomrom(&resten);
    if m == 4 && m < resten.len() {
        let nr = del_av(&resten, 0, 4);
        if bare_siffer_v(&nr) {
            let gate = trim_v(&del_av(&v, 0, k));
            let sted = trim_v(&del_av(&resten, 5, resten.len()));
            return (Some(streng_av(&gate)), Some(streng_av(&nr)), Some(streng_av(&sted)));
        }
    }
    (Some(streng_av(&v)), None, None)
}

} // verus!

verus! {

/// A received EHF invoice, as read from the document.
#[derive(Clone, Debug)]
pub struct MottattFaktura {
    pub selger_navn: String,
    pub selger_orgnr: Option<String>,
    pub fakturanr: String,
    pub fakturadato: Option<Dato>,
    pub forfallsdato: Option<Dato>,
    pub kid: Option<String>,
    pub kontonummer: Option<String>,
    pub netto_ore: i64,
    pub mva_ore: i64,
    pub brutto_ore: i64,
    pub valuta: String,
}

/// A value read from free text, with why it was read so.
#[derive(Clone, Debug)]
pub struct Felt<T> {
    pub verdi: T,
    pub begrunnelse: String,
}

/// What was read from a document's text.
#[derive(Clone, Debug)]
pub struct Tolkning {
    pub orgnr: Option<Felt<String>>,
    pub fakturanr: Option<Felt<String>>,
    pub kid: Option<Felt<String>>,
    pub kontonummer: Option<Felt<String>>,
    pub dato: Option<Felt<Dato>>,
    pub forfall: Option<Felt<Dato>>,
    pub belop_ore: Option<Felt<i64>>,
    pub mva_ore: Option<Felt<i64>>,
}

/// The posting suggestion for an inbox document.
#[derive(Clone, Debug)]
pub struct Bokforingsforslag {
    /// "ehf" | "pdf-tekst" | "tekst" | "ingen"
    pub kilde: String,
    pub selger_navn: Option<String>,
    pub orgnr: Option<String>,
    pub fakturanr: Option<String>,
    pub dato: Option<Dato>,
    pub forfall: Option<Dato>,
    pub kid: Option<String>,
    pub kontonummer: Option<String>,
    pub netto_ore: Option<i64>,
    pub mva_ore: Option<i64>,
    pub brutto_ore: Option<i64>,
    pub leverandor_no: Option<String>,
    pub leverandor_navn: Option<String>,
    pub konto: Option<String>,
    pub konto_begrunnelse: Option<String>,
    /// (field, why) for each value read from text.
    pub begrunnelser: Vec<(String, String)>,
    pub advarsler: Vec<String>,
}

/// The document's text looks like EHF: it has an Invoice or CreditNote
/// element.
pub open spec fn ser_ut_som_ehf(t: Seq<char>) -> bool {
    crate::tekst::har_delstreng(t, "<Invoice"@) || crate::tekst::har_delstreng(t, "<CreditNote"@)
}

pub fn er_ehf_tekst(t: &str) -> (r: bool)
    ensures
        r == ser_ut_som_ehf(t@),
{
    crate::tekst::inneholder_tekst(t, "<Invoice") || crate::tekst::inneholder_tekst(t, "<CreditNote")
}

/// A PDF: said so by the content type, or starting with "%PDF".
pub open spec fn er_pdf_av(content_type: Seq<char>, content: Seq<u8>) -> bool {
    crate::tekst::har_delstreng(content_type, "pdf"@) || (content.len() >= 4 && content[0] == 37 && content[1] == 80
        && content[2] == 68 && content[3] == 70)
}

pub fn er_pdf(content_type: &str, content: &[u8]) -> (r: bool)
    ensures
        r == er_pdf_av(content_type@, content@),
{
    crate::tekst::inneholder_tekst(content_type, "pdf") || (content.len() >= 4 && content[0] == 37 && content[1]
        == 80 && content[2] == 68 && content[3] == 70)
}

/// An empty suggestion of a source.
pub open spec fn tomt_forslag(f: Bokforingsforslag, kilde: Seq<char>) -> bool {
    &&& f.kilde@ == kilde
    &&& f.selger_navn is None && f.orgnr is None && f.fakturanr is None && f.dato is None && f.forfall is None
    &&& f.kid is None && f.kontonummer is None && f.netto_ore is None && f.mva_ore is None && f.brutto_ore is None
    &&& f.leverandor_no is None && f.leverandor_navn is None && f.konto is None && f.konto_begrunnelse is None
}

fn tomt(kilde: &str) -> (r: Bokforingsforslag)
    ensures
        tomt_forslag(r, kilde@),
        r.begrunnelser@.len() == 0,
        r.advarsler@.len() == 0,
{
    Bokforingsforslag {
        kilde: String::from_str(kilde),
        selger_navn: None,
        orgnr: None,
        fakturanr: None,
        dato: None,
        forfall: None,
        kid: None,
        kontonummer: None,
        netto_ore: None,
        mva_ore: None,
        brutto_ore: None,
        leverandor_no: None,
        leverandor_navn: None,
        konto: None,
        konto_begrunnelse: None,
        begrunnelser: Vec::new(),
        advarsler: Vec::new(),
    }
}

/// A document with no readable text: nothing is suggested, and it says so.
pub fn forslag_uten_tekst() -> (r: Bokforingsforslag)
    ensures
        tomt_forslag(r, "ingen"@),
        r.begrunnelser@.len() == 0,
        r.advarsler@.len() == 1,
        r.advarsler@[0]@ == "fant ingen lesbar tekst i dokumentet — et skannet bilde må bokføres manuelt (OCR er ikke en del av kjernen)"@,
{
    let mut f = tomt("ingen");
    f.advarsler.push(
        String::from_str(
            "fant ingen lesbar tekst i dokumentet — et skannet bilde må bokføres manuelt (OCR er ikke en del av kjernen)",
        ),
    );
    f
}

/// The suggestion read straight from an EHF document: every field as the
/// document gives it, one provenance note for all, and a warning when the
/// invoice is not in NOK.
pub fn forslag_fra_ehf(m: &MottattFaktura) -> (r: Bokforingsforslag)
    ensures
        r.kilde@ == "ehf"@,
        opt_syn(r.selger_navn) == Some(m.selger_navn@),
        opt_syn(r.orgnr) == opt_syn(m.selger_orgnr),
        opt_syn(r.fakturanr) == Some(m.fakturanr@),
        r.dato == m.fakturadato,
        r.forfall == m.forfallsdato,
        opt_syn(r.kid) == opt_syn(m.kid),
        opt_syn(r.kontonummer) == opt_syn(m.kontonummer),
        r.netto_ore == Some(m.netto_ore),
        r.mva_ore == Some(m.mva_ore),
        r.brutto_ore == Some(m.brutto_ore),
        r.leverandor_no is None && r.leverandor_navn is None && r.konto is None && r.konto_begrunnelse is None,
        r.begrunnelser@.len() == 1,
        r.begrunnelser@[0].0@ == "alle"@,
        r.begrunnelser@[0].1@ == "lest direkte fra EHF-dokumentet"@,
        m.valuta@ == "NOK"@ ==> r.advarsler@.len() == 0,
        m.valuta@ != "NOK"@ ==> r.advarsler@.len() == 1 && r.advarsler@[0]@ == "fakturaen er i "@ + m.valuta@
            + " — bokfør med valuta"@,
{
    let mut f = tomt("ehf");
    f.selger_navn = Some(m.selger_navn.clone());
    f.orgnr = crate::tekst::kopi_valg(&m.selger_orgnr);
    f.fakturanr = Some(m.fakturanr.clone());
    f.dato = m.fakturadato;
    f.forfall = m.forfallsdato;
    f.kid = crate::tekst::kopi_valg(&m.kid);
    f.kontonummer = crate::tekst::kopi_valg(&m.kontonummer);
    f.netto_ore = Some(m.netto_ore);
    f.mva_ore = Some(m.mva_ore);
    f.brutto_ore = Some(m.brutto_ore);
    f.begrunnelser.push((String::from_str("alle"), String::from_str("lest direkte fra EHF-dokumentet")));
    if !crate::tekst::like(m.valuta.as_str(), "NOK") {
        let mut s = String::from_str("fakturaen er i ");
        s.append(m.valuta.as_str());
        s.append(" — bokfør med valuta");
        f.advarsler.push(s);
    }
    f
}

/// The provenance notes of the fields read from text, in field order.
pub open spec fn begrunnelser_av(t: Tolkning) -> Seq<(Seq<char>, Seq<char>)> {
    let a: Seq<(Seq<char>, Seq<char>)> = match t.orgnr { Some(x) => seq![("orgnr"@, x.begrunnelse@)], None => Seq::empty() };
    let b = match t.fakturanr { Some(x) => a.push(("fakturanr"@, x.begrunnelse@)), None => a };
    let c = match t.kid { Some(x) => b.push(("kid"@, x.begrunnelse@)), None => b };
    let d = match t.kontonummer { Some(x) => c.push(("kontonummer"@, x.begrunnelse@)), None => c };
    let e = match t.dato { Some(x) => d.push(("dato"@, x.begrunnelse@)), None => d };
    let f = match t.forfall { Some(x) => e.push(("forfall"@, x.begrunnelse@)), None => e };
    let g = match t.belop_ore { Some(x) => f.push(("brutto"@, x.begrunnelse@)), None => f };
    match t.mva_ore { Some(x) => g.push(("mva"@, x.begrunnelse@)), None => g }
}

/// The notes as plain values.
pub open spec fn notater(v: Seq<(String, String)>) -> Seq<(Seq<char>, Seq<char>)> {
    v.map_values(|p: (String, String)| (p.0@, p.1@))
}

fn noter(f: &mut Bokforingsforslag, felt: &str, begrunnelse: &String)
    ensures
        notater(final(f).begrunnelser@) == notater(old(f).begrunnelser@).push((felt@, begrunnelse@)),
        final(f).kilde == old(f).kilde,
        final(f).advarsler == old(f).advarsler,
        final(f).selger_navn == old(f).selger_navn,
        final(f).orgnr == old(f).orgnr,
        final(f).fakturanr == old(f).fakturanr,
        final(f).dato == old(f).dato,
        final(f).forfall == old(f).forfall,
        final(f).kid == old(f).kid,
        final(f).kontonummer == old(f).kontonummer,
        final(f).netto_ore == old(f).netto_ore,
        final(f).mva_ore == old(f).mva_ore,
        final(f).brutto_ore == old(f).brutto_ore,
        final(f).leverandor_no == old(f).leverandor_no,
        final(f).leverandor_navn == old(f).leverandor_navn,
        final(f).konto == old(f).konto,
        final(f).konto_begrunnelse == old(f).konto_begrunnelse,
{
    let ghost b0 = f.begrunnelser@;
    f.begrunnelser.push((String::from_str(felt), begrunnelse.clone()));
    assert(notater(f.begrunnelser@) =~= notater(b0).push((felt@, begrunnelse@)));
}

/// The suggestion from a document's text (`kilde` says which kind): each
/// field read with its note; the net is the gross less the VAT when both
/// were read.
pub fn forslag_fra_tolkning(kilde: &str, t: &Tolkning) -> (r: Bokforingsforslag)
    requires
        match (t.belop_ore, t.mva_ore) {
            (Some(b), Some(m)) => i64::MIN <= b.verdi - m.verdi <= i64::MAX,
            _ => true,
        },
    ensures
        r.kilde@ == kilde@,
        r.selger_navn is None,
        opt_syn(r.orgnr) == (match t.orgnr { Some(x) => Some(x.verdi@), None => None }),
        opt_syn(r.fakturanr) == (match t.fakturanr { Some(x) => Some(x.verdi@), None => None }),
        opt_syn(r.kid) == (match t.kid { Some(x) => Some(x.verdi@), None => None }),
        opt_syn(r.kontonummer) == (match t.kontonummer { Some(x) => Some(x.verdi@), None => None }),
        r.dato == (match t.dato { Some(x) => Some(x.verdi), None => None }),
        r.forfall == (match t.forfall { Some(x) => Some(x.verdi), None => None }),
        r.brutto_ore == (match t.belop_ore { Some(x) => Some(x.verdi), None => None }),
        r.mva_ore == (match t.mva_ore { Some(x) => Some(x.verdi), None => None }),
        r.netto_ore == (match (t.belop_ore, t.mva_ore) {
            (Some(b), Some(m)) => Some((b.verdi - m.verdi) as i64),
            _ => None,
        }),
        r.leverandor_no is None && r.leverandor_navn is None && r.konto is None && r.konto_begrunnelse is None,
        notater(r.begrunnelser@) == begrunnelser_av(*t),
        r.advarsler@.len() == 0,
{
    let mut f = tomt(kilde);
    assert(notater(f.begrunnelser@) =~= Seq::<(Seq<char>, Seq<char>)>::empty());
    match &t.orgnr {
        Some(x) => {
            f.orgnr = Some(x.verdi.clone());
            noter(&mut f, "orgnr", &x.begrunnelse);
        },
        None => {},
    }
    match &t.fakturanr {
        Some(x) => {
            f.fakturanr = Some(x.verdi.clone());
            noter(&mut f, "fakturanr", &x.begrunnelse);
        },
        None => {},
    }
    match &t.kid {
        Some(x) => {
            f.kid = Some(x.verdi.clone());
            noter(&mut f, "kid", &x.begrunnelse);
        },
        None => {},
    }
    match &t.kontonummer {
        Some(x) => {
            f.kontonummer = Some(x.verdi.clone());
            noter(&mut f, "kontonummer", &x.begrunnelse);
        },
        None => {},
    }
    match &t.dato {
        Some(x) => {
            f.dato = Some(x.verdi);
            noter(&mut f, "dato", &x.begrunnelse);
        },
        None => {},
    }
    match &t.forfall {
        Some(x) => {
            f.forfall = Some(x.verdi);
            noter(&mut f, "forfall", &x.begrunnelse);
        },
        None => {},
    }
    match &t.belop_ore {
        Some(x) => {
            f.brutto_ore = Some(x.verdi);
            noter(&mut f, "brutto", &x.begrunnelse);
        },
        None => {},
    }
    match &t.mva_ore {
        Some(x) => {
            f.mva_ore = Some(x.verdi);
            noter(&mut f, "mva", &x.begrunnelse);
        },
        None => {},
    }
    match (&t.belop_ore, &t.mva_ore) {
        (Some(b), Some(m)) => {
            f.netto_ore = Some(b.verdi - m.verdi);
        },
        _ => {},
    }
    f
}

/// The supplier found for the suggestion's orgnr: its number, name, and
/// the cost account (with date) it was last posted to.
#[derive(Clone, Debug)]
pub struct Leverandortreff {
    pub party_no: String,
    pub navn: String,
    pub siste_konto: Option<(String, Dato)>,
}

/// Adds what the company's own history says about the supplier: with an
/// orgnr that matches a supplier, its number and name and the account it
/// was last posted to; with an orgnr that matches none, a warning.
pub fn med_leverandor(f: Bokforingsforslag, treff: Option<Leverandortreff>) -> (r: Bokforingsforslag)
    ensures
        r.kilde == f.kilde && r.orgnr == f.orgnr && r.begrunnelser == f.begrunnelser,
        r.netto_ore == f.netto_ore && r.brutto_ore == f.brutto_ore && r.mva_ore == f.mva_ore,
        f.orgnr is None ==> r == f,
        f.orgnr matches Some(o) ==> match treff {
            Some(t) => {
                &&& opt_syn(r.leverandor_no) == Some(t.party_no@)
                &&& opt_syn(r.leverandor_navn) == Some(t.navn@)
                &&& r.advarsler == f.advarsler
                &&& match t.siste_konto {
                    Some((k, d)) => opt_syn(r.konto) == Some(k@) && opt_syn(r.konto_begrunnelse) == Some(
                        "samme leverandør ble sist bokført på "@ + k@ + " ("@ + crate::dato::datotekst(d) + ")"@,
                    ),
                    None => r.konto == f.konto && r.konto_begrunnelse == f.konto_begrunnelse,
                }
            },
            None => r.leverandor_no == f.leverandor_no && r.advarsler@ == f.advarsler@.push(r.advarsler@.last())
                && r.advarsler@.last()@ == "orgnr "@ + o@ + " finnes ikke i leverandørreskontroen — opprett parten først"@,
        },
{
    let mut f = f;
    let orgnr = match &f.orgnr {
        None => {
            return f;
        },
        Some(o) => o.clone(),
    };
    match treff {
        Some(t) => {
            f.leverandor_navn = Some(t.navn);
            match t.siste_konto {
                Some((k, d)) => {
                    let mut s = String::from_str("samme leverandør ble sist bokført på ");
                    s.append(k.as_str());
                    s.append(" (");
                    s.append(crate::dato::dato_tekst(d).as_str());
                    s.append(")");
                    f.konto_begrunnelse = Some(s);
                    f.konto = Some(k);
                },
                None => {},
            }
            f.leverandor_no = Some(t.party_no);
        },
        None => {
            let mut s = String::from_str("orgnr ");
            s.append(orgnr.as_str());
            s.append(" finnes ikke i leverandørreskontroen — opprett parten først");
            f.advarsler.push(s);
        },
    }
    f
}

} // verus!

verus! {

/// Where a suggestion is read from.
#[derive(Clone, Copy, Debug, PartialEq, Eq, Structural)]
pub enum Kilde {
    /// The EHF document itself.
    Ehf,
    /// The text layer of a PDF.
    Pdf,
    /// The document as plain text.
    Tekst,
    /// No text to read.
    Ingen,
}

/// How an inbox document is read: as EHF when its text looks like EHF
/// and parses as such (`ehf_lest`); else as a PDF when it is one; else as
/// plain text when it is text of more than 20 bytes; else not at all.
pub fn forslagskilde(tekst: &Option<String>, ehf_lest: bool, content_type: &str, content: &[u8]) -> (r: Kilde)
    ensures
        r == (if (tekst matches Some(t) && ser_ut_som_ehf(t@)) && ehf_lest {
            Kilde::Ehf
        } else if er_pdf_av(content_type@, content@) {
            Kilde::Pdf
        } else if tekst matches Some(t) && vstd::utf8::encode_utf8(t@).len() > 20 {
            Kilde::Tekst
        } else {
            Kilde::Ingen
        }),
{
    let ehf = match tekst {
        Some(t) => er_ehf_tekst(t.as_str()),
        None => false,
    };
    if ehf && ehf_lest {
        Kilde::Ehf
    } else if er_pdf(content_type, content) {
        Kilde::Pdf
    } else {
        let lang = match tekst {
            Some(t) => t.as_str().as_bytes().len() > 20,
            None => false,
        };
        if lang {
            Kilde::Tekst
        } else {
            Kilde::Ingen
        }
    }
}

} // verus!
