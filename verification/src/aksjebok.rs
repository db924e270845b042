//! The share register: registering shareholders, recording movements,
//! ownership shares in basis points, dividends, and the figures of the
//! yearly shareholder register filing.

use crate::bilag::{VoucherDraft, balansert, enkel_linje};
use crate::dato::{Dato, datotekst, dato_tekst, er_for, for_};
use crate::tekst::{alle_siffer, er_blank, like, trimmet};
use vstd::prelude::*;
use vstd::string::*;

verus! {

/// A new shareholder, as registered.
#[derive(Clone, Debug)]
pub struct NyAksjonaer {
    pub kind: String,
    pub navn: String,
    pub fodselsnummer: Option<String>,
    pub orgnr: Option<String>,
    pub utenlandsk_id: Option<String>,
    pub adresse: Option<String>,
    pub postnummer: Option<String>,
    pub poststed: Option<String>,
    pub landkode: Option<String>,
    pub note: Option<String>,
}

/// Why a shareholder or a movement is refused.
#[derive(Clone, Debug, PartialEq, Eq)]
pub enum AksjeFeil {
    ManglerFodselsnummer,
    UgyldigFodselsnummer,
    ManglerOrgnr,
    UgyldigOrgnr,
    ManglerUtenlandskId,
    UgyldigUtenlandskId,
    UkjentType,
    TomtNavn,
    UkjentAksjonaer,
    IkkePositivtAntall,
    /// The owner has fewer shares on the date than the disposal takes.
    ForFaAksjer { beholdning: i64 },
    /// Both sides of a transfer go the same way.
    SammeRetning,
    IkkePositivtUtbytte,
    TomAksjeeierbok,
    ForStortUtbytte,
}

/// A foreign shareholder id: "UTL" followed by nine digits.
pub open spec fn utenlandsk_id_ok(id: Seq<char>) -> bool {
    id.len() == 12 && id[0] == 'U' && id[1] == 'T' && id[2] == 'L' && alle_siffer(id.subrange(3, 12))
}

pub fn er_utenlandsk_id(id: &str) -> (r: bool)
    ensures
        r == utenlandsk_id_ok(id@),
{
    let v = crate::tekst::tegn_i(id);
    if v.len() != 12 || v[0] != 'U' || v[1] != 'T' || v[2] != 'L' {
        return false;
    }
    let rest = crate::tekst::del_av(&v, 3, 12);
    crate::tekst::bare_siffer_v(&rest)
}

/// Registering a shareholder: a person needs a valid national id, a
/// company a valid organisation number, a foreign shareholder an id of
/// the form UTL and nine digits; other kinds are unknown. The check
/// digits are judged by the id rules (`fnr_gyldig`, `orgnr_gyldig`).
pub fn sjekk_aksjonaer(ny: &NyAksjonaer, fnr_gyldig: bool, orgnr_gyldig: bool) -> (r: Result<(), AksjeFeil>)
    ensures
        r == (if ny.kind@ == "person"@ {
            match ny.fodselsnummer {
                None => Err(AksjeFeil::ManglerFodselsnummer),
                Some(_) => if fnr_gyldig { Ok(()) } else { Err(AksjeFeil::UgyldigFodselsnummer) },
            }
        } else if ny.kind@ == "selskap"@ {
            match ny.orgnr {
                None => Err(AksjeFeil::ManglerOrgnr),
                Some(_) => if orgnr_gyldig { Ok(()) } else { Err(AksjeFeil::UgyldigOrgnr) },
            }
        } else if ny.kind@ == "utenlandsk"@ {
            match ny.utenlandsk_id {
                None => Err(AksjeFeil::ManglerUtenlandskId),
                Some(id) => if utenlandsk_id_ok(id@) { Ok(()) } else { Err(AksjeFeil::UgyldigUtenlandskId) },
            }
        } else {
            Err(AksjeFeil::UkjentType)
        }),
{
    if like(ny.kind.as_str(), "person") {
        match &ny.fodselsnummer {
            None => Err(AksjeFeil::ManglerFodselsnummer),
            Some(_) => if fnr_gyldig {
                Ok(())
            } else {
                Err(AksjeFeil::UgyldigFodselsnummer)
            },
        }
    } else if like(ny.kind.as_str(), "selskap") {
        match &ny.orgnr {
            None => Err(AksjeFeil::ManglerOrgnr),
            Some(_) => if orgnr_gyldig {
                Ok(())
            } else {
                Err(AksjeFeil::UgyldigOrgnr)
            },
        }
    } else if like(ny.kind.as_str(), "utenlandsk") {
        match &ny.utenlandsk_id {
            None => Err(AksjeFeil::ManglerUtenlandskId),
            Some(id) => if er_utenlandsk_id(id.as_str()) {
                Ok(())
            } else {
                Err(AksjeFeil::UgyldigUtenlandskId)
            },
        }
    } else {
        Err(AksjeFeil::UkjentType)
    }
}

/// Contact data can change when the name is not blank and the
/// shareholder exists.
pub fn sjekk_kontakt(navn: &str, rader_endret: u64) -> (r: Result<(), AksjeFeil>)
    ensures
        trimmet(navn@).len() == 0 ==> r == Err::<(), AksjeFeil>(AksjeFeil::TomtNavn),
        trimmet(navn@).len() > 0 && rader_endret != 1 ==> r == Err::<(), AksjeFeil>(AksjeFeil::UkjentAksjonaer),
        r is Ok <==> trimmet(navn@).len() > 0 && rader_endret == 1,
{
    if er_blank(navn) {
        Err(AksjeFeil::TomtNavn)
    } else if rader_endret != 1 {
        Err(AksjeFeil::UkjentAksjonaer)
    } else {
        Ok(())
    }
}

/// A holding's share of all shares, in basis points, rounded down; 0
/// when there are no shares.
pub open spec fn andel_av(antall: int, total: int) -> int {
    if total > 0 {
        (antall * 10_000) / total
    } else {
        0
    }
}

/// Sum of the first `n` holdings.
pub open spec fn total_til(a: Seq<i64>, n: int) -> int
    decreases n,
{
    if n <= 0 {
        0
    } else {
        total_til(a, n - 1) + a[n - 1]
    }
}

/// The shares of the holdings, in basis points.
pub fn andeler(antall: &Vec<i64>) -> (r: Vec<i64>)
    requires
        forall|i: int| 0 <= i < antall@.len() ==> #[trigger] antall@[i] >= 0,
        total_til(antall@, antall@.len() as int) <= i64::MAX,
    ensures
        r@.len() == antall@.len(),
        forall|i: int| 0 <= i < r@.len() ==> #[trigger] r@[i] == andel_av(antall@[i] as int, total_til(antall@, antall@.len() as int)),
{
    let mut total: i64 = 0;
    let mut i: usize = 0;
    while i < antall.len()
        invariant
            i <= antall@.len(),
            forall|k: int| 0 <= k < antall@.len() ==> #[trigger] antall@[k] >= 0,
            total_til(antall@, antall@.len() as int) <= i64::MAX,
            total == total_til(antall@, i as int),
        decreases antall@.len() - i,
    {
        proof {
            lemma_total_monoton(antall@, i + 1, antall@.len() as int);
        }
        total = total + antall[i];
        i = i + 1;
    }
    let mut r: Vec<i64> = Vec::new();
    let mut k: usize = 0;
    while k < antall.len()
        invariant
            k <= antall@.len(),
            forall|j: int| 0 <= j < antall@.len() ==> #[trigger] antall@[j] >= 0,
            total == total_til(antall@, antall@.len() as int),
            r@.len() == k,
            forall|j: int| 0 <= j < k ==> #[trigger] r@[j] == andel_av(antall@[j] as int, total as int),
        decreases antall@.len() - k,
    {
        let a = antall[k];
        let b: i64 = if total > 0 {
            proof {
                lemma_total_monoton(antall@, k + 1, antall@.len() as int);
                lemma_ledd_under_total(antall@, k as int);
                assert(0 <= a * 10_000 <= total * 10_000) by (nonlinear_arith)
                    requires 0 <= a <= total;
                assert((a * 10_000) / (total as int) <= 10_000) by (nonlinear_arith)
                    requires 0 <= a <= total, total > 0;
            }
            ((a as i128) * 10_000 / (total as i128)) as i64
        } else {
            0
        };
        r.push(b);
        k = k + 1;
    }
    r
}

proof fn lemma_total_monoton(a: Seq<i64>, m: int, n: int)
    requires
        0 <= m <= n <= a.len(),
        forall|i: int| 0 <= i < a.len() ==> #[trigger] a[i] >= 0,
    ensures
        0 <= total_til(a, m) <= total_til(a, n),
    decreases n,
{
    if n > m {
        lemma_total_monoton(a, m, n - 1);
    } else if m > 0 {
        lemma_total_monoton(a, m - 1, m - 1);
    }
}

proof fn lemma_ledd_under_total(a: Seq<i64>, k: int)
    requires
        0 <= k < a.len(),
        forall|i: int| 0 <= i < a.len() ==> #[trigger] a[i] >= 0,
    ensures
        a[k] <= total_til(a, a.len() as int),
{
    lemma_total_monoton(a, k, a.len() as int);
    lemma_total_monoton(a, k + 1, a.len() as int);
}

/// Sum of the first `n` shares.
pub open spec fn andelsum(a: Seq<i64>, t: int, n: int) -> int
    decreases n,
{
    if n <= 0 {
        0
    } else {
        andelsum(a, t, n - 1) + andel_av(a[n - 1] as int, t)
    }
}

proof fn lemma_andelsum(a: Seq<i64>, t: int, n: int)
    requires
        0 <= n <= a.len(),
        t > 0,
        forall|i: int| 0 <= i < a.len() ==> #[trigger] a[i] >= 0,
    ensures
        andelsum(a, t, n) * t <= total_til(a, n) * 10_000,
    decreases n,
{
    if n > 0 {
        lemma_andelsum(a, t, n - 1);
        let x = a[n - 1] as int;
        assert(((x * 10_000) / t) * t <= x * 10_000) by (nonlinear_arith)
            requires x >= 0, t > 0;
        let s1 = andelsum(a, t, n - 1);
        let q = (x * 10_000) / t;
        assert(andelsum(a, t, n) == s1 + q);
        assert((s1 + q) * t == s1 * t + q * t) by (nonlinear_arith);
    }
}

/// The shares never add up to more than the whole: with holdings that are
/// not negative, the basis points (each rounded down) sum to at most
/// 10 000.
pub proof fn lov_andeler_overstiger_ikke_helheten(a: Seq<i64>)
    requires
        forall|i: int| 0 <= i < a.len() ==> #[trigger] a[i] >= 0,
    ensures
        andelsum(a, total_til(a, a.len() as int), a.len() as int) <= 10_000,
{
    let t = total_til(a, a.len() as int);
    if t > 0 {
        lemma_andelsum(a, t, a.len() as int);
        let s = andelsum(a, t, a.len() as int);
        assert(s <= 10_000) by (nonlinear_arith)
            requires s * t <= t * 10_000, t > 0;
    } else {
        lemma_andelsum_null(a, t, a.len() as int);
    }
}

proof fn lemma_andelsum_null(a: Seq<i64>, t: int, n: int)
    requires
        t <= 0,
        0 <= n <= a.len(),
    ensures
        andelsum(a, t, n) == 0,
    decreases n,
{
    if n > 0 {
        lemma_andelsum_null(a, t, n - 1);
    }
}

/// Recording a movement of `antall` shares: the count must be positive;
/// a disposal (`tilgang` false) cannot take more than the owner holds on
/// the date (`beholdning`); the two sides of a transfer must go opposite
/// ways, and a disposing counterparty must hold the shares too.
pub fn sjekk_hendelse(
    tilgang: bool,
    antall: i64,
    beholdning: i64,
    motpart: Option<(bool, i64)>,
) -> (r: Result<(), AksjeFeil>)
    ensures
        antall <= 0 ==> r == Err::<(), AksjeFeil>(AksjeFeil::IkkePositivtAntall),
        antall > 0 && !tilgang && beholdning < antall ==> r == Err::<(), AksjeFeil>(AksjeFeil::ForFaAksjer { beholdning }),
        antall > 0 && (tilgang || beholdning >= antall) ==> match motpart {
            None => r is Ok,
            Some((mt, mb)) => if mt == tilgang {
                r == Err::<(), AksjeFeil>(AksjeFeil::SammeRetning)
            } else if !mt && mb < antall {
                r == Err::<(), AksjeFeil>(AksjeFeil::ForFaAksjer { beholdning: mb })
            } else {
                r is Ok
            },
        },
{
    if antall <= 0 {
        return Err(AksjeFeil::IkkePositivtAntall);
    }
    if !tilgang && beholdning < antall {
        return Err(AksjeFeil::ForFaAksjer { beholdning });
    }
    match motpart {
        None => Ok(()),
        Some((mt, mb)) => if mt == tilgang {
            Err(AksjeFeil::SammeRetning)
        } else if !mt && mb < antall {
            Err(AksjeFeil::ForFaAksjer { beholdning: mb })
        } else {
            Ok(())
        },
    }
}

/// A dividend decision: the total is the shares on the decision date
/// times the amount per share, posted as annen egenkapital (2050) against
/// the obligation to the shareholders (2800).
pub fn utbytte(besluttet: Dato, per_aksje_ore: i64, antall_aksjer: i64) -> (r: Result<(i64, VoucherDraft), AksjeFeil>)
    ensures
        per_aksje_ore <= 0 ==> r == Err::<(i64, VoucherDraft), AksjeFeil>(AksjeFeil::IkkePositivtUtbytte),
        per_aksje_ore > 0 && antall_aksjer <= 0 ==> r == Err::<(i64, VoucherDraft), AksjeFeil>(AksjeFeil::TomAksjeeierbok),
        per_aksje_ore > 0 && antall_aksjer > 0 && antall_aksjer * per_aksje_ore > i64::MAX ==> r == Err::<
            (i64, VoucherDraft),
            AksjeFeil,
        >(AksjeFeil::ForStortUtbytte),
        r matches Ok((totalt, v)) ==> {
            &&& per_aksje_ore > 0 && antall_aksjer > 0
            &&& totalt == antall_aksjer * per_aksje_ore
            &&& v.journal_code@ == "GL"@
            &&& v.voucher_date == besluttet
            &&& v.description@ == "Utbytte, vedtatt "@ + datotekst(besluttet)
            &&& v.reverses is None
            &&& v.entries@.len() == 2
            &&& enkel_linje("2050"@, totalt as int, Some("Avsatt utbytte"@), v.entries@[0])
            &&& enkel_linje("2800"@, -totalt, None, v.entries@[1])
            &&& balansert(v)
        },
        (per_aksje_ore > 0 && antall_aksjer > 0 && antall_aksjer * per_aksje_ore <= i64::MAX) ==> r is Ok,
{
    if per_aksje_ore <= 0 {
        return Err(AksjeFeil::IkkePositivtUtbytte);
    }
    if antall_aksjer <= 0 {
        return Err(AksjeFeil::TomAksjeeierbok);
    }
    let totalt = match antall_aksjer.checked_mul(per_aksje_ore) {
        Some(t) => t,
        None => {
            return Err(AksjeFeil::ForStortUtbytte);
        },
    };
    let mut tekst = String::from_str("Utbytte, vedtatt ");
    tekst.append(dato_tekst(besluttet).as_str());
    let a = crate::bilag::linje("2050", totalt, Some(String::from_str("Avsatt utbytte")));
    assert(totalt > 0) by (nonlinear_arith)
        requires totalt == antall_aksjer * per_aksje_ore, antall_aksjer > 0, per_aksje_ore > 0;
    let b = crate::bilag::linje("2800", -totalt, None);
    proof {
        crate::bilag::lemma_sum_to(a, b);
    }
    Ok((totalt, VoucherDraft {
        journal_code: String::from_str("GL"),
        voucher_date: besluttet,
        description: tekst,
        reverses: None,
        entries: vec![a, b],
    }))
}

/// Truncating division, the way the integer types divide.
pub open spec fn delt(a: int, b: int) -> int {
    if a >= 0 {
        a / b
    } else {
        -((-a) / b)
    }
}

/// The par value per share, from the founding event's amount and share
/// count; 0 when unknown.
pub fn palydende(stiftelse: Option<(i64, i64)>) -> (r: i64)
    ensures
        r == (match stiftelse {
            Some((antall, belop)) => if antall > 0 { delt(belop as int, antall as int) } else { 0 },
            None => 0,
        }),
{
    match stiftelse {
        Some((antall, belop)) => if antall > 0 {
            let q: i128 = if belop >= 0 {
                (belop as i128) / (antall as i128)
            } else {
                -((-(belop as i128)) / (antall as i128))
            };
            proof {
                if belop >= 0 {
                    assert(0 <= (belop as int) / (antall as int) <= belop) by (nonlinear_arith)
                        requires belop >= 0, antall > 0;
                } else {
                    assert(0 <= (-(belop as int)) / (antall as int) <= -(belop as int)) by (nonlinear_arith)
                        requires belop < 0, antall > 0;
                }
            }
            q as i64
        } else {
            0
        },
        None => 0,
    }
}

/// The identifier a shareholder is filed under: the organisation number,
/// else the foreign id, else the national id.
#[derive(Clone, Debug, PartialEq, Eq)]
pub enum Aksjonaerid {
    Organisasjonsnummer(String),
    Utenlandsk(String),
    Fodselsnummer(String),
}

pub fn aksjonaerid(orgnr: &Option<String>, utenlandsk_id: &Option<String>, fnr: &Option<String>) -> (r: Option<Aksjonaerid>)
    ensures
        match orgnr {
            Some(o) => r == Some(Aksjonaerid::Organisasjonsnummer(*o)),
            None => match utenlandsk_id {
                Some(u) => r == Some(Aksjonaerid::Utenlandsk(*u)),
                None => match fnr {
                    Some(f) => r == Some(Aksjonaerid::Fodselsnummer(*f)),
                    None => r is None,
                },
            },
        },
{
    match orgnr {
        Some(o) => Some(Aksjonaerid::Organisasjonsnummer(o.clone())),
        None => match utenlandsk_id {
            Some(u) => Some(Aksjonaerid::Utenlandsk(u.clone())),
            None => match fnr {
                Some(f) => Some(Aksjonaerid::Fodselsnummer(f.clone())),
                None => None,
            },
        },
    }
}

/// A dividend line of a shareholder's filing: when the shareholder held
/// shares on the decision date, the amount is those shares times the
/// amount per share.
pub fn utbyttepost(eid: i64, per_aksje_ore: i64) -> (r: Option<(i64, i64)>)
    requires
        eid > 0 ==> i64::MIN <= eid * per_aksje_ore <= i64::MAX,
    ensures
        eid > 0 ==> (r matches Some((b, a)) && b == eid * per_aksje_ore && a == eid),
        eid <= 0 ==> r is None,
{
    if eid > 0 {
        Some((eid * per_aksje_ore, eid))
    } else {
        None
    }
}

/// Share capital last year and this year: the share counts times the
/// par value.
pub fn aksjekapital(antall_i_fjor: i64, antall_i_ar: i64, palydende_ore: i64) -> (r: (i64, i64))
    requires
        i64::MIN <= antall_i_fjor * palydende_ore <= i64::MAX,
        i64::MIN <= antall_i_ar * palydende_ore <= i64::MAX,
    ensures
        r.0 == antall_i_fjor * palydende_ore,
        r.1 == antall_i_ar * palydende_ore,
{
    (antall_i_fjor * palydende_ore, antall_i_ar * palydende_ore)
}


/// A shareholder's holding at the start and at the end of the filing year.
#[derive(Clone, Copy, Debug)]
pub struct Aarsbeholdning {
    pub inngaende: i64,
    pub utgaende: i64,
}

/// The kind of a share movement, as far as the filing tells them apart:
/// the founding, a new issue, and every other movement.
#[derive(Clone, Copy, Debug, PartialEq, Eq, Structural)]
pub enum Hendelsestype {
    Stiftelse,
    Nyemisjon,
    Annen,
}

/// A shareholder's movement, with the total number of shares in the
/// company on the movement's date.
#[derive(Clone, Copy, Debug)]
pub struct Aksjehendelse {
    pub dato: Dato,
    pub type_: Hendelsestype,
    pub antall: i64,
    pub antall_etter: i64,
}

/// A new issue as the filing reports it.
#[derive(Clone, Copy, Debug, PartialEq, Eq, Structural)]
pub struct Nyutstedelse {
    pub dato: Dato,
    pub type_: Hendelsestype,
    pub antall_nye: i64,
    pub antall_etter: i64,
    pub palydende_ore: i64,
    pub overkurs_ore: i64,
}

/// A dividend decision seen from one shareholder: the shares the
/// shareholder held on the decision date.
#[derive(Clone, Copy, Debug)]
pub struct Utbyttegrunnlag {
    pub aksjonaer: u64,
    pub dato: Dato,
    pub per_aksje_ore: i64,
    pub eid: i64,
}

/// A dividend line of a shareholder's part of the filing.
#[derive(Clone, Copy, Debug, PartialEq, Eq, Structural)]
pub struct Utbyttelinje {
    pub aksjonaer: u64,
    pub dato: Dato,
    pub belop_ore: i64,
    pub antall_aksjer: i64,
}

/// The figures of the yearly shareholder register filing.
#[derive(Clone, Debug)]
pub struct Oppgavetall {
    pub antall_i_fjor: i64,
    pub antall_i_ar: i64,
    pub aksjekapital_i_fjor: i64,
    pub aksjekapital_i_ar: i64,
    pub palydende_ore: i64,
    pub nyutstedelser: Vec<Nyutstedelse>,
    pub utbytte: Vec<Utbyttelinje>,
}

/// Shares held at the start of the year, over all shareholders.
pub open spec fn sum_inngaende(b: Seq<Aarsbeholdning>) -> int
    decreases b.len(),
{
    if b.len() == 0 {
        0
    } else {
        sum_inngaende(b.drop_last()) + b.last().inngaende
    }
}

/// Shares held at the end of the year, over all shareholders.
pub open spec fn sum_utgaende(b: Seq<Aarsbeholdning>) -> int
    decreases b.len(),
{
    if b.len() == 0 {
        0
    } else {
        sum_utgaende(b.drop_last()) + b.last().utgaende
    }
}

/// A movement the filing reports as a new issue of the year.
pub open spec fn er_arets_utstedelse(h: Aksjehendelse, ar: i32) -> bool {
    h.dato.ar == ar && (h.type_ == Hendelsestype::Stiftelse || h.type_ == Hendelsestype::Nyemisjon)
}

pub open spec fn som_utstedelse(h: Aksjehendelse, palydende_ore: i64) -> Nyutstedelse {
    Nyutstedelse {
        dato: h.dato,
        type_: h.type_,
        antall_nye: h.antall,
        antall_etter: h.antall_etter,
        palydende_ore,
        overkurs_ore: 0,
    }
}

/// The year's new issues, in the order the movements are given.
pub open spec fn arets_utstedelser(h: Seq<Aksjehendelse>, ar: i32, palydende_ore: i64) -> Seq<Nyutstedelse>
    decreases h.len(),
{
    if h.len() == 0 {
        Seq::empty()
    } else {
        let f = arets_utstedelser(h.drop_last(), ar, palydende_ore);
        if er_arets_utstedelse(h.last(), ar) {
            f.push(som_utstedelse(h.last(), palydende_ore))
        } else {
            f
        }
    }
}

/// Where an issue dated `d` goes in a list: before the first issue
/// dated after `d`.
pub open spec fn plass(s: Seq<Nyutstedelse>, d: Dato) -> int
    decreases s.len(),
{
    if s.len() == 0 {
        0
    } else if for_(d, s[0].dato) {
        0
    } else {
        1 + plass(s.drop_first(), d)
    }
}

/// The issues ordered by date; issues of one date keep their order.
pub open spec fn etter_dato(s: Seq<Nyutstedelse>) -> Seq<Nyutstedelse>
    decreases s.len(),
{
    if s.len() == 0 {
        s
    } else {
        let f = etter_dato(s.drop_last());
        f.insert(plass(f, s.last().dato), s.last())
    }
}

/// No issue comes after one dated later.
pub open spec fn datoordnet(s: Seq<Nyutstedelse>) -> bool {
    forall|i: int, j: int| 0 <= i < j < s.len() ==> !for_(#[trigger] s[j].dato, #[trigger] s[i].dato)
}

/// The dividend lines: one for each decision on which the shareholder
/// held shares, the shares times the amount per share.
pub open spec fn utbyttelinjer(u: Seq<Utbyttegrunnlag>) -> Seq<Utbyttelinje>
    decreases u.len(),
{
    if u.len() == 0 {
        Seq::empty()
    } else {
        let f = utbyttelinjer(u.drop_last());
        let g = u.last();
        if g.eid > 0 {
            f.push(Utbyttelinje { aksjonaer: g.aksjonaer, dato: g.dato, belop_ore: (g.eid * g.per_aksje_ore) as i64, antall_aksjer: g.eid })
        } else {
            f
        }
    }
}

proof fn lemma_plass(s: Seq<Nyutstedelse>, d: Dato, p: int)
    requires
        0 <= p <= s.len(),
        forall|k: int| 0 <= k < p ==> !for_(d, #[trigger] s[k].dato),
        p < s.len() ==> for_(d, s[p].dato),
    ensures
        plass(s, d) == p,
    decreases p,
{
    if p > 0 {
        assert(!for_(d, s[0].dato));
        let t = s.drop_first();
        assert forall|k: int| 0 <= k < p - 1 implies !for_(d, #[trigger] t[k].dato) by {
            assert(t[k] == s[k + 1]);
        }
        if p - 1 < t.len() {
            assert(t[p - 1] == s[p]);
        }
        lemma_plass(t, d, p - 1);
    }
}

/// The figures of the shareholder register filing for year `ar`: the
/// shares at the start and the end of the year over all holdings, the
/// share capital as those counts times the par value, the year's
/// founding and new-share events ordered by date (each with the total
/// shares on its date, the par value and no premium), and a dividend
/// line for each decision on which a shareholder held shares. An empty
/// register has no filing.
pub fn aksjonaeroppgave(
    ar: i32,
    beholdning: &Vec<Aarsbeholdning>,
    hendelser: &Vec<Aksjehendelse>,
    utbytte: &Vec<Utbyttegrunnlag>,
    palydende_ore: i64,
) -> (r: Result<Oppgavetall, AksjeFeil>)
    requires
        i64::MIN <= sum_inngaende(beholdning@) <= i64::MAX,
        i64::MIN <= sum_utgaende(beholdning@) <= i64::MAX,
        i64::MIN <= sum_inngaende(beholdning@) * palydende_ore <= i64::MAX,
        i64::MIN <= sum_utgaende(beholdning@) * palydende_ore <= i64::MAX,
        forall|i: int| 0 <= i < utbytte@.len() && #[trigger] utbytte@[i].eid > 0
            ==> i64::MIN <= utbytte@[i].eid * utbytte@[i].per_aksje_ore <= i64::MAX,
    ensures
        beholdning@.len() == 0 <==> r == Err::<Oppgavetall, AksjeFeil>(AksjeFeil::TomAksjeeierbok),
        beholdning@.len() > 0 ==> r is Ok,
        r matches Ok(o) ==> {
            &&& o.antall_i_fjor == sum_inngaende(beholdning@)
            &&& o.antall_i_ar == sum_utgaende(beholdning@)
            &&& o.aksjekapital_i_fjor == sum_inngaende(beholdning@) * palydende_ore
            &&& o.aksjekapital_i_ar == sum_utgaende(beholdning@) * palydende_ore
            &&& o.palydende_ore == palydende_ore
            &&& o.nyutstedelser@ == etter_dato(arets_utstedelser(hendelser@, ar, palydende_ore))
            &&& datoordnet(o.nyutstedelser@)
            &&& o.utbytte@ == utbyttelinjer(utbytte@)
        },
{
    if beholdning.len() == 0 {
        return Err(AksjeFeil::TomAksjeeierbok);
    }
    let (inn, ut) = summer_beholdning(beholdning);
    let (kap_fjor, kap_ar) = aksjekapital(inn, ut, palydende_ore);
    let nye = ordne_utstedelser(ar, hendelser, palydende_ore);
    let linjer = utbytte_linjer(utbytte);
    Ok(Oppgavetall {
        antall_i_fjor: inn,
        antall_i_ar: ut,
        aksjekapital_i_fjor: kap_fjor,
        aksjekapital_i_ar: kap_ar,
        palydende_ore,
        nyutstedelser: nye,
        utbytte: linjer,
    })
}

proof fn lemma_sum_grense(b: Seq<Aarsbeholdning>, n: int)
    requires
        0 <= n <= b.len(),
    ensures
        -(n * 0x8000_0000_0000_0000) <= sum_inngaende(b.take(n)) <= n * 0x8000_0000_0000_0000,
        -(n * 0x8000_0000_0000_0000) <= sum_utgaende(b.take(n)) <= n * 0x8000_0000_0000_0000,
    decreases n,
{
    if n > 0 {
        lemma_sum_grense(b, n - 1);
        assert(b.take(n).drop_last() == b.take(n - 1));
    }
}

fn summer_beholdning(beholdning: &Vec<Aarsbeholdning>) -> (r: (i64, i64))
    requires
        i64::MIN <= sum_inngaende(beholdning@) <= i64::MAX,
        i64::MIN <= sum_utgaende(beholdning@) <= i64::MAX,
    ensures
        r.0 == sum_inngaende(beholdning@),
        r.1 == sum_utgaende(beholdning@),
{
    let mut inn: i128 = 0;
    let mut ut: i128 = 0;
    let mut i: usize = 0;
    while i < beholdning.len()
        invariant
            i <= beholdning@.len(),
            inn == sum_inngaende(beholdning@.take(i as int)),
            ut == sum_utgaende(beholdning@.take(i as int)),
        decreases beholdning@.len() - i,
    {
        proof {
            lemma_sum_grense(beholdning@, i as int + 1);
            assert(beholdning@.take(i as int + 1).drop_last() == beholdning@.take(i as int));
            assert(i < 0x1_0000_0000_0000_0000);
            assert((i as int + 1) * 0x8000_0000_0000_0000 <= 0x1_0000_0000_0000_0000 * 0x8000_0000_0000_0000);
        }
        inn = inn + beholdning[i].inngaende as i128;
        ut = ut + beholdning[i].utgaende as i128;
        i = i + 1;
    }
    assert(beholdning@.take(i as int) == beholdning@);
    (inn as i64, ut as i64)
}

fn ordne_utstedelser(ar: i32, hendelser: &Vec<Aksjehendelse>, palydende_ore: i64) -> (r: Vec<Nyutstedelse>)
    ensures
        r@ == etter_dato(arets_utstedelser(hendelser@, ar, palydende_ore)),
        datoordnet(r@),
{
    let mut r: Vec<Nyutstedelse> = Vec::new();
    let mut i: usize = 0;
    while i < hendelser.len()
        invariant
            i <= hendelser@.len(),
            r@ == etter_dato(arets_utstedelser(hendelser@.take(i as int), ar, palydende_ore)),
            datoordnet(r@),
        decreases hendelser@.len() - i,
    {
        let h = hendelser[i];
        let ghost forrige = arets_utstedelser(hendelser@.take(i as int), ar, palydende_ore);
        proof {
            assert(hendelser@.take(i as int + 1).drop_last() == hendelser@.take(i as int));
            assert(hendelser@.take(i as int + 1).last() == h);
        }
        if h.dato.ar == ar && (h.type_ == Hendelsestype::Stiftelse || h.type_ == Hendelsestype::Nyemisjon) {
            let n = Nyutstedelse {
                dato: h.dato,
                type_: h.type_,
                antall_nye: h.antall,
                antall_etter: h.antall_etter,
                palydende_ore,
                overkurs_ore: 0,
            };
            let mut p: usize = 0;
            while p < r.len() && !er_for(n.dato, r[p].dato)
                invariant
                    p <= r@.len(),
                    forall|k: int| 0 <= k < p ==> !for_(n.dato, #[trigger] r@[k].dato),
                decreases r@.len() - p,
            {
                p = p + 1;
            }
            let ghost gammel = r@;
            proof {
                lemma_plass(gammel, n.dato, p as int);
            }
            r.insert(p, n);
            proof {
                assert(som_utstedelse(h, palydende_ore) == n);
                assert(arets_utstedelser(hendelser@.take(i as int + 1), ar, palydende_ore) == forrige.push(n));
                assert(forrige.push(n).drop_last() == forrige);
                assert(etter_dato(forrige.push(n)) == gammel.insert(plass(gammel, n.dato), n));
                assert forall|a: int, b: int| 0 <= a < b < r@.len() implies !for_(#[trigger] r@[b].dato, #[trigger] r@[a].dato) by {
                    if b < p {
                        assert(r@[a] == gammel[a] && r@[b] == gammel[b]);
                    } else if b == p {
                        assert(r@[a] == gammel[a]);
                    } else if a == p {
                        assert(r@[b] == gammel[b - 1]);
                        assert(for_(n.dato, gammel[p as int].dato));
                        if b - 1 > p {
                            assert(!for_(gammel[b - 1].dato, gammel[p as int].dato));
                        }
                    } else if a < p {
                        assert(r@[a] == gammel[a] && r@[b] == gammel[b - 1]);
                    } else {
                        assert(r@[a] == gammel[a - 1] && r@[b] == gammel[b - 1]);
                    }
                }
            }
        }
        i = i + 1;
    }
    assert(hendelser@.take(i as int) == hendelser@);
    r
}

fn utbytte_linjer(utbytte: &Vec<Utbyttegrunnlag>) -> (r: Vec<Utbyttelinje>)
    requires
        forall|i: int| 0 <= i < utbytte@.len() && #[trigger] utbytte@[i].eid > 0
            ==> i64::MIN <= utbytte@[i].eid * utbytte@[i].per_aksje_ore <= i64::MAX,
    ensures
        r@ == utbyttelinjer(utbytte@),
{
    let mut r: Vec<Utbyttelinje> = Vec::new();
    let mut i: usize = 0;
    while i < utbytte.len()
        invariant
            i <= utbytte@.len(),
            forall|k: int| 0 <= k < utbytte@.len() && #[trigger] utbytte@[k].eid > 0
                ==> i64::MIN <= utbytte@[k].eid * utbytte@[k].per_aksje_ore <= i64::MAX,
            r@ == utbyttelinjer(utbytte@.take(i as int)),
        decreases utbytte@.len() - i,
    {
        let g = utbytte[i];
        proof {
            assert(utbytte@.take(i as int + 1).drop_last() == utbytte@.take(i as int));
            assert(g.eid > 0 ==> i64::MIN <= g.eid * g.per_aksje_ore <= i64::MAX);
        }
        match utbyttepost(g.eid, g.per_aksje_ore) {
            Some((belop, antall)) => {
                r.push(Utbyttelinje { aksjonaer: g.aksjonaer, dato: g.dato, belop_ore: belop, antall_aksjer: antall });
            },
            None => {},
        }
        i = i + 1;
    }
    assert(utbytte@.take(i as int) == utbytte@);
    r
}

} // verus!
