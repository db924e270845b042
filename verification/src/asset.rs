//! The fixed-asset register: registering an asset, when a month's
//! straight-line depreciation is due and the voucher it posts, disposal
//! with gain or loss, and the tax balance report's aggregates.

use crate::bilag::{EntryDraft, VoucherDraft, balansert, enkel_linje, lemma_sum_push, sum_linjer};
use crate::dato::{Dato, dager_i_maned, er_senest, for_, gyldig, senest, antall_dager};
use crate::tekst::{desimal, heltall_tekst};
use vstd::prelude::*;
use vstd::string::*;

verus! {

/// The month an asset's plan is in at `periode`, counting the month of
/// acquisition as 1.
pub open spec fn maned_nr_av(anskaffelse: Dato, periode: Dato) -> int {
    (periode.ar - anskaffelse.ar) * 12 + (periode.maned - anskaffelse.maned) + 1
}

pub fn maned_nr(anskaffelse: Dato, periode: Dato) -> (r: i32)
    requires
        gyldig(anskaffelse),
        gyldig(periode),
    ensures
        r == maned_nr_av(anskaffelse, periode),
{
    (periode.ar - anskaffelse.ar) * 12 + (periode.maned as i32 - anskaffelse.maned as i32) + 1
}

/// The first day of a date's month.
pub open spec fn manedstart(d: Dato) -> Dato {
    Dato { ar: d.ar, maned: d.maned, dag: 1 }
}

/// The last day of a date's month.
pub open spec fn manedslutt(d: Dato) -> Dato {
    Dato { ar: d.ar, maned: d.maned, dag: dager_i_maned(d.ar as int, d.maned as int) as u32 }
}

/// One month later (day clamped to the month's length); `None` past the
/// last year chrono represents.
pub open spec fn en_maned_senere(d: Dato) -> Option<Dato> {
    if d.maned == 12 {
        if d.ar >= 262142 {
            None
        } else {
            Some(Dato { ar: (d.ar + 1) as i32, maned: 1, dag: d.dag })
        }
    } else {
        let m = (d.maned + 1) as u32;
        let siste = dager_i_maned(d.ar as int, m as int);
        Some(Dato { ar: d.ar, maned: m, dag: if d.dag <= siste { d.dag } else { siste as u32 } })
    }
}

/// Law: the month after a date: one calendar month on, a later valid
/// date whose day is at most the given day; none only past December of
/// the last year chrono represents.
pub proof fn lov_en_maned_senere(d: Dato)
    requires
        gyldig(d),
    ensures
        en_maned_senere(d) is None <==> (d.maned == 12 && d.ar >= 262142),
        en_maned_senere(d) matches Some(p) ==> {
            &&& p.ar * 12 + p.maned == d.ar * 12 + d.maned + 1
            &&& gyldig(p)
            &&& for_(d, p)
            &&& p.dag <= d.dag
        },
{
}

/// Law: the acquisition month is month 1 of the plan, and each following
/// month counts one more.
pub proof fn lov_maned_nr(anskaffelse: Dato, p: Dato, q: Dato)
    ensures
        maned_nr_av(anskaffelse, manedstart(anskaffelse)) == 1,
        q.ar * 12 + q.maned == p.ar * 12 + p.maned + 1 ==> maned_nr_av(anskaffelse, q) == maned_nr_av(anskaffelse, p)
            + 1,
{
}

/// The next period to depreciate: the month after the last posted one,
/// or the month of acquisition when none is posted.
pub fn neste_periode(siste: Option<Dato>, anskaffelse: Dato) -> (r: Option<Dato>)
    requires
        gyldig(anskaffelse),
        siste matches Some(s) ==> gyldig(s),
    ensures
        r == (match siste {
            Some(s) => en_maned_senere(s),
            None => Some(manedstart(anskaffelse)),
        }),
        r matches Some(p) ==> gyldig(p),
{
    match siste {
        None => Some(Dato { ar: anskaffelse.ar, maned: anskaffelse.maned, dag: 1 }),
        Some(s) => {
            if s.maned == 12 {
                if s.ar >= 262142 {
                    None
                } else {
                    Some(Dato { ar: s.ar + 1, maned: 1, dag: s.dag })
                }
            } else {
                let m = s.maned + 1;
                let siste_dag = antall_dager(s.ar, m);
                Some(Dato { ar: s.ar, maned: m, dag: if s.dag <= siste_dag { s.dag } else { siste_dag } })
            }
        },
    }
}

/// A period is due when its month has ended by `through`, the plan has
/// months left, and the asset was not disposed of in or before that
/// month.
pub open spec fn avskrivning_forfaller(periode: Dato, nr: int, levetid: int, avhendet: Option<Dato>, through: Dato) -> bool {
    &&& senest(manedslutt(periode), through)
    &&& nr <= levetid
    &&& !(avhendet matches Some(d) && senest(manedstart(d), periode))
}

/// Law: no depreciation is due for a period in or after the month the
/// asset was disposed of, nor past the plan's last month, nor for a
/// month that has not ended by `through`.
pub proof fn lov_avhendet_avskrives_ikke(periode: Dato, nr: int, levetid: int, avhendet: Option<Dato>, through: Dato)
    ensures
        (avhendet matches Some(d) && senest(manedstart(d), periode)) ==> !avskrivning_forfaller(
            periode,
            nr,
            levetid,
            avhendet,
            through,
        ),
        nr > levetid ==> !avskrivning_forfaller(periode, nr, levetid, avhendet, through),
        for_(through, manedslutt(periode)) ==> !avskrivning_forfaller(periode, nr, levetid, avhendet, through),
{
}

/// Law: a period is due once its month has ended, while the plan has
/// months left and the asset is still owned (not disposed of, or disposed
/// of in a later month).
pub proof fn lov_forfalt_avskrivning(periode: Dato, nr: int, levetid: int, avhendet: Option<Dato>, through: Dato)
    ensures
        senest(manedslutt(periode), through) && nr <= levetid && (avhendet matches Some(d) ==> for_(
            periode,
            manedstart(d),
        )) ==> avskrivning_forfaller(periode, nr, levetid, avhendet, through),
{
}

pub fn er_forfalt(periode: Dato, nr: i32, levetid: i32, avhendet: Option<Dato>, through: Dato) -> (r: bool)
    ensures
        r == avskrivning_forfaller(periode, nr as int, levetid as int, avhendet, through),
        (avhendet matches Some(d) && senest(manedstart(d), periode)) ==> !r,
        nr > levetid ==> !r,
        for_(through, manedslutt(periode)) ==> !r,
        senest(manedslutt(periode), through) && nr <= levetid && (avhendet matches Some(d) ==> for_(
            periode,
            manedstart(d),
        )) ==> r,
{
    proof {
        lov_avhendet_avskrives_ikke(periode, nr as int, levetid as int, avhendet, through);
        lov_forfalt_avskrivning(periode, nr as int, levetid as int, avhendet, through);
    }
    let slutt = Dato { ar: periode.ar, maned: periode.maned, dag: antall_dager(periode.ar, periode.maned) };
    er_senest(slutt, through) && nr <= levetid && !match avhendet {
        Some(d) => er_senest(Dato { ar: d.ar, maned: d.maned, dag: 1 }, periode),
        None => false,
    }
}

/// A month as two digits.
pub open spec fn to_sifre(m: int) -> Seq<char> {
    if m < 10 {
        seq!['0'] + desimal(m)
    } else {
        desimal(m)
    }
}

fn to_siffer_tekst(m: u32) -> (r: String)
    requires
        m <= 99,
    ensures
        r@ == to_sifre(m as int),
{
    let mut s = if m < 10 {
        String::from_str("0")
    } else {
        String::new()
    };
    s.append(heltall_tekst(m as i64).as_str());
    proof {
        reveal_strlit("0");
    }
    s
}

/// The voucher of one month's depreciation, dated the month's last day:
/// the amount on the depreciation account against the balance account.
pub open spec fn avskrivningsbilag_av(
    navn: Seq<char>,
    periode: Dato,
    nr: int,
    levetid: int,
    belop: int,
    avskrivningskonto: Seq<char>,
    balansekonto: Seq<char>,
    v: VoucherDraft,
) -> bool {
    &&& v.journal_code@ == "GL"@
    &&& v.voucher_date == manedslutt(periode)
    &&& v.description@ == "Avskrivning "@ + navn + " "@ + desimal(periode.ar as int) + "-"@ + to_sifre(periode.maned as int)
    &&& v.reverses is None
    &&& v.entries@.len() == 2
    &&& enkel_linje(avskrivningskonto, belop, Some("Lineær avskrivning måned "@ + desimal(nr) + "/"@ + desimal(levetid)), v.entries@[0])
    &&& enkel_linje(balansekonto, -belop, None, v.entries@[1])
}

pub fn avskrivningsbilag(
    navn: &str,
    periode: Dato,
    nr: i32,
    levetid: i32,
    belop: i64,
    avskrivningskonto: &str,
    balansekonto: &str,
) -> (r: VoucherDraft)
    requires
        belop != i64::MIN,
        1 <= periode.maned <= 12,
    ensures
        avskrivningsbilag_av(navn@, periode, nr as int, levetid as int, belop as int, avskrivningskonto@, balansekonto@, r),
        balansert(r),
        r.voucher_date.ar == periode.ar && r.voucher_date.maned == periode.maned,
        r.voucher_date.dag == dager_i_maned(periode.ar as int, periode.maned as int),
        r.entries@.len() == 2,
        r.entries@[0].account_number@ == avskrivningskonto@ && r.entries@[0].amount_ore == belop,
        r.entries@[1].account_number@ == balansekonto@ && r.entries@[1].amount_ore == -belop,
{
    let mut tekst = String::from_str("Avskrivning ");
    tekst.append(navn);
    tekst.append(" ");
    tekst.append(heltall_tekst(periode.ar as i64).as_str());
    tekst.append("-");
    tekst.append(to_siffer_tekst(periode.maned).as_str());
    let mut linjetekst = String::from_str("Lineær avskrivning måned ");
    linjetekst.append(heltall_tekst(nr as i64).as_str());
    linjetekst.append("/");
    linjetekst.append(heltall_tekst(levetid as i64).as_str());
    let a = crate::bilag::linje(avskrivningskonto, belop, Some(linjetekst));
    let b = crate::bilag::linje(balansekonto, -belop, None);
    proof {
        crate::bilag::lemma_sum_to(a, b);
    }
    VoucherDraft {
        journal_code: String::from_str("GL"),
        voucher_date: Dato { ar: periode.ar, maned: periode.maned, dag: antall_dager(periode.ar, periode.maned) },
        description: tekst,
        reverses: None,
        entries: vec![a, b],
    }
}

/// The tax balance groups a–j.
pub open spec fn saldogruppe(g: Seq<char>) -> bool {
    g.len() == 1 && 'a' <= g[0] <= 'j'
}

/// Why an asset or a disposal is refused.
#[derive(Clone, Debug, PartialEq, Eq)]
pub enum AnleggFeil {
    UkjentSaldogruppe,
    /// The residual value must be at least 0 and below the cost.
    UgyldigRestverdi,
    /// The depreciable amount must be at least 1 øre per month.
    ForLiteAvskrivbart,
    /// An account (balance or depreciation) is not an active account.
    UkjentKonto,
    /// The acquisition voucher does not exist.
    UkjentBilag,
    NegativtVederlag,
    AlleredeAvhendet,
}

/// Truncating division by 100, as the kroner of an øre amount.
pub open spec fn kroner(ore: int) -> int {
    if ore >= 0 {
        ore / 100
    } else {
        -((-ore) / 100)
    }
}

/// An asset is registered when its group is a–j, its residual value is
/// between 0 and the cost, the depreciable amount gives at least 1 øre a
/// month, its accounts are active and its acquisition voucher (if named)
/// exists. The register never refuses a small asset; it warns when the
/// cost is under the capitalisation limit (`grense`), else when the
/// lifetime is under three years.
pub fn sjekk_anlegg(
    saldogruppe_: &str,
    kostpris_ore: i64,
    restverdi_ore: i64,
    levetid_maneder: i32,
    kontoer_finnes: bool,
    bilag_finnes: bool,
    grense: Option<i64>,
) -> (r: Result<Option<String>, AnleggFeil>)
    ensures
        !saldogruppe(saldogruppe_@) ==> r == Err::<Option<String>, AnleggFeil>(AnleggFeil::UkjentSaldogruppe),
        saldogruppe(saldogruppe_@) && !(0 <= restverdi_ore < kostpris_ore) ==> r == Err::<Option<String>, AnleggFeil>(
            AnleggFeil::UgyldigRestverdi,
        ),
        saldogruppe(saldogruppe_@) && 0 <= restverdi_ore < kostpris_ore && kostpris_ore - restverdi_ore
            < levetid_maneder ==> r == Err::<Option<String>, AnleggFeil>(AnleggFeil::ForLiteAvskrivbart),
        saldogruppe(saldogruppe_@) && 0 <= restverdi_ore < kostpris_ore && kostpris_ore - restverdi_ore
            >= levetid_maneder && !kontoer_finnes ==> r == Err::<Option<String>, AnleggFeil>(AnleggFeil::UkjentKonto),
        saldogruppe(saldogruppe_@) && 0 <= restverdi_ore < kostpris_ore && kostpris_ore - restverdi_ore
            >= levetid_maneder && kontoer_finnes && !bilag_finnes ==> r == Err::<Option<String>, AnleggFeil>(
            AnleggFeil::UkjentBilag,
        ),
        r is Ok <==> (saldogruppe(saldogruppe_@) && 0 <= restverdi_ore < kostpris_ore && kostpris_ore - restverdi_ore
            >= levetid_maneder && kontoer_finnes && bilag_finnes),
        r matches Ok(w) ==> match grense {
            Some(g) if kostpris_ore < g => w matches Some(t) && t@ == "kostpris under aktiveringsgrensen ("@
                + desimal(kroner(g as int)) + " kr) — kan kostnadsføres direkte"@,
            _ => if levetid_maneder < 36 {
                w matches Some(t) && t@ == "levetid under 3 år — driftsmidlet kan kostnadsføres direkte"@
            } else {
                w is None
            },
        },
{
    let g_ok = saldogruppe_.unicode_len() == 1 && 'a' <= saldogruppe_.get_char(0) && saldogruppe_.get_char(0) <= 'j';
    if !g_ok {
        return Err(AnleggFeil::UkjentSaldogruppe);
    }
    if !(0 <= restverdi_ore && restverdi_ore < kostpris_ore) {
        return Err(AnleggFeil::UgyldigRestverdi);
    }
    if kostpris_ore - restverdi_ore < levetid_maneder as i64 {
        return Err(AnleggFeil::ForLiteAvskrivbart);
    }
    if !kontoer_finnes {
        return Err(AnleggFeil::UkjentKonto);
    }
    if !bilag_finnes {
        return Err(AnleggFeil::UkjentBilag);
    }
    let under = match grense {
        Some(g) => kostpris_ore < g,
        None => false,
    };
    if under {
        let g = match grense {
            Some(g) => g,
            None => 0,
        };
        let kr: i64 = if g >= 0 {
            g / 100
        } else {
            -((-(g as i128)) / 100) as i64
        };
        let mut t = String::from_str("kostpris under aktiveringsgrensen (");
        t.append(heltall_tekst(kr).as_str());
        t.append(" kr) — kan kostnadsføres direkte");
        Ok(Some(t))
    } else if levetid_maneder < 36 {
        Ok(Some(String::from_str("levetid under 3 år — driftsmidlet kan kostnadsføres direkte")))
    } else {
        Ok(None)
    }
}

/// What a disposal posts and reports.
#[derive(Clone, Debug)]
pub struct Disposal {
    pub bokfort_ore: i64,
    pub gevinst_ore: i64,
    /// (fiscal year, voucher number) of the posting, when there was one.
    pub voucher: Option<(i32, i64)>,
}

/// The lines of a disposal: the consideration on the counter-account,
/// the remaining book value out of the balance account, and the
/// difference as gain (credit, on `gevinstkonto`) or loss (debit, on
/// `tapskonto`); each only when not zero.
pub open spec fn avhendingslinjer(
    vederlag: int,
    bokfort: int,
    motkonto: Seq<char>,
    balansekonto: Seq<char>,
    gevinstkonto: Seq<char>,
    tapskonto: Seq<char>,
) -> Seq<(Seq<char>, int, Seq<char>)> {
    let gevinst = vederlag - bokfort;
    let a: Seq<(Seq<char>, int, Seq<char>)> = if vederlag != 0 {
        seq![(motkonto, vederlag, "Vederlag ved avhending"@)]
    } else {
        Seq::empty()
    };
    let b = if bokfort != 0 {
        a.push((balansekonto, -bokfort, "Utgang bokført verdi"@))
    } else {
        a
    };
    if gevinst > 0 {
        b.push((gevinstkonto, -gevinst, "Gevinst ved avgang"@))
    } else if gevinst < 0 {
        b.push((tapskonto, -gevinst, "Tap ved avgang"@))
    } else {
        b
    }
}

/// Law: a disposal's lines balance, and the difference between the
/// consideration and the book value goes to the gain account when the
/// consideration is higher and to the loss account when it is lower.
pub proof fn lov_avhending_gevinst_og_tap(
    vederlag: int,
    bokfort: int,
    motkonto: Seq<char>,
    balansekonto: Seq<char>,
    gevinstkonto: Seq<char>,
    tapskonto: Seq<char>,
)
    ensures
        ({
            let ls = avhendingslinjer(vederlag, bokfort, motkonto, balansekonto, gevinstkonto, tapskonto);
            &&& vederlag > bokfort ==> ls.last().0 == gevinstkonto && ls.last().1 == bokfort - vederlag
            &&& vederlag < bokfort ==> ls.last().0 == tapskonto && ls.last().1 == bokfort - vederlag
            &&& (forall|i: int| 0 <= i < ls.len() ==> (#[trigger] ls[i]).1 != 0)
            &&& (vederlag != 0 ==> ls[0] == (motkonto, vederlag, "Vederlag ved avhending"@))
            &&& (vederlag == 0 && bokfort != 0 ==> ls[0].0 == balansekonto && ls[0].1 == -bokfort)
            &&& ls.len() == (if vederlag != 0 { 1int } else { 0 }) + (if bokfort != 0 { 1int } else { 0 }) + (
            if vederlag != bokfort {
                1int
            } else {
                0
            })
        }),
{
}

fn legg_til(entries: &mut Vec<EntryDraft>, konto: &str, belop: i64, tekst: &str)
    ensures
        final(entries)@.len() == old(entries)@.len() + 1,
        forall|i: int| 0 <= i < old(entries)@.len() ==> final(entries)@[i] == old(entries)@[i],
        enkel_linje(konto@, belop as int, Some(tekst@), final(entries)@[old(entries)@.len() as int]),
        sum_linjer(final(entries)@) == sum_linjer(old(entries)@) + belop,
{
    let e = crate::bilag::linje(konto, belop, Some(String::from_str(tekst)));
    proof {
        lemma_sum_push(entries@, e);
    }
    entries.push(e);
}

/// Disposal of an asset (sale or scrapping): refused for a negative
/// consideration or an asset already disposed of. The book value is the
/// cost less the posted depreciation; `None` for the voucher when there
/// is nothing to post.
pub fn avhending(
    navn: &str,
    dato: Dato,
    kostpris_ore: i64,
    akkumulert_ore: i64,
    avhendet: bool,
    vederlag_ore: i64,
    motkonto: &str,
    balansekonto: &str,
    gevinstkonto: &str,
    tapskonto: &str,
) -> (r: Result<(i64, i64, Option<VoucherDraft>), AnleggFeil>)
    requires
        0 <= akkumulert_ore <= kostpris_ore,
    ensures
        vederlag_ore < 0 ==> r == Err::<(i64, i64, Option<VoucherDraft>), AnleggFeil>(AnleggFeil::NegativtVederlag),
        vederlag_ore >= 0 && avhendet ==> r == Err::<(i64, i64, Option<VoucherDraft>), AnleggFeil>(AnleggFeil::AlleredeAvhendet),
        vederlag_ore >= 0 && !avhendet ==> (r matches Ok((bokfort, gevinst, v)) && {
            let ls = avhendingslinjer(vederlag_ore as int, bokfort as int, motkonto@, balansekonto@, gevinstkonto@, tapskonto@);
            &&& bokfort == kostpris_ore - akkumulert_ore
            &&& gevinst == vederlag_ore - bokfort
            &&& (v is None <==> ls.len() == 0)
            &&& (v matches Some(b) ==> {
                &&& b.journal_code@ == "GL"@
                &&& b.voucher_date == dato
                &&& b.description@ == "Avhending "@ + navn@
                &&& b.reverses is None
                &&& b.entries@.len() == ls.len()
                &&& forall|i: int| 0 <= i < ls.len() ==> #[trigger] enkel_linje(ls[i].0, ls[i].1, Some(ls[i].2), b.entries@[i])
                &&& balansert(b)
            })
        }),
{
    if vederlag_ore < 0 {
        return Err(AnleggFeil::NegativtVederlag);
    }
    if avhendet {
        return Err(AnleggFeil::AlleredeAvhendet);
    }
    let bokfort = kostpris_ore - akkumulert_ore;
    let gevinst = vederlag_ore - bokfort;
    let ghost ls = avhendingslinjer(vederlag_ore as int, bokfort as int, motkonto@, balansekonto@, gevinstkonto@, tapskonto@);
    let mut e: Vec<EntryDraft> = Vec::new();
    if vederlag_ore != 0 {
        legg_til(&mut e, motkonto, vederlag_ore, "Vederlag ved avhending");
    }
    if bokfort != 0 {
        legg_til(&mut e, balansekonto, -bokfort, "Utgang bokført verdi");
    }
    if gevinst > 0 {
        legg_til(&mut e, gevinstkonto, -gevinst, "Gevinst ved avgang");
    } else if gevinst < 0 {
        legg_til(&mut e, tapskonto, -gevinst, "Tap ved avgang");
    }
    assert(e@.len() == ls.len());
    assert(forall|i: int| 0 <= i < ls.len() ==> #[trigger] enkel_linje(ls[i].0, ls[i].1, Some(ls[i].2), e@[i]));
    if e.len() == 0 {
        return Ok((bokfort, gevinst, None));
    }
    let mut tekst = String::from_str("Avhending ");
    tekst.append(navn);
    Ok((bokfort, gevinst, Some(VoucherDraft {
        journal_code: String::from_str("GL"),
        voucher_date: dato,
        description: tekst,
        reverses: None,
        entries: e,
    })))
}

/// The book value in the register: zero once disposed of, else cost
/// less posted depreciation.
pub fn bokfort_verdi(kostpris_ore: i64, akkumulert_ore: i64, avhendet: bool) -> (r: i64)
    requires
        0 <= akkumulert_ore <= kostpris_ore,
    ensures
        r == (if avhendet { 0 } else { kostpris_ore - akkumulert_ore }),
{
    if avhendet {
        0
    } else {
        kostpris_ore - akkumulert_ore
    }
}

} // verus!

verus! {

/// One tax balance group's year.
#[derive(Clone, Debug)]
pub struct SaldoGruppeRad {
    pub gruppe: String,
    pub beskrivelse: String,
    pub inngaende_ore: i64,
    pub tilgang_ore: i64,
    pub vederlag_ore: i64,
    pub grunnlag_ore: i64,
    pub sats_bp: i64,
    pub avskrivning_ore: i64,
    pub utgaende_ore: i64,
}

/// The tax balance report for a year.
#[derive(Clone, Debug)]
pub struct SaldoRapport {
    pub year: i32,
    pub grupper: Vec<SaldoGruppeRad>,
    /// Book value at the year's end.
    pub bokfort_ore: i64,
    /// Sum of the groups' closing tax balances.
    pub skattemessig_ore: i64,
    /// Temporary difference: book value less tax balance.
    pub forskjell_ore: i64,
}

/// An asset as the tax balance computation sees it.
#[derive(Clone, Debug)]
pub struct SaldoAnlegg {
    pub anskaffelsesdato: Dato,
    pub kostpris_ore: i64,
    pub saldogruppe: String,
    pub avhendet_dato: Option<Dato>,
    pub vederlag_ore: Option<i64>,
}

/// Cost of the first `n` assets of a group acquired in year `y`.
pub open spec fn tilgang_til(a: Seq<SaldoAnlegg>, gruppe: Seq<char>, y: int, n: int) -> int
    decreases n,
{
    if n <= 0 {
        0
    } else {
        tilgang_til(a, gruppe, y, n - 1) + if a[n - 1].saldogruppe@ == gruppe && a[n - 1].anskaffelsesdato.ar == y {
            a[n - 1].kostpris_ore as int
        } else {
            0
        }
    }
}

/// Consideration for the first `n` assets of a group disposed of in `y`.
pub open spec fn vederlag_til(a: Seq<SaldoAnlegg>, gruppe: Seq<char>, y: int, n: int) -> int
    decreases n,
{
    if n <= 0 {
        0
    } else {
        vederlag_til(a, gruppe, y, n - 1) + if a[n - 1].saldogruppe@ == gruppe && (a[n - 1].avhendet_dato matches Some(d)
            && d.ar == y) {
            match a[n - 1].vederlag_ore {
                Some(v) => v as int,
                None => 0,
            }
        } else {
            0
        }
    }
}

proof fn lemma_sum_grense(a: Seq<SaldoAnlegg>, gruppe: Seq<char>, y: int, n: int)
    requires
        0 <= n <= a.len(),
    ensures
        -n * 0x8000_0000_0000_0000 <= tilgang_til(a, gruppe, y, n) <= n * 0x8000_0000_0000_0000,
        -n * 0x8000_0000_0000_0000 <= vederlag_til(a, gruppe, y, n) <= n * 0x8000_0000_0000_0000,
    decreases n,
{
    if n > 0 {
        lemma_sum_grense(a, gruppe, y, n - 1);
    }
}

/// A group's additions and consideration in a year: the cost of its
/// assets acquired that year, and what its assets disposed of that year
/// brought in.
pub fn tilgang_og_vederlag(a: &Vec<SaldoAnlegg>, gruppe: &str, y: i32) -> (r: (i64, i64))
    requires
        i64::MIN <= tilgang_til(a@, gruppe@, y as int, a@.len() as int) <= i64::MAX,
        i64::MIN <= vederlag_til(a@, gruppe@, y as int, a@.len() as int) <= i64::MAX,
    ensures
        r.0 == tilgang_til(a@, gruppe@, y as int, a@.len() as int),
        r.1 == vederlag_til(a@, gruppe@, y as int, a@.len() as int),
{
    let mut t: i128 = 0;
    let mut v: i128 = 0;
    let mut i: usize = 0;
    while i < a.len()
        invariant
            i <= a@.len(),
            t == tilgang_til(a@, gruppe@, y as int, i as int),
            v == vederlag_til(a@, gruppe@, y as int, i as int),
        decreases a@.len() - i,
    {
        proof {
            lemma_sum_grense(a@, gruppe@, y as int, i + 1);
        }
        assert(a@.len() <= usize::MAX);
        let x = &a[i];
        let samme = crate::tekst::like(x.saldogruppe.as_str(), gruppe);
        if samme && x.anskaffelsesdato.ar == y {
            t = t + x.kostpris_ore as i128;
        }
        let avhendet_i_ar = match x.avhendet_dato {
            Some(d) => d.ar == y,
            None => false,
        };
        if samme && avhendet_i_ar {
            v = v + match x.vederlag_ore {
                Some(k) => k as i128,
                None => 0,
            };
        }
        i = i + 1;
    }
    (t as i64, v as i64)
}

/// The first year of the computation: the earliest acquisition year, or
/// the report's year when the register is empty.
pub open spec fn forste_ar_til(a: Seq<SaldoAnlegg>, year: int, n: int) -> int
    decreases n,
{
    if n <= 0 {
        year
    } else if n == 1 {
        a[0].anskaffelsesdato.ar as int
    } else {
        let f = forste_ar_til(a, year, n - 1);
        if a[n - 1].anskaffelsesdato.ar < f {
            a[n - 1].anskaffelsesdato.ar as int
        } else {
            f
        }
    }
}

pub fn forste_ar(a: &Vec<SaldoAnlegg>, year: i32) -> (r: i32)
    ensures
        r == forste_ar_til(a@, year as int, a@.len() as int),
{
    if a.len() == 0 {
        return year;
    }
    let mut f: i32 = a[0].anskaffelsesdato.ar;
    let mut i: usize = 1;
    while i < a.len()
        invariant
            1 <= i <= a@.len(),
            f == forste_ar_til(a@, year as int, i as int),
        decreases a@.len() - i,
    {
        if a[i].anskaffelsesdato.ar < f {
            f = a[i].anskaffelsesdato.ar;
        }
        i = i + 1;
    }
    f
}

/// Sum of the first `n` groups' closing tax balances.
pub open spec fn utgaende_til(g: Seq<SaldoGruppeRad>, n: int) -> int
    decreases n,
{
    if n <= 0 {
        0
    } else {
        utgaende_til(g, n - 1) + g[n - 1].utgaende_ore
    }
}

/// The report: the groups, the book value, their closing balances'
/// sum, and the difference between book and tax value.
pub fn saldo_rapport(year: i32, grupper: Vec<SaldoGruppeRad>, bokfort_ore: i64) -> (r: SaldoRapport)
    requires
        forall|n: int| 0 <= n <= grupper@.len() ==> i64::MIN <= #[trigger] utgaende_til(grupper@, n) <= i64::MAX,
        i64::MIN <= bokfort_ore - utgaende_til(grupper@, grupper@.len() as int) <= i64::MAX,
    ensures
        r.year == year,
        r.grupper@ == grupper@,
        r.bokfort_ore == bokfort_ore,
        r.skattemessig_ore == utgaende_til(grupper@, grupper@.len() as int),
        r.forskjell_ore == bokfort_ore - r.skattemessig_ore,
{
    let mut s: i64 = 0;
    let mut i: usize = 0;
    while i < grupper.len()
        invariant
            i <= grupper@.len(),
            forall|n: int| 0 <= n <= grupper@.len() ==> i64::MIN <= #[trigger] utgaende_til(grupper@, n) <= i64::MAX,
            s == utgaende_til(grupper@, i as int),
        decreases grupper@.len() - i,
    {
        assert(i64::MIN <= utgaende_til(grupper@, i + 1) <= i64::MAX);
        s = s + grupper[i].utgaende_ore;
        i = i + 1;
    }
    SaldoRapport { year, grupper, bokfort_ore, skattemessig_ore: s, forskjell_ore: bokfort_ore - s }
}

/// A group gets a row for a year once it has had anything: an opening
/// balance, additions or consideration.
pub fn gruppe_aktiv(inngaende: i64, tilgang: i64, vederlag: i64) -> (r: bool)
    ensures
        r == !(inngaende == 0 && tilgang == 0 && vederlag == 0),
{
    !(inngaende == 0 && tilgang == 0 && vederlag == 0)
}

} // verus!
