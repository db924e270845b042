//! Accruals: a plan spreads a net amount over months, and the monthly
//! run posts each month that has ended, is not posted yet and was not
//! stopped before. Each posting moves the month's part from the balance
//! account to the result account and carries no VAT code.

use crate::bilag::{EntryDraft, VoucherDraft, balansert, lemma_sum_to};
use crate::dato::{Dato, dato_fra, for_, gyldig, senest, er_senest};
use crate::tekst::{desimal, er_blank, fylt, fyll, heltall_tekst, kopi_valg, sifre, trim, trimmet, antall_tekst};
use vstd::prelude::*;
use vstd::string::*;

verus! {

/// A plan to be created.
#[derive(Debug)]
pub struct PeriodiseringDraft {
    pub kilde_voucher: Option<u128>,
    pub beskrivelse: String,
    pub resultatkonto: String,
    pub balansekonto: String,
    /// Net amount in øre, ledger signs: a prepaid cost is positive.
    pub total_ore: i64,
    /// (year, month) of the first and last month.
    pub fra: (i32, u32),
    pub til: (i32, u32),
    pub avdeling: Option<String>,
    pub prosjekt: Option<String>,
    pub notat: Option<String>,
}

/// A plan with what has been posted of it.
#[derive(Clone, Debug)]
pub struct Periodisering {
    pub id: u128,
    pub beskrivelse: String,
    pub resultatkonto: String,
    pub balansekonto: String,
    pub total_ore: i64,
    pub fra_maned: Dato,
    pub til_maned: Dato,
    pub avdeling: Option<String>,
    pub prosjekt: Option<String>,
    pub notat: Option<String>,
    pub stoppet_dato: Option<Dato>,
    pub fort_ore: i64,
    pub forte_maneder: i64,
}

/// What a month's run did.
#[derive(Clone, Debug)]
pub struct PeriodiseringUtfall {
    pub periodisering_id: u128,
    pub beskrivelse: String,
    pub period: Dato,
    pub belop_ore: i64,
    pub voucher: Option<(i32, i64)>,
    pub detail: Option<String>,
}

/// Why a plan is refused.
#[derive(Clone, Debug, PartialEq, Eq)]
pub enum PeriodiseringFeil {
    NullBelop,
    ManglerBeskrivelse,
    UgyldigManed,
    /// The last month lies before the first.
    TilForFra,
    /// The parts would round to less than one øre a month.
    UnderEttOre { belop: i64, maneder: i64 },
    /// An unknown or closed department or project.
    UkjentDimensjon { kind: String, kode: String },
    IngenAktivPlan,
    UkjentPlan,
}

/// The first day of a month, when the month exists.
pub open spec fn forste_dag(ar: i32, maned: u32) -> Option<Dato> {
    if gyldig(Dato { ar, maned, dag: 1 }) { Some(Dato { ar, maned, dag: 1 }) } else { None }
}

/// A new plan: a nonzero amount, a description that is not blank, two
/// existing months, a count of months (`antall`, from the first to the
/// last) that is positive, and at least one øre per month. The result is
/// the first days of the two months and the description trimmed.
pub fn sjekk_plan(draft: &PeriodiseringDraft, antall: i64) -> (r: Result<(Dato, Dato, String), PeriodiseringFeil>)
    requires
        draft.total_ore > i64::MIN,
    ensures
        draft.total_ore == 0 ==> r == Err::<(Dato, Dato, String), PeriodiseringFeil>(PeriodiseringFeil::NullBelop),
        draft.total_ore != 0 && trimmet(draft.beskrivelse@).len() == 0 ==> r == Err::<(Dato, Dato, String), PeriodiseringFeil>(
            PeriodiseringFeil::ManglerBeskrivelse,
        ),
        r is Ok <==> {
            &&& draft.total_ore != 0
            &&& trimmet(draft.beskrivelse@).len() > 0
            &&& forste_dag(draft.fra.0, draft.fra.1) is Some
            &&& forste_dag(draft.til.0, draft.til.1) is Some
            &&& antall > 0
            &&& (if draft.total_ore < 0 { -draft.total_ore } else { draft.total_ore as int }) >= antall
        },
        r matches Ok((f, t, b)) ==> Some(f) == forste_dag(draft.fra.0, draft.fra.1) && Some(t) == forste_dag(
            draft.til.0,
            draft.til.1,
        ) && b@ == trimmet(draft.beskrivelse@),
        r matches Err(PeriodiseringFeil::UnderEttOre { belop, maneder }) ==> belop == (if draft.total_ore < 0 {
            -draft.total_ore
        } else {
            draft.total_ore as int
        }) && maneder == antall,
{
    if draft.total_ore == 0 {
        return Err(PeriodiseringFeil::NullBelop);
    }
    if er_blank(draft.beskrivelse.as_str()) {
        return Err(PeriodiseringFeil::ManglerBeskrivelse);
    }
    let fra = match dato_fra(draft.fra.0, draft.fra.1, 1) {
        Some(d) => d,
        None => {
            return Err(PeriodiseringFeil::UgyldigManed);
        },
    };
    let til = match dato_fra(draft.til.0, draft.til.1, 1) {
        Some(d) => d,
        None => {
            return Err(PeriodiseringFeil::UgyldigManed);
        },
    };
    if antall <= 0 {
        return Err(PeriodiseringFeil::TilForFra);
    }
    let abs = if draft.total_ore < 0 {
        -draft.total_ore
    } else {
        draft.total_ore
    };
    if abs < antall {
        return Err(PeriodiseringFeil::UnderEttOre { belop: abs, maneder: antall });
    }
    Ok((fra, til, trim(draft.beskrivelse.as_str())))
}

/// A department or project named on a plan must exist and be open
/// (`funnet`, its id when it does).
pub fn dimensjon(kode: Option<&str>, kind: &str, funnet: Option<u128>) -> (r: Result<Option<u128>, PeriodiseringFeil>)
    ensures
        kode is None ==> r == Ok::<Option<u128>, PeriodiseringFeil>(None),
        kode matches Some(k) ==> match funnet {
            Some(id) => r == Ok::<Option<u128>, PeriodiseringFeil>(Some(id)),
            None => r matches Err(PeriodiseringFeil::UkjentDimensjon { kind: ki, kode: ko }) && ki@ == kind@ && ko@ == k@,
        },
{
    match kode {
        None => Ok(None),
        Some(k) => match funnet {
            Some(id) => Ok(Some(id)),
            None => Err(PeriodiseringFeil::UkjentDimensjon { kind: kind.to_string(), kode: k.to_string() }),
        },
    }
}

/// A month of a plan is due when its posting date (`dato`) has come by
/// `through`, it is not posted yet, and the plan was not stopped on or
/// before that date.
pub open spec fn forfaller(dato: Dato, through: Dato, ferdig: bool, stoppet: Option<Dato>) -> bool {
    &&& senest(dato, through)
    &&& !ferdig
    &&& match stoppet {
        Some(s) => for_(dato, s),
        None => true,
    }
}

/// The month (first day) has been posted.
pub open spec fn ferdig_blant(ferdige: Seq<Dato>, period: Dato) -> bool {
    exists|j: int| 0 <= j < ferdige.len() && ferdige[j] == period
}

fn er_ferdig(ferdige: &Vec<Dato>, period: Dato) -> (r: bool)
    ensures
        r == ferdig_blant(ferdige@, period),
{
    let mut j: usize = 0;
    while j < ferdige.len()
        invariant
            j <= ferdige@.len(),
            forall|k: int| 0 <= k < j ==> ferdige@[k] != period,
        decreases ferdige@.len() - j,
    {
        if ferdige[j] == period {
            return true;
        }
        j = j + 1;
    }
    false
}

/// The indices, in order, of the due months among the first `n` of a
/// plan (`(month, posting date, amount)` each).
pub open spec fn forfalne_til(rader: Seq<(Dato, Dato, i64)>, ferdige: Seq<Dato>, stoppet: Option<Dato>, through: Dato, n: int) -> Seq<usize>
    decreases n,
{
    if n <= 0 {
        Seq::empty()
    } else if forfaller(rader[n - 1].1, through, ferdig_blant(ferdige, rader[n - 1].0), stoppet) {
        forfalne_til(rader, ferdige, stoppet, through, n - 1).push((n - 1) as usize)
    } else {
        forfalne_til(rader, ferdige, stoppet, through, n - 1)
    }
}

/// The months of a plan the run posts now.
pub fn forfalne_maneder(rader: &Vec<(Dato, Dato, i64)>, ferdige: &Vec<Dato>, stoppet: Option<Dato>, through: Dato) -> (r: Vec<usize>)
    ensures
        r@ == forfalne_til(rader@, ferdige@, stoppet, through, rader@.len() as int),
{
    let mut ut: Vec<usize> = Vec::new();
    let mut i: usize = 0;
    while i < rader.len()
        invariant
            i <= rader@.len(),
            ut@ == forfalne_til(rader@, ferdige@, stoppet, through, i as int),
        decreases rader@.len() - i,
    {
        let (period, dato, _) = rader[i];
        let ferdig = er_ferdig(ferdige, period);
        let stoppet_for = match stoppet {
            Some(s) => er_senest(s, dato),
            None => false,
        };
        if er_senest(dato, through) && !ferdig && !stoppet_for {
            ut.push(i);
        }
        i = i + 1;
    }
    ut
}

/// A month already posted is never posted again, and neither is one
/// that has not ended or that the plan was stopped before: every month
/// the run picks is due.
pub proof fn lov_ferdig_maned_bokfores_aldri_igjen(
    rader: Seq<(Dato, Dato, i64)>,
    ferdige: Seq<Dato>,
    stoppet: Option<Dato>,
    through: Dato,
    n: int,
    j: int,
)
    requires
        0 <= n <= rader.len() <= usize::MAX,
        0 <= j < forfalne_til(rader, ferdige, stoppet, through, n).len(),
    ensures
        ({
            let i = forfalne_til(rader, ferdige, stoppet, through, n)[j] as int;
            &&& 0 <= i < n
            &&& !ferdig_blant(ferdige, rader[i].0)
            &&& forfaller(rader[i].1, through, false, stoppet)
        }),
    decreases n,
{
    if n > 0 {
        let f = forfalne_til(rader, ferdige, stoppet, through, n - 1);
        if j < f.len() {
            lov_ferdig_maned_bokfores_aldri_igjen(rader, ferdige, stoppet, through, n - 1, j);
            if forfaller(rader[n - 1].1, through, ferdig_blant(ferdige, rader[n - 1].0), stoppet) {
                assert(forfalne_til(rader, ferdige, stoppet, through, n)[j] == f[j]);
            }
        } else {
            assert(((n - 1) as usize) as int == n - 1);
        }
    }
}

/// The line text of a month's posting.
pub open spec fn maanedstekst(nr: int, antall: int) -> Seq<char> {
    "Periodisering måned "@ + desimal(nr) + seq!['/'] + desimal(antall)
}

/// The voucher text of a month's posting: the plan's description and
/// the month as year-month with two month digits.
pub open spec fn periodetekst(beskrivelse: Seq<char>, period: Dato) -> Seq<char> {
    "Periodisering "@ + beskrivelse + seq![' '] + desimal(period.ar as int) + seq!['-'] + fylt(
        sifre(period.maned as nat),
        2,
    )
}

/// A line of a month's posting.
pub open spec fn periodelinje(konto: Seq<char>, belop: int, tekst: Seq<char>, avdeling: Option<Seq<char>>, prosjekt: Option<Seq<char>>, e: EntryDraft) -> bool {
    &&& e.account_number@ == konto
    &&& e.amount_ore == belop
    &&& e.vat_code is None
    &&& e.description matches Some(d) && d@ == tekst
    &&& e.party_no is None
    &&& crate::tekst::opt_syn(e.avdeling) == avdeling
    &&& crate::tekst::opt_syn(e.prosjekt) == prosjekt
    &&& e.valuta is None
}

/// One month's posting, month `nr` of `antall`: the part on the result
/// account (with the plan's dimensions) against the balance account.
pub fn periodiseringsbilag(
    voucher_date: Dato,
    period: Dato,
    belop_ore: i64,
    beskrivelse: &str,
    resultatkonto: &str,
    balansekonto: &str,
    avdeling: &Option<String>,
    prosjekt: &Option<String>,
    nr: usize,
    antall: usize,
) -> (r: VoucherDraft)
    requires
        belop_ore > i64::MIN,
    ensures
        r.journal_code@ == "GL"@,
        r.voucher_date == voucher_date,
        r.description@ == periodetekst(beskrivelse@, period),
        r.reverses is None,
        r.entries@.len() == 2,
        periodelinje(resultatkonto@, belop_ore as int, maanedstekst(nr as int, antall as int), crate::tekst::opt_syn(*avdeling), crate::tekst::opt_syn(*prosjekt), r.entries@[0]),
        periodelinje(balansekonto@, -belop_ore, maanedstekst(nr as int, antall as int), None, None, r.entries@[1]),
        balansert(r),
{
    let mut tekst = String::from_str("Periodisering måned ");
    let a = antall_tekst(nr);
    tekst.append(a.as_str());
    tekst.append("/");
    let b = antall_tekst(antall);
    tekst.append(b.as_str());
    proof {
        reveal_strlit("/");
        assert(tekst@ =~= maanedstekst(nr as int, antall as int));
    }
    let tekst2 = tekst.clone();
    assert(tekst2@ == tekst@);
    let e1 = EntryDraft {
        account_number: resultatkonto.to_string(),
        amount_ore: belop_ore,
        vat_code: None,
        description: Some(tekst),
        party_no: None,
        avdeling: kopi_valg(avdeling),
        prosjekt: kopi_valg(prosjekt),
        valuta: None,
    };
    let e2 = EntryDraft {
        account_number: balansekonto.to_string(),
        amount_ore: -belop_ore,
        vat_code: None,
        description: Some(tekst2),
        party_no: None,
        avdeling: None,
        prosjekt: None,
        valuta: None,
    };
    let mut d = String::from_str("Periodisering ");
    d.append(beskrivelse);
    d.append(" ");
    let ar = heltall_tekst(period.ar as i64);
    d.append(ar.as_str());
    d.append("-");
    let m = fyll(heltall_tekst(period.maned as i64), 2);
    d.append(m.as_str());
    proof {
        lemma_sum_to(e1, e2);
        reveal_strlit("/");
        reveal_strlit(" ");
        reveal_strlit("-");
        assert(desimal(period.maned as int) == sifre(period.maned as nat));
    }
    let entries = vec![e1, e2];
    proof {
        assert(entries@ =~= seq![e1, e2]);
    }
    VoucherDraft {
        journal_code: String::from_str("GL"),
        voucher_date,
        description: d,
        reverses: None,
        entries,
    }
}

/// Stopping a plan stops exactly an active one.
pub fn sjekk_stopp(rader: u64) -> (r: Result<(), PeriodiseringFeil>)
    ensures
        r is Ok <==> rader > 0,
        r matches Err(e) ==> e == PeriodiseringFeil::IngenAktivPlan,
{
    if rader > 0 {
        Ok(())
    } else {
        Err(PeriodiseringFeil::IngenAktivPlan)
    }
}

/// The run log is read only for a plan of the company.
pub fn sjekk_plan_finnes(finnes: bool) -> (r: Result<(), PeriodiseringFeil>)
    ensures
        r is Ok <==> finnes,
        r matches Err(e) ==> e == PeriodiseringFeil::UkjentPlan,
{
    if finnes {
        Ok(())
    } else {
        Err(PeriodiseringFeil::UkjentPlan)
    }
}

} // verus!
