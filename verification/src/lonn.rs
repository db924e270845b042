//! Payroll runs: which employees a run may pay, the month's totals, and
//! the one voucher a run is posted as.

use crate::bilag::{EntryDraft, VoucherDraft, balansert, sum_linjer, lemma_sum_push};
use crate::dato::{Dato, for_, forste_i, gyldig, senest, siste_i, antall_dager, er_senest};
use crate::tekst::{desimal, heltall_tekst, like};
use vstd::prelude::*;
use vstd::string::*;

verus! {

/// How income tax is withheld for an employee.
#[derive(Clone, Copy, Debug, PartialEq, Eq, Structural)]
pub enum Trekk {
    /// A percentage, in basis points.
    Prosent(i64),
    /// A withholding table number.
    Tabell(i32),
    Ingen,
}

/// An employee as the run sees one.
#[derive(Clone, Debug)]
pub struct Ansatt {
    pub id: u128,
    pub navn: String,
    pub ansatt_fra: Dato,
    pub ansatt_til: Option<Dato>,
    pub manedslonn_ore: Option<i64>,
    pub trekk_type: String,
    pub trekk_prosent_bp: Option<i32>,
    pub trekk_tabell: Option<i32>,
    pub feriepenger_bp: i32,
}

/// The withholding an employee's settings call for.
pub open spec fn trekk_av(a: Ansatt) -> Trekk {
    if a.trekk_type@ == "prosent"@ {
        Trekk::Prosent(match a.trekk_prosent_bp {
            Some(bp) => bp as i64,
            None => 0,
        })
    } else if a.trekk_type@ == "tabell"@ {
        Trekk::Tabell(match a.trekk_tabell {
            Some(t) => t,
            None => 0,
        })
    } else {
        Trekk::Ingen
    }
}

/// The withholding of an employee: a percentage, a table, or none.
pub fn trekk(a: &Ansatt) -> (r: Trekk)
    ensures
        r == trekk_av(*a),
{
    if like(a.trekk_type.as_str(), "prosent") {
        Trekk::Prosent(
            match a.trekk_prosent_bp {
                Some(bp) => bp as i64,
                None => 0,
            },
        )
    } else if like(a.trekk_type.as_str(), "tabell") {
        Trekk::Tabell(
            match a.trekk_tabell {
                Some(t) => t,
                None => 0,
            },
        )
    } else {
        Trekk::Ingen
    }
}

/// Employed at some point of the month: started by its last day and not
/// left before its first.
pub open spec fn ansatt_i_maned(a: Ansatt, start: Dato, slutt: Dato) -> bool {
    senest(a.ansatt_fra, slutt) && match a.ansatt_til {
        Some(t) => senest(start, t),
        None => true,
    }
}

pub fn ansatt_i(a: &Ansatt, maned_slutt: Dato, maned_start: Dato) -> (r: bool)
    ensures
        r == ansatt_i_maned(*a, maned_start, maned_slutt),
        a.ansatt_til is None && senest(a.ansatt_fra, maned_slutt) ==> r,
        (a.ansatt_til matches Some(t) && senest(maned_start, t)) && senest(a.ansatt_fra, maned_slutt) ==> r,
        for_(maned_slutt, a.ansatt_fra) ==> !r,
        (a.ansatt_til matches Some(t) && for_(t, maned_start)) ==> !r,
{
    proof {
        lov_ansatt_fra_start_i_maneden(*a, maned_start, maned_slutt);
        lov_ikke_ansatt_utenfor_maneden(*a, maned_start, maned_slutt);
    }
    er_senest(a.ansatt_fra, maned_slutt) && match a.ansatt_til {
        Some(t) => er_senest(maned_start, t),
        None => true,
    }
}

/// Law: someone who starts on or before the month's last day and has not
/// left before its first day is in the month; in particular a new hire
/// is paid for the month they start in, whatever day that is.
pub proof fn lov_ansatt_fra_start_i_maneden(a: Ansatt, start: Dato, slutt: Dato)
    ensures
        a.ansatt_til is None && senest(a.ansatt_fra, slutt) ==> ansatt_i_maned(a, start, slutt),
        (a.ansatt_til matches Some(t) && senest(start, t)) && senest(a.ansatt_fra, slutt) ==> ansatt_i_maned(
            a,
            start,
            slutt,
        ),
        a.ansatt_til is None && senest(start, a.ansatt_fra) && senest(a.ansatt_fra, slutt) ==> ansatt_i_maned(
            a,
            start,
            slutt,
        ),
{
}

/// Law: someone who starts after the month's last day, or left before
/// its first day, is not in the month.
pub proof fn lov_ikke_ansatt_utenfor_maneden(a: Ansatt, start: Dato, slutt: Dato)
    ensures
        for_(slutt, a.ansatt_fra) ==> !ansatt_i_maned(a, start, slutt),
        (a.ansatt_til matches Some(t) && for_(t, start)) ==> !ansatt_i_maned(a, start, slutt),
{
}

/// A new employee's withholding type must be one the run understands.
pub open spec fn kjent_trekktype(t: Seq<char>) -> bool {
    t == "prosent"@ || t == "tabell"@ || t == "ingen"@
}

/// Why a payroll run (or an employee) is refused.
#[derive(Clone, Debug, PartialEq, Eq)]
pub enum LonnFeil {
    UgyldigFodselsnummer,
    UkjentTrekktype,
    UgyldigManed,
    IngenAnsatte,
    /// Post `post` (0-based) names no known employee.
    UkjentAnsatt { post: usize },
    /// The employee was not employed in the month.
    IkkeAnsatt { post: usize },
    /// Neither a monthly salary nor an amount for this post.
    UtenLonn { post: usize },
    NegativBrutto { post: usize },
    /// The zone is not an employer's contribution zone.
    UkjentSone,
    /// The zone's rate cannot be applied flat (it has an allowance).
    SoneAvvist,
    /// No contribution rate for the zone on the payout day.
    ManglerSats,
    /// The run's lines do not balance.
    Ubalansert,
    /// Several runs for one month.
    FlereKjoringer,
}

/// A new employee is accepted when the national id checks out and the
/// withholding type is known.
pub fn sjekk_ny_ansatt(fnr_gyldig: bool, trekk_type: &str) -> (r: Result<(), LonnFeil>)
    ensures
        !fnr_gyldig ==> r == Err::<(), LonnFeil>(LonnFeil::UgyldigFodselsnummer),
        fnr_gyldig && !kjent_trekktype(trekk_type@) ==> r == Err::<(), LonnFeil>(LonnFeil::UkjentTrekktype),
        fnr_gyldig && kjent_trekktype(trekk_type@) ==> r is Ok,
{
    if !fnr_gyldig {
        return Err(LonnFeil::UgyldigFodselsnummer);
    }
    if like(trekk_type, "prosent") || like(trekk_type, "tabell") || like(trekk_type, "ingen") {
        Ok(())
    } else {
        Err(LonnFeil::UkjentTrekktype)
    }
}

/// What one employee gets this month.
#[derive(Clone, Debug)]
pub struct Lonnspost {
    pub employee_id: u128,
    /// Ordinary pay; `None` uses the employee's monthly salary.
    pub brutto_ore: Option<i64>,
    /// Holiday pay paid out this month.
    pub feriepenger_ore: i64,
}

/// Index of the first employee with the id, or -1.
pub open spec fn ansatt_indeks(ansatte: Seq<Ansatt>, id: u128, i: int) -> int
    decreases ansatte.len() - i,
{
    if i < 0 || i >= ansatte.len() {
        -1
    } else if ansatte[i].id == id {
        i
    } else {
        ansatt_indeks(ansatte, id, i + 1)
    }
}

/// A post resolved: which employee, and the gross pay.
#[derive(Clone, Copy, Debug)]
pub struct Lonnsgrunnlag {
    pub ansatt: usize,
    pub brutto_ore: i64,
}

/// The outcome for post `p` alone.
pub open spec fn post_utfall(p: Lonnspost, k: int, ansatte: Seq<Ansatt>, start: Dato, slutt: Dato) -> Result<(int, int), LonnFeil> {
    let i = ansatt_indeks(ansatte, p.employee_id, 0);
    if i < 0 {
        Err(LonnFeil::UkjentAnsatt { post: k as usize })
    } else if !ansatt_i_maned(ansatte[i], start, slutt) {
        Err(LonnFeil::IkkeAnsatt { post: k as usize })
    } else {
        match (match p.brutto_ore {
            Some(b) => Some(b),
            None => ansatte[i].manedslonn_ore,
        }) {
            None => Err(LonnFeil::UtenLonn { post: k as usize }),
            Some(b) => if b < 0 {
                Err(LonnFeil::NegativBrutto { post: k as usize })
            } else {
                Ok((i, b as int))
            },
        }
    }
}

/// The first failing post among the first `n`.
pub open spec fn forste_postfeil(ps: Seq<Lonnspost>, ansatte: Seq<Ansatt>, start: Dato, slutt: Dato, n: int) -> Option<LonnFeil>
    decreases n,
{
    if n <= 0 {
        None
    } else {
        match forste_postfeil(ps, ansatte, start, slutt, n - 1) {
            Some(e) => Some(e),
            None => match post_utfall(ps[n - 1], n - 1, ansatte, start, slutt) {
                Err(e) => Some(e),
                Ok(_) => None,
            },
        }
    }
}

proof fn lemma_ansatt_indeks(ansatte: Seq<Ansatt>, id: u128, i: int)
    requires
        0 <= i <= ansatte.len(),
    ensures
        ansatt_indeks(ansatte, id, i) == -1 || (i <= ansatt_indeks(ansatte, id, i) < ansatte.len()
            && ansatte[ansatt_indeks(ansatte, id, i)].id == id),
        ansatt_indeks(ansatte, id, i) == -1 ==> forall|j: int| i <= j < ansatte.len() ==> #[trigger] ansatte[j].id != id,
        forall|j: int| i <= j < ansatt_indeks(ansatte, id, i) ==> #[trigger] ansatte[j].id != id,
    decreases ansatte.len() - i,
{
    if i < ansatte.len() {
        lemma_ansatt_indeks(ansatte, id, i + 1);
    }
}

proof fn lemma_postfeil_stabil(ps: Seq<Lonnspost>, ansatte: Seq<Ansatt>, start: Dato, slutt: Dato, m: int, n: int)
    requires
        0 <= m <= n,
        forste_postfeil(ps, ansatte, start, slutt, m) is Some,
    ensures
        forste_postfeil(ps, ansatte, start, slutt, n) == forste_postfeil(ps, ansatte, start, slutt, m),
    decreases n - m,
{
    if n > m {
        lemma_postfeil_stabil(ps, ansatte, start, slutt, m, n - 1);
    }
}

/// Resolves a run's posts against the employee register for the month
/// `start`..`slutt`: each post's employee (the first with its id), who
/// must have been employed in the month, and its gross pay (the amount
/// given, else the monthly salary), which must not be negative. The first
/// post that fails decides the error.
pub fn lonnsgrunnlag(poster: &Vec<Lonnspost>, ansatte: &Vec<Ansatt>, start: Dato, slutt: Dato) -> (r: Result<Vec<Lonnsgrunnlag>, LonnFeil>)
    ensures
        match r {
            Err(e) => forste_postfeil(poster@, ansatte@, start, slutt, poster@.len() as int) == Some(e),
            Ok(g) => forste_postfeil(poster@, ansatte@, start, slutt, poster@.len() as int) is None
                && g@.len() == poster@.len() && forall|k: int| 0 <= k < g@.len() ==> post_utfall(
                poster@[k],
                k,
                ansatte@,
                start,
                slutt,
            ) == Ok::<(int, int), LonnFeil>((#[trigger] g@[k].ansatt as int, g@[k].brutto_ore as int)),
        },
{
    let mut g: Vec<Lonnsgrunnlag> = Vec::new();
    let mut k: usize = 0;
    while k < poster.len()
        invariant
            k <= poster@.len(),
            forste_postfeil(poster@, ansatte@, start, slutt, k as int) is None,
            g@.len() == k,
            forall|j: int| 0 <= j < k ==> post_utfall(poster@[j], j, ansatte@, start, slutt) == Ok::<
                (int, int),
                LonnFeil,
            >((#[trigger] g@[j].ansatt as int, g@[j].brutto_ore as int)),
        decreases poster@.len() - k,
    {
        let p = &poster[k];
        proof {
            lemma_ansatt_indeks(ansatte@, p.employee_id, 0);
        }
        let mut i: usize = 0;
        while i < ansatte.len() && ansatte[i].id != p.employee_id
            invariant
                i <= ansatte@.len(),
                ansatt_indeks(ansatte@, p.employee_id, 0) == ansatt_indeks(ansatte@, p.employee_id, i as int),
            decreases ansatte@.len() - i,
        {
            i = i + 1;
        }
        let utfall: Result<Lonnsgrunnlag, LonnFeil> = if i == ansatte.len() {
            Err(LonnFeil::UkjentAnsatt { post: k })
        } else if !ansatt_i(&ansatte[i], slutt, start) {
            Err(LonnFeil::IkkeAnsatt { post: k })
        } else {
            let b = match p.brutto_ore {
                Some(b) => Some(b),
                None => ansatte[i].manedslonn_ore,
            };
            match b {
                None => Err(LonnFeil::UtenLonn { post: k }),
                Some(b) => if b < 0 {
                    Err(LonnFeil::NegativBrutto { post: k })
                } else {
                    Ok(Lonnsgrunnlag { ansatt: i, brutto_ore: b })
                },
            }
        };
        match utfall {
            Err(e) => {
                assert(forste_postfeil(poster@, ansatte@, start, slutt, k + 1) == Some(e));
                proof {
                    lemma_postfeil_stabil(poster@, ansatte@, start, slutt, k + 1, poster@.len() as int);
                }
                return Err(e);
            },
            Ok(x) => {
                g.push(x);
            },
        }
        k = k + 1;
    }
    Ok(g)
}

/// First and last day of a payroll month; `None` when the month is not
/// 1–12 or the year is outside the calendar.
pub fn maned_grenser(ar: i32, maned: u32) -> (r: Option<(Dato, Dato)>)
    ensures
        r is Some <==> (1 <= maned <= 12 && gyldig(forste_i(ar, maned))),
        r matches Some((s, e)) ==> s == forste_i(ar, maned) && e == siste_i(ar, maned),
{
    if maned < 1 || maned > 12 || ar < -262143 || ar > 262142 {
        return None;
    }
    Some((Dato { ar, maned, dag: 1 }, Dato { ar, maned, dag: antall_dager(ar, maned) }))
}

} // verus!

verus! {

/// One employee's pay for the month, as computed for the run.
#[derive(Clone, Debug)]
pub struct Lonnsberegning {
    pub brutto_ore: i64,
    pub feriepenger_ore: i64,
    pub trekkgrunnlag_ore: i64,
    pub forskuddstrekk_ore: i64,
    pub netto_ore: i64,
    pub halv_trekk: bool,
}

/// A run line: the employee, the computation, the holiday-pay accrual
/// and the employer's contribution on what is paid out.
#[derive(Clone, Debug)]
pub struct Lonnslinje {
    pub employee_id: u128,
    pub navn: String,
    pub beregning: Lonnsberegning,
    pub avsetning_ore: i64,
    pub aga_ore: i64,
}

/// The month's totals.
#[derive(Clone, Copy, Debug, PartialEq, Eq, Structural)]
pub struct Lonnssum {
    pub brutto_ore: i64,
    pub feriepenger_utbetalt_ore: i64,
    pub forskuddstrekk_ore: i64,
    pub netto_ore: i64,
    pub feriepengeavsetning_ore: i64,
    pub aga_ore: i64,
    pub aga_feriepenger_ore: i64,
}

/// Totals of the first `n` lines: gross, holiday pay paid, withholding,
/// net, holiday-pay accrual, employer's contribution.
pub open spec fn lonnssum_til(ls: Seq<Lonnslinje>, n: int) -> (int, int, int, int, int, int)
    decreases n,
{
    if n <= 0 {
        (0, 0, 0, 0, 0, 0)
    } else {
        let s = lonnssum_til(ls, n - 1);
        let l = ls[n - 1];
        (
            s.0 + l.beregning.brutto_ore,
            s.1 + l.beregning.feriepenger_ore,
            s.2 + l.beregning.forskuddstrekk_ore,
            s.3 + l.beregning.netto_ore,
            s.4 + l.avsetning_ore,
            s.5 + l.aga_ore,
        )
    }
}

pub open spec fn i64_tall(x: int) -> bool {
    i64::MIN <= x <= i64::MAX
}

/// Every running total of the lines fits in an i64.
pub open spec fn lonnssum_passer(ls: Seq<Lonnslinje>) -> bool {
    forall|n: int| 0 <= n <= ls.len() ==> {
        let s = #[trigger] lonnssum_til(ls, n);
        i64_tall(s.0) && i64_tall(s.1) && i64_tall(s.2) && i64_tall(s.3) && i64_tall(s.4) && i64_tall(s.5)
    }
}

/// Law: a post is accepted only for the first employee with its id, who
/// is in the month, at the post's own amount when it gives one and the
/// monthly salary otherwise, never negative; a post for no employee, or
/// with a negative amount, is refused.
pub proof fn lov_post_utfall(p: Lonnspost, k: int, ansatte: Seq<Ansatt>, start: Dato, slutt: Dato)
    ensures
        post_utfall(p, k, ansatte, start, slutt) matches Ok((i, b)) ==> {
            &&& 0 <= i < ansatte.len()
            &&& ansatte[i].id == p.employee_id
            &&& forall|j: int| 0 <= j < i ==> #[trigger] ansatte[j].id != p.employee_id
            &&& senest(ansatte[i].ansatt_fra, slutt)
            &&& (ansatte[i].ansatt_til matches Some(t) ==> senest(start, t))
            &&& b >= 0
            &&& (p.brutto_ore matches Some(x) ==> b == x)
            &&& (p.brutto_ore is None ==> ansatte[i].manedslonn_ore == Some(b as i64))
        },
        (forall|j: int| 0 <= j < ansatte.len() ==> #[trigger] ansatte[j].id != p.employee_id) ==> post_utfall(
            p,
            k,
            ansatte,
            start,
            slutt,
        ) == Err::<(int, int), LonnFeil>(LonnFeil::UkjentAnsatt { post: k as usize }),
        (p.brutto_ore matches Some(x) && x < 0) ==> post_utfall(p, k, ansatte, start, slutt) is Err,
{
    lemma_ansatt_indeks(ansatte, p.employee_id, 0);
    let i = ansatt_indeks(ansatte, p.employee_id, 0);
    if i >= 0 {
        assert(ansatte[i].id == p.employee_id);
    }
}

/// Law: the totals of a single line are that line's amounts.
pub proof fn lov_lonnssum_en_linje(l: Lonnslinje)
    ensures
        lonnssum_til(seq![l], 1) == (
            l.beregning.brutto_ore as int,
            l.beregning.feriepenger_ore as int,
            l.beregning.forskuddstrekk_ore as int,
            l.beregning.netto_ore as int,
            l.avsetning_ore as int,
            l.aga_ore as int,
        ),
{
    assert(lonnssum_til(seq![l], 0) == (0int, 0int, 0int, 0int, 0int, 0int));
}

proof fn lemma_lonnssum_prefiks(a: Seq<Lonnslinje>, b: Seq<Lonnslinje>, n: int)
    requires
        0 <= n <= a.len(),
    ensures
        lonnssum_til(a + b, n) == lonnssum_til(a, n),
    decreases n,
{
    if n > 0 {
        lemma_lonnssum_prefiks(a, b, n - 1);
        assert((a + b)[n - 1] == a[n - 1]);
    }
}

/// Law: the totals of two runs of lines put together are the totals of
/// the one plus those of the other, amount by amount.
pub proof fn lov_lonnssum_sammensatt(a: Seq<Lonnslinje>, b: Seq<Lonnslinje>)
    ensures
        ({
            let (x, y, z) = (
                lonnssum_til(a + b, (a.len() + b.len()) as int),
                lonnssum_til(a, a.len() as int),
                lonnssum_til(b, b.len() as int),
            );
            &&& x.0 == y.0 + z.0
            &&& x.1 == y.1 + z.1
            &&& x.2 == y.2 + z.2
            &&& x.3 == y.3 + z.3
            &&& x.4 == y.4 + z.4
            &&& x.5 == y.5 + z.5
        }),
    decreases b.len(),
{
    if b.len() == 0 {
        assert(a + b =~= a);
    } else {
        let c = b.drop_last();
        lov_lonnssum_sammensatt(a, c);
        assert(a + b =~= (a + c).push(b.last()));
        assert(b =~= c.push(b.last()));
        lemma_lonnssum_prefiks(a + c, seq![b.last()], (a.len() + c.len()) as int);
        lemma_lonnssum_prefiks(c, seq![b.last()], c.len() as int);
        assert((a + c).push(b.last()) =~= (a + c) + seq![b.last()]);
        assert(c.push(b.last()) =~= c + seq![b.last()]);
    }
}

/// The month's totals.
pub fn summer_lonn(ls: &Vec<Lonnslinje>) -> (r: Lonnssum)
    requires
        lonnssum_passer(ls@),
    ensures
        (r.brutto_ore as int, r.feriepenger_utbetalt_ore as int, r.forskuddstrekk_ore as int, r.netto_ore as int,
            r.feriepengeavsetning_ore as int, r.aga_ore as int) == lonnssum_til(ls@, ls@.len() as int),
        r.aga_feriepenger_ore == 0,
{
    let mut s = Lonnssum {
        brutto_ore: 0,
        feriepenger_utbetalt_ore: 0,
        forskuddstrekk_ore: 0,
        netto_ore: 0,
        feriepengeavsetning_ore: 0,
        aga_ore: 0,
        aga_feriepenger_ore: 0,
    };
    let mut i: usize = 0;
    while i < ls.len()
        invariant
            i <= ls@.len(),
            lonnssum_passer(ls@),
            (s.brutto_ore as int, s.feriepenger_utbetalt_ore as int, s.forskuddstrekk_ore as int, s.netto_ore as int,
                s.feriepengeavsetning_ore as int, s.aga_ore as int) == lonnssum_til(ls@, i as int),
            s.aga_feriepenger_ore == 0,
        decreases ls@.len() - i,
    {
        let ghost neste = lonnssum_til(ls@, i + 1);
        assert(i64_tall(neste.0) && i64_tall(neste.1) && i64_tall(neste.2) && i64_tall(neste.3)
            && i64_tall(neste.4) && i64_tall(neste.5));
        let l = &ls[i];
        s.brutto_ore = s.brutto_ore + l.beregning.brutto_ore;
        s.feriepenger_utbetalt_ore = s.feriepenger_utbetalt_ore + l.beregning.feriepenger_ore;
        s.forskuddstrekk_ore = s.forskuddstrekk_ore + l.beregning.forskuddstrekk_ore;
        s.netto_ore = s.netto_ore + l.beregning.netto_ore;
        s.feriepengeavsetning_ore = s.feriepengeavsetning_ore + l.avsetning_ore;
        s.aga_ore = s.aga_ore + l.aga_ore;
        i = i + 1;
    }
    s
}

/// A month 1–12 as two digits.
pub open spec fn to_sifre(m: int) -> Seq<char> {
    if m < 10 {
        seq!['0'] + desimal(m)
    } else {
        desimal(m)
    }
}

/// "MM/YYYY".
pub open spec fn periodetekst(ar: int, maned: int) -> Seq<char> {
    to_sifre(maned) + "/"@ + desimal(ar)
}

fn periode(ar: i32, maned: u32) -> (r: String)
    requires
        1 <= maned <= 12,
    ensures
        r@ == periodetekst(ar as int, maned as int),
{
    let mut s = if maned < 10 {
        String::from_str("0")
    } else {
        String::new()
    };
    let m = heltall_tekst(maned as i64);
    s.append(m.as_str());
    s.append("/");
    let a = heltall_tekst(ar as i64);
    s.append(a.as_str());
    proof {
        if maned < 10 {
            reveal_strlit("0");
            assert("0"@ =~= seq!['0']);
        }
    }
    s
}

/// A payroll line: account, amount and text.
pub open spec fn lonnspost(e: EntryDraft, konto: Seq<char>, belop: int, tekst: Seq<char>) -> bool {
    crate::bilag::enkel_linje(konto, belop, Some(tekst), e)
}

/// The run's voucher entries, in order: wages (5000), withholding
/// (2600), net pay owed (2930); holiday pay paid out draws down its
/// liability (2940); the accrual (5090 against 2940) and the employer's
/// contribution (5400 against 2770) when not zero.
pub open spec fn lonnsposter(s: Lonnssum, ar: int, maned: int, sone: Seq<char>) -> Seq<(Seq<char>, int, Seq<char>)> {
    let grunn = seq![
        ("5000"@, s.brutto_ore as int, "Lønn "@ + periodetekst(ar, maned)),
        ("2600"@, -s.forskuddstrekk_ore, "Forskuddstrekk"@),
        ("2930"@, -s.netto_ore, "Netto til utbetaling"@),
    ];
    let ferie = if s.feriepenger_utbetalt_ore != 0 {
        grunn.push(("2940"@, s.feriepenger_utbetalt_ore as int, "Utbetalte feriepenger"@))
    } else {
        grunn
    };
    let avsatt = if s.feriepengeavsetning_ore != 0 {
        ferie.push(("5090"@, s.feriepengeavsetning_ore as int, "Feriepengeavsetning"@)).push(
            ("2940"@, -s.feriepengeavsetning_ore, "Avsatte feriepenger"@),
        )
    } else {
        ferie
    };
    if s.aga_ore != 0 {
        avsatt.push(("5400"@, s.aga_ore as int, "Arbeidsgiveravgift sone "@ + sone)).push(
            ("2770"@, -s.aga_ore, "Skyldig arbeidsgiveravgift"@),
        )
    } else {
        avsatt
    }
}

/// The run balances: what is paid (gross and holiday pay) equals what is
/// withheld and what is owed as net.
pub open spec fn lonn_balanserer(s: Lonnssum) -> bool {
    s.brutto_ore + s.feriepenger_utbetalt_ore - s.forskuddstrekk_ore - s.netto_ore == 0
}

fn legg_til(entries: &mut Vec<EntryDraft>, konto: &str, belop: i64, tekst: String)
    ensures
        final(entries)@.len() == old(entries)@.len() + 1,
        forall|i: int| 0 <= i < old(entries)@.len() ==> final(entries)@[i] == old(entries)@[i],
        lonnspost(final(entries)@[old(entries)@.len() as int], konto@, belop as int, tekst@),
        sum_linjer(final(entries)@) == sum_linjer(old(entries)@) + belop,
{
    let e = crate::bilag::linje(konto, belop, Some(tekst));
    proof {
        lemma_sum_push(entries@, e);
    }
    entries.push(e);
}

/// The voucher a payroll run is posted as (journal GL, dated the payout
/// day), refused when its lines do not balance.
pub fn lonnsbilag(ar: i32, maned: u32, utbetalt: Dato, sone: &str, s: &Lonnssum) -> (r: Result<VoucherDraft, LonnFeil>)
    requires
        1 <= maned <= 12,
        s.forskuddstrekk_ore != i64::MIN,
        s.netto_ore != i64::MIN,
        s.feriepengeavsetning_ore != i64::MIN,
        s.aga_ore != i64::MIN,
    ensures
        r is Ok <==> lonn_balanserer(*s),
        r == Err::<VoucherDraft, LonnFeil>(LonnFeil::Ubalansert) <==> !lonn_balanserer(*s),
        r matches Ok(v) ==> {
            &&& v.journal_code@ == "GL"@
            &&& v.voucher_date == utbetalt
            &&& v.description@ == "Lønnskjøring "@ + periodetekst(ar as int, maned as int)
            &&& v.reverses is None
            &&& v.entries@.len() == lonnsposter(*s, ar as int, maned as int, sone@).len()
            &&& forall|i: int| 0 <= i < v.entries@.len() ==> #[trigger] lonnspost(
                v.entries@[i],
                lonnsposter(*s, ar as int, maned as int, sone@)[i].0,
                lonnsposter(*s, ar as int, maned as int, sone@)[i].1,
                lonnsposter(*s, ar as int, maned as int, sone@)[i].2,
            )
            &&& balansert(v)
        },
{
    let ghost ps = lonnsposter(*s, ar as int, maned as int, sone@);
    let p = periode(ar, maned);
    let mut lonn_tekst = String::from_str("Lønn ");
    lonn_tekst.append(p.as_str());
    let mut e: Vec<EntryDraft> = Vec::new();
    legg_til(&mut e, "5000", s.brutto_ore, lonn_tekst);
    legg_til(&mut e, "2600", -s.forskuddstrekk_ore, String::from_str("Forskuddstrekk"));
    legg_til(&mut e, "2930", -s.netto_ore, String::from_str("Netto til utbetaling"));
    if s.feriepenger_utbetalt_ore != 0 {
        legg_til(&mut e, "2940", s.feriepenger_utbetalt_ore, String::from_str("Utbetalte feriepenger"));
    }
    if s.feriepengeavsetning_ore != 0 {
        legg_til(&mut e, "5090", s.feriepengeavsetning_ore, String::from_str("Feriepengeavsetning"));
        legg_til(&mut e, "2940", -s.feriepengeavsetning_ore, String::from_str("Avsatte feriepenger"));
    }
    if s.aga_ore != 0 {
        let mut aga_tekst = String::from_str("Arbeidsgiveravgift sone ");
        aga_tekst.append(sone);
        legg_til(&mut e, "5400", s.aga_ore, aga_tekst);
        legg_til(&mut e, "2770", -s.aga_ore, String::from_str("Skyldig arbeidsgiveravgift"));
    }
    assert(e@.len() == ps.len());
    assert(forall|i: int| 0 <= i < e@.len() ==> #[trigger] lonnspost(e@[i], ps[i].0, ps[i].1, ps[i].2));
    let sum = crate::bilag::sum_av(&e);
    if sum != 0 {
        return Err(LonnFeil::Ubalansert);
    }
    let mut tekst = String::from_str("Lønnskjøring ");
    tekst.append(p.as_str());
    Ok(VoucherDraft {
        journal_code: String::from_str("GL"),
        voucher_date: utbetalt,
        description: tekst,
        reverses: None,
        entries: e,
    })
}

/// The checks before a run computes anything, in order: the month is
/// 1–12; there is someone to pay; the zone is known; its rate can be
/// applied flat; a rate exists on the payout day. The zone and rate
/// facts come from the rate register.
pub fn sjekk_kjoring(maned: u32, antall_poster: usize, sone_kjent: bool, sone_flat: bool, sats_finnes: bool) -> (r: Result<(), LonnFeil>)
    ensures
        !(1 <= maned <= 12) ==> r == Err::<(), LonnFeil>(LonnFeil::UgyldigManed),
        1 <= maned <= 12 && antall_poster == 0 ==> r == Err::<(), LonnFeil>(LonnFeil::IngenAnsatte),
        1 <= maned <= 12 && antall_poster > 0 && !sone_kjent ==> r == Err::<(), LonnFeil>(LonnFeil::UkjentSone),
        1 <= maned <= 12 && antall_poster > 0 && sone_kjent && !sone_flat ==> r == Err::<(), LonnFeil>(LonnFeil::SoneAvvist),
        1 <= maned <= 12 && antall_poster > 0 && sone_kjent && sone_flat && !sats_finnes ==> r == Err::<(), LonnFeil>(LonnFeil::ManglerSats),
        r is Ok <==> (1 <= maned <= 12 && antall_poster > 0 && sone_kjent && sone_flat && sats_finnes),
{
    if maned < 1 || maned > 12 {
        Err(LonnFeil::UgyldigManed)
    } else if antall_poster == 0 {
        Err(LonnFeil::IngenAnsatte)
    } else if !sone_kjent {
        Err(LonnFeil::UkjentSone)
    } else if !sone_flat {
        Err(LonnFeil::SoneAvvist)
    } else if !sats_finnes {
        Err(LonnFeil::ManglerSats)
    } else {
        Ok(())
    }
}

/// Whether the month has already run; more than one run for a month is
/// an inconsistency.
pub fn kjort_maned(antall: i64) -> (r: Result<bool, LonnFeil>)
    ensures
        antall > 1 ==> r == Err::<bool, LonnFeil>(LonnFeil::FlereKjoringer),
        antall <= 1 ==> r == Ok::<bool, LonnFeil>(antall == 1),
{
    if antall > 1 {
        Err(LonnFeil::FlereKjoringer)
    } else {
        Ok(antall == 1)
    }
}


/// The bases of a line's two employer costs. The employer's contribution
/// falls on what is paid out this month, the gross pay and any holiday
/// pay paid; the holiday-pay accrual is earned on the gross pay alone, as
/// holiday pay earns no holiday pay. Returns (contribution base, accrual
/// base).
pub fn avgiftsgrunnlag(brutto_ore: i64, feriepenger_ore: i64) -> (r: (i64, i64))
    requires
        i64::MIN <= brutto_ore + feriepenger_ore <= i64::MAX,
    ensures
        r.0 == brutto_ore + feriepenger_ore,
        r.1 == brutto_ore,
{
    (brutto_ore + feriepenger_ore, brutto_ore)
}

} // verus!
