//! Budgets: creating a version, which lines a draft accepts, and the
//! guards on freezing and comparing.

use crate::tekst::{er_blank, like, trimmet};
use vstd::prelude::*;

verus! {

/// A budget line, in presentation sign (income and cost both positive).
#[derive(Clone, Debug)]
pub struct BudgetLine {
    pub account_number: String,
    pub account_name: String,
    pub maned: i32,
    pub belop_ore: i64,
}

/// A budget line as entered.
#[derive(Clone, Debug)]
pub struct BudgetLineDraft {
    pub account_number: String,
    pub maned: i32,
    pub belop_ore: i64,
}

/// Why a budget action is refused.
#[derive(Clone, Debug, PartialEq, Eq)]
pub enum BudsjettFeil {
    UtenNavn,
    AarUtenforRekkevidde,
    Fastsatt,
    /// Line `linje` (0-based) has a month outside 1–12.
    UgyldigManed { linje: usize },
    /// Line `linje`'s account is not a result account (class 3–8).
    IkkeResultatkonto { linje: usize },
    UkjentBudsjett,
    FeilAar { budsjett_ar: i32 },
}

/// A new budget needs a name and a year in 1900–2999.
pub fn sjekk_nytt_budsjett(navn: &str, year: i32) -> (r: Result<(), BudsjettFeil>)
    ensures
        trimmet(navn@).len() == 0 ==> r == Err::<(), BudsjettFeil>(BudsjettFeil::UtenNavn),
        trimmet(navn@).len() > 0 && !(1900 <= year <= 2999) ==> r == Err::<(), BudsjettFeil>(BudsjettFeil::AarUtenforRekkevidde),
        r is Ok <==> trimmet(navn@).len() > 0 && 1900 <= year <= 2999,
{
    if er_blank(navn) {
        Err(BudsjettFeil::UtenNavn)
    } else if year < 1900 || year > 2999 {
        Err(BudsjettFeil::AarUtenforRekkevidde)
    } else {
        Ok(())
    }
}

/// The account class: the first digit of the account number.
pub open spec fn klasse(konto: Seq<char>) -> Option<int> {
    if konto.len() > 0 && '0' <= konto[0] <= '9' {
        Some(konto[0] as int - '0' as int)
    } else {
        None
    }
}

/// A result account: class 3 to 8.
pub open spec fn resultatkonto(konto: Seq<char>) -> bool {
    klasse(konto) matches Some(c) && 3 <= c <= 8
}

pub fn er_resultatkonto(konto: &str) -> (r: bool)
    ensures
        r == resultatkonto(konto@),
{
    konto.unicode_len() > 0 && '3' <= konto.get_char(0) && konto.get_char(0) <= '8'
}

/// The outcome of line `i` alone: `true` when it is stored (not zero).
pub open spec fn linjeutfall(l: BudgetLineDraft, i: int) -> Result<bool, BudsjettFeil> {
    if !(1 <= l.maned <= 12) {
        Err(BudsjettFeil::UgyldigManed { linje: i as usize })
    } else if !resultatkonto(l.account_number@) {
        Err(BudsjettFeil::IkkeResultatkonto { linje: i as usize })
    } else {
        Ok(l.belop_ore != 0)
    }
}

pub open spec fn forste_linjefeil(ls: Seq<BudgetLineDraft>, n: int) -> Option<BudsjettFeil>
    decreases n,
{
    if n <= 0 {
        None
    } else {
        match forste_linjefeil(ls, n - 1) {
            Some(e) => Some(e),
            None => match linjeutfall(ls[n - 1], n - 1) {
                Err(e) => Some(e),
                Ok(_) => None,
            },
        }
    }
}

proof fn lemma_linjefeil_stabil(ls: Seq<BudgetLineDraft>, m: int, n: int)
    requires
        0 <= m <= n,
        forste_linjefeil(ls, m) is Some,
    ensures
        forste_linjefeil(ls, n) == forste_linjefeil(ls, m),
    decreases n - m,
{
    if n > m {
        lemma_linjefeil_stabil(ls, m, n - 1);
    }
}

/// A draft's lines are replaced only while it is a draft (`utkast`);
/// each line needs a month 1–12 and a result account; a zero amount is
/// not stored. On success, for each line whether it is stored.
pub fn sjekk_linjer(status: &str, linjer: &Vec<BudgetLineDraft>) -> (r: Result<Vec<bool>, BudsjettFeil>)
    ensures
        status@ != "utkast"@ ==> r == Err::<Vec<bool>, BudsjettFeil>(BudsjettFeil::Fastsatt),
        status@ == "utkast"@ ==> match r {
            Err(e) => forste_linjefeil(linjer@, linjer@.len() as int) == Some(e),
            Ok(v) => forste_linjefeil(linjer@, linjer@.len() as int) is None && v@.len() == linjer@.len() && forall|i: int|
                0 <= i < v@.len() ==> linjeutfall(linjer@[i], i) == Ok::<bool, BudsjettFeil>(#[trigger] v@[i]),
        },
{
    if !like(status, "utkast") {
        return Err(BudsjettFeil::Fastsatt);
    }
    let mut v: Vec<bool> = Vec::new();
    let mut i: usize = 0;
    while i < linjer.len()
        invariant
            status@ == "utkast"@,
            i <= linjer@.len(),
            forste_linjefeil(linjer@, i as int) is None,
            v@.len() == i,
            forall|k: int| 0 <= k < i ==> linjeutfall(linjer@[k], k) == Ok::<bool, BudsjettFeil>(#[trigger] v@[k]),
        decreases linjer@.len() - i,
    {
        let l = &linjer[i];
        let utfall: Result<bool, BudsjettFeil> = if !(1 <= l.maned && l.maned <= 12) {
            Err(BudsjettFeil::UgyldigManed { linje: i })
        } else if !er_resultatkonto(l.account_number.as_str()) {
            Err(BudsjettFeil::IkkeResultatkonto { linje: i })
        } else {
            Ok(l.belop_ore != 0)
        };
        match utfall {
            Err(e) => {
                proof {
                    lemma_linjefeil_stabil(linjer@, i + 1, linjer@.len() as int);
                }
                return Err(e);
            },
            Ok(b) => {
                v.push(b);
            },
        }
        i = i + 1;
    }
    Ok(v)
}

/// Freezing and discarding must hit exactly one budget.
pub fn sjekk_endret(rader_endret: u64) -> (r: Result<(), BudsjettFeil>)
    ensures
        r is Ok <==> rader_endret == 1,
        r matches Err(e) ==> e == BudsjettFeil::UkjentBudsjett,
{
    if rader_endret == 1 {
        Ok(())
    } else {
        Err(BudsjettFeil::UkjentBudsjett)
    }
}

/// A variance report compares against a budget of its own year.
pub fn sjekk_sammenligning(budsjett_ar: Option<i32>, year: i32) -> (r: Result<(), BudsjettFeil>)
    ensures
        match budsjett_ar {
            Some(b) => if b == year { r is Ok } else { r == Err::<(), BudsjettFeil>(BudsjettFeil::FeilAar { budsjett_ar: b }) },
            None => r is Ok,
        },
{
    match budsjett_ar {
        Some(b) => if b == year {
            Ok(())
        } else {
            Err(BudsjettFeil::FeilAar { budsjett_ar: b })
        },
        None => Ok(()),
    }
}

/// A line seeded from last year's actuals is stored when not zero.
pub fn lagres(belop_ore: i64) -> (r: bool)
    ensures
        r == (belop_ore != 0),
{
    belop_ore != 0
}

} // verus!
