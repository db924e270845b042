//! The day's till settlement: what the input must hold, the rate a sale
//! line is posted at, and the difference between the cash registered
//! and the cash counted.

use crate::dato::Dato;
use crate::tekst::like;
use vstd::prelude::*;

verus! {

/// What the caller sends: gross per income account and VAT code, the
/// payment means, and optionally the cash account and what was counted
/// in it.
#[derive(Clone, Debug)]
pub struct DagsoppgjorInn {
    pub dato: Dato,
    pub z_nummer: String,
    /// (income account, VAT code, gross in øre).
    pub salg: Vec<(String, Option<String>, i64)>,
    /// (account, amount in øre).
    pub betaling: Vec<(String, i64)>,
    pub mva_konto: String,
    pub kontantkonto: Option<String>,
    pub opptalt_kontant_ore: Option<i64>,
    pub differansekonto: String,
}

/// The posted settlement.
#[derive(Clone, Copy, Debug)]
pub struct BokfortOppgjor {
    /// (fiscal year, voucher number) of the settlement.
    pub voucher: (i32, i64),
    /// The difference voucher, when there was a difference at all.
    pub differanse: Option<(i32, i64)>,
    pub differanse_ore: i64,
}

/// Why a settlement is refused.
#[derive(Clone, Copy, Debug, PartialEq, Eq, Structural)]
pub enum KassaFeil {
    /// A counted amount without a cash account, or the other way round.
    KontantkontoOgOpptaltHverForSeg,
    /// A sale line's VAT code has no rate on the day.
    IngenSats,
}

/// The cash account and the counted amount come together or not at all:
/// a counted amount without an account cannot be posted anywhere.
pub fn sjekk_dagsoppgjor(inn: &DagsoppgjorInn) -> (r: Result<(), KassaFeil>)
    ensures
        r is Ok <==> (inn.kontantkonto is Some) == (inn.opptalt_kontant_ore is Some),
        r matches Err(e) ==> e == KassaFeil::KontantkontoOgOpptaltHverForSeg,
{
    if inn.kontantkonto.is_some() == inn.opptalt_kontant_ore.is_some() {
        Ok(())
    } else {
        Err(KassaFeil::KontantkontoOgOpptaltHverForSeg)
    }
}

/// The rate a sale line is posted at: none without a VAT code, else the
/// rate that applied on the day (`funnet`, looked up by the caller).
pub fn salgssats(vat_code: &Option<String>, funnet: Option<i64>) -> (r: Result<i64, KassaFeil>)
    ensures
        vat_code is None ==> r == Ok::<i64, KassaFeil>(0),
        vat_code is Some ==> r == (match funnet {
            Some(s) => Ok(s),
            None => Err(KassaFeil::IngenSats),
        }),
{
    match vat_code {
        None => Ok(0),
        Some(_) => match funnet {
            Some(s) => Ok(s),
            None => Err(KassaFeil::IngenSats),
        },
    }
}

/// The amount registered on the cash account among the first `n`
/// payment lines.
pub open spec fn registrert_til(betaling: Seq<(String, i64)>, konto: Seq<char>, n: int) -> int
    decreases n,
{
    if n <= 0 {
        0
    } else {
        registrert_til(betaling, konto, n - 1) + (if betaling[n - 1].0@ == konto {
            betaling[n - 1].1 as int
        } else {
            0
        })
    }
}

/// The amount registered on the cash account over all payment lines.
pub open spec fn registrert(betaling: Seq<(String, i64)>, konto: Seq<char>) -> int {
    registrert_til(betaling, konto, betaling.len() as int)
}

proof fn lemma_registrert_grense(betaling: Seq<(String, i64)>, konto: Seq<char>, n: int)
    requires
        0 <= n <= betaling.len(),
    ensures
        -n * 0x8000_0000_0000_0000 <= registrert_til(betaling, konto, n) <= n * 0x8000_0000_0000_0000,
    decreases n,
{
    if n > 0 {
        lemma_registrert_grense(betaling, konto, n - 1);
    }
}

/// The registered cash and the difference to what was counted: the sum
/// of the payments on the cash account, and counted minus that sum.
pub fn kassadifferanse(betaling: &Vec<(String, i64)>, kontantkonto: &str, opptalt: i64) -> (r: (i64, i64))
    requires
        i64::MIN <= registrert(betaling@, kontantkonto@) <= i64::MAX,
        i64::MIN <= opptalt - registrert(betaling@, kontantkonto@) <= i64::MAX,
    ensures
        r.0 == registrert(betaling@, kontantkonto@),
        r.1 == opptalt - registrert(betaling@, kontantkonto@),
{
    let mut sum: i128 = 0;
    let mut i: usize = 0;
    while i < betaling.len()
        invariant
            i <= betaling@.len(),
            sum == registrert_til(betaling@, kontantkonto@, i as int),
        decreases betaling@.len() - i,
    {
        proof {
            lemma_registrert_grense(betaling@, kontantkonto@, i as int);
            assert(i < 0x1_0000_0000_0000_0000);
            assert(-(i as int) * 0x8000_0000_0000_0000 >= -0x1_0000_0000_0000_0000 * 0x8000_0000_0000_0000)
                by (nonlinear_arith)
                requires
                    0 <= i < 0x1_0000_0000_0000_0000,
            ;
            assert((i as int) * 0x8000_0000_0000_0000 <= 0x1_0000_0000_0000_0000 * 0x8000_0000_0000_0000)
                by (nonlinear_arith)
                requires
                    0 <= i < 0x1_0000_0000_0000_0000,
            ;
        }
        if like(betaling[i].0.as_str(), kontantkonto) {
            sum = sum + betaling[i].1 as i128;
        }
        i = i + 1;
    }
    let registrert_ore = sum as i64;
    (registrert_ore, opptalt - registrert_ore)
}

} // verus!
