//! OCR giro import: a file's assignments are imported once each, and the
//! import reports how many batches and payments it stored, their sum and
//! how many carried an invalid KID.

use crate::dato::Dato;

use vstd::prelude::*;

verus! {

/// One payment of an OCR assignment.
#[derive(Clone, Debug)]
pub struct OcrPayment {
    pub transaction_number: String,
    pub date: Dato,
    pub amount_ore: i64,
    pub kid: String,
    pub kid_valid: bool,
    pub transaction_type: String,
    pub bank_reference: Option<String>,
    pub debit_account: Option<String>,
}

/// One assignment (oppdrag) of an OCR file.
#[derive(Clone, Debug)]
pub struct OcrAssignment {
    pub assignment_number: String,
    pub agreement_id: String,
    pub bank_account: String,
    pub payments: Vec<OcrPayment>,
}

/// An OCR file (forsendelse).
#[derive(Clone, Debug)]
pub struct OcrFile {
    pub transmission_number: String,
    pub assignments: Vec<OcrAssignment>,
}

/// What an import stored.
#[derive(Clone, Copy, Debug, PartialEq, Eq, Structural)]
pub struct OcrImportSummary {
    pub batches: usize,
    pub payments: usize,
    pub sum_ore: i64,
    pub kid_invalid: usize,
}

/// A stored payment as listed.
#[derive(Clone, Debug)]
pub struct OcrPaymentRow {
    pub id: u128,
    pub payment_date: Dato,
    pub amount_ore: i64,
    pub kid: String,
    pub kid_valid: bool,
    pub transaction_type: String,
    pub bank_reference: Option<String>,
    pub account_number: String,
}

/// Why an import is refused.
#[derive(Clone, Debug, PartialEq, Eq)]
pub enum OcrFeil {
    /// No active account with the given number.
    UkjentKonto,
    /// The assignment of this transmission is already imported.
    AlleredeImportert { oppdrag: String, forsendelse: String },
}

/// Sum of the first `n` payments.
pub open spec fn belop_til(p: Seq<OcrPayment>, n: int) -> int
    decreases n,
{
    if n <= 0 { 0 } else { belop_til(p, n - 1) + p[n - 1].amount_ore }
}

/// Number of payments with an invalid KID among the first `n`.
pub open spec fn ugyldige_til(p: Seq<OcrPayment>, n: int) -> int
    decreases n,
{
    if n <= 0 { 0 } else { ugyldige_til(p, n - 1) + (if p[n - 1].kid_valid { 0int } else { 1int }) }
}

/// Payments in the first `n` assignments.
pub open spec fn antall_til(a: Seq<OcrAssignment>, n: int) -> int
    decreases n,
{
    if n <= 0 { 0 } else { antall_til(a, n - 1) + a[n - 1].payments@.len() }
}

/// Sum of the payments in the first `n` assignments.
pub open spec fn sum_til(a: Seq<OcrAssignment>, n: int) -> int
    decreases n,
{
    if n <= 0 { 0 } else { sum_til(a, n - 1) + belop_til(a[n - 1].payments@, a[n - 1].payments@.len() as int) }
}

/// Payments with an invalid KID in the first `n` assignments.
pub open spec fn ugyldig_til(a: Seq<OcrAssignment>, n: int) -> int
    decreases n,
{
    if n <= 0 { 0 } else { ugyldig_til(a, n - 1) + ugyldige_til(a[n - 1].payments@, a[n - 1].payments@.len() as int) }
}

/// The summary of importing a whole file.
pub open spec fn oppsummert(f: OcrFile, s: OcrImportSummary) -> bool {
    let a = f.assignments@;
    let n = a.len() as int;
    &&& s.batches == n
    &&& s.payments == antall_til(a, n)
    &&& s.sum_ore == sum_til(a, n)
    &&& s.kid_invalid == ugyldig_til(a, n)
}

proof fn lemma_ugyldige_grense(p: Seq<OcrPayment>, n: int)
    requires
        0 <= n <= p.len(),
    ensures
        0 <= ugyldige_til(p, n) <= n,
    decreases n,
{
    if n > 0 {
        lemma_ugyldige_grense(p, n - 1);
    }
}

proof fn lemma_ugyldig_grense(a: Seq<OcrAssignment>, n: int)
    requires
        0 <= n <= a.len(),
    ensures
        0 <= ugyldig_til(a, n) <= antall_til(a, n),
        antall_til(a, n) >= 0,
    decreases n,
{
    if n > 0 {
        lemma_ugyldig_grense(a, n - 1);
        lemma_ugyldige_grense(a[n - 1].payments@, a[n - 1].payments@.len() as int);
    }
}

proof fn lemma_antall_mono(a: Seq<OcrAssignment>, i: int, n: int)
    requires
        0 <= i <= n <= a.len(),
    ensures
        antall_til(a, i) <= antall_til(a, n),
    decreases n - i,
{
    if i < n {
        lemma_antall_mono(a, i, n - 1);
    }
}

proof fn lemma_belop_grense(p: Seq<OcrPayment>, n: int)
    requires
        0 <= n <= p.len(),
    ensures
        -n * 0x8000_0000_0000_0000 <= belop_til(p, n) <= n * 0x8000_0000_0000_0000,
    decreases n,
{
    if n > 0 {
        lemma_belop_grense(p, n - 1);
    }
}

proof fn lemma_sum_grense(a: Seq<OcrAssignment>, n: int)
    requires
        0 <= n <= a.len(),
    ensures
        -antall_til(a, n) * 0x8000_0000_0000_0000 <= sum_til(a, n) <= antall_til(a, n) * 0x8000_0000_0000_0000,
    decreases n,
{
    if n > 0 {
        lemma_sum_grense(a, n - 1);
        let p = a[n - 1].payments@;
        lemma_belop_grense(p, p.len() as int);
        assert(antall_til(a, n) * 0x8000_0000_0000_0000 == antall_til(a, n - 1) * 0x8000_0000_0000_0000 + p.len()
            * 0x8000_0000_0000_0000) by (nonlinear_arith)
            requires
                antall_til(a, n) == antall_til(a, n - 1) + p.len(),
        ;
    }
}

/// What importing a whole file stores: one batch per assignment, every
/// payment, their sum and the number with an invalid KID.
pub fn oppsummer_ocr(file: &OcrFile) -> (r: OcrImportSummary)
    requires
        antall_til(file.assignments@, file.assignments@.len() as int) <= usize::MAX,
        i64::MIN <= sum_til(file.assignments@, file.assignments@.len() as int) <= i64::MAX,
        antall_til(file.assignments@, file.assignments@.len() as int) * 0x8000_0000_0000_0000 < 0x7fff_ffff_ffff_ffff_ffff_ffff_ffff_ffff,
    ensures
        oppsummert(*file, r),
{
    let a = &file.assignments;
    let ghost total = antall_til(a@, a@.len() as int);
    let mut payments: usize = 0;
    let mut kid_invalid: usize = 0;
    let mut sum: i128 = 0;
    let mut k: usize = 0;
    while k < a.len()
        invariant
            k <= a@.len(),
            total == antall_til(a@, a@.len() as int),
            total <= usize::MAX,
            total * 0x8000_0000_0000_0000 < 0x7fff_ffff_ffff_ffff_ffff_ffff_ffff_ffff,
            payments == antall_til(a@, k as int),
            sum == sum_til(a@, k as int),
            kid_invalid == ugyldig_til(a@, k as int),
        decreases a@.len() - k,
    {
        let p = &a[k].payments;
        proof {
            lemma_antall_mono(a@, k + 1, a@.len() as int);
            lemma_ugyldig_grense(a@, k + 1);
            lemma_ugyldig_grense(a@, k as int);
            lemma_sum_grense(a@, k as int);
            assert(antall_til(a@, k + 1) == antall_til(a@, k as int) + p@.len());
        }
        let mut i: usize = 0;
        while i < p.len()
            invariant
                p == a@[k as int].payments,
                k < a@.len(),
                i <= p@.len(),
                total == antall_til(a@, a@.len() as int),
                total * 0x8000_0000_0000_0000 < 0x7fff_ffff_ffff_ffff_ffff_ffff_ffff_ffff,
                total <= usize::MAX,
                antall_til(a@, k + 1) <= total,
                antall_til(a@, k + 1) == antall_til(a@, k as int) + p@.len(),
                ugyldig_til(a@, k as int) <= antall_til(a@, k as int),
                0 <= ugyldig_til(a@, k as int),
                -antall_til(a@, k as int) * 0x8000_0000_0000_0000 <= sum_til(a@, k as int) <= antall_til(a@, k as int)
                    * 0x8000_0000_0000_0000,
                payments == antall_til(a@, k as int) + i,
                sum == sum_til(a@, k as int) + belop_til(p@, i as int),
                kid_invalid == ugyldig_til(a@, k as int) + ugyldige_til(p@, i as int),
            decreases p@.len() - i,
        {
            proof {
                lemma_ugyldige_grense(p@, i as int);
                lemma_belop_grense(p@, i as int);
                assert((antall_til(a@, k as int) + i + 1) * 0x8000_0000_0000_0000 <= total * 0x8000_0000_0000_0000)
                    by (nonlinear_arith)
                    requires
                        antall_til(a@, k as int) + i + 1 <= total,
                ;
                assert(-(antall_til(a@, k as int) + i) * 0x8000_0000_0000_0000 == -antall_til(a@, k as int)
                    * 0x8000_0000_0000_0000 - i * 0x8000_0000_0000_0000) by (nonlinear_arith);
                assert((antall_til(a@, k as int) + i) * 0x8000_0000_0000_0000 == antall_til(a@, k as int)
                    * 0x8000_0000_0000_0000 + i * 0x8000_0000_0000_0000) by (nonlinear_arith);
            }
            payments = payments + 1;
            sum = sum + p[i].amount_ore as i128;
            if !p[i].kid_valid {
                kid_invalid = kid_invalid + 1;
            }
            i = i + 1;
        }
        k = k + 1;
    }
    OcrImportSummary { batches: a.len(), payments, sum_ore: sum as i64, kid_invalid }
}

/// An assignment is stored only once: exactly one new batch row, else it
/// was imported before.
pub fn sjekk_oppdrag(rader: u64, oppdrag: &str, forsendelse: &str) -> (r: Result<(), OcrFeil>)
    ensures
        r is Ok <==> rader == 1,
        r matches Err(e) ==> e matches OcrFeil::AlleredeImportert { oppdrag: o, forsendelse: f } && o@ == oppdrag@
            && f@ == forsendelse@,
{
    if rader == 1 {
        Ok(())
    } else {
        Err(OcrFeil::AlleredeImportert { oppdrag: oppdrag.to_string(), forsendelse: forsendelse.to_string() })
    }
}

} // verus!
