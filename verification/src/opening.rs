//! A manual opening balance: per-account balances entered by hand that
//! become one opening voucher, only into an empty ledger, only when they
//! sum to zero.

use crate::bilag::{EntryDraft, VoucherDraft, balansert, enkel_linje, sum_linjer, lemma_sum_push};
use crate::bilag::linje;
use crate::dato::Dato;
use crate::ledger::PostedVoucher;
use vstd::prelude::*;
use vstd::string::*;

verus! {

/// The posted opening voucher and what was warned about.
#[derive(Clone, Debug)]
pub struct OpeningReport {
    pub posted: PostedVoucher,
    pub warnings: Vec<String>,
}

/// Why an opening balance is refused.
#[derive(Clone, Copy, Debug, PartialEq, Eq, Structural)]
pub enum AapningFeil {
    /// It needs at least two lines.
    ForFaLinjer,
    /// The balances sum to this many øre, not zero.
    IkkeINull { sum_ore: i128 },
    /// The company has no chain head.
    IngenKjede,
    /// The ledger already has this many vouchers.
    IkkeTom { bilag: i64 },
}

/// Sum of the first `n` balances.
pub open spec fn saldo_til(l: Seq<(String, i64)>, n: int) -> int
    decreases n,
{
    if n <= 0 { 0 } else { saldo_til(l, n - 1) + l[n - 1].1 }
}

/// Sum of all balances.
pub open spec fn saldosum(l: Seq<(String, i64)>) -> int {
    saldo_til(l, l.len() as int)
}

proof fn lemma_saldo_grense(l: Seq<(String, i64)>, n: int)
    requires
        0 <= n <= l.len(),
    ensures
        -n * 0x8000_0000_0000_0000 <= saldo_til(l, n) <= n * 0x8000_0000_0000_0000,
    decreases n,
{
    if n > 0 {
        lemma_saldo_grense(l, n - 1);
    }
}

fn summer(lines: &Vec<(String, i64)>) -> (r: i128)
    ensures
        r == saldosum(lines@),
{
    let mut sum: i128 = 0;
    let mut i: usize = 0;
    while i < lines.len()
        invariant
            i <= lines@.len(),
            sum == saldo_til(lines@, i as int),
        decreases lines@.len() - i,
    {
        proof {
            lemma_saldo_grense(lines@, i as int);
            assert(-(i as int) * 0x8000_0000_0000_0000 >= -0x1_0000_0000_0000_0000 * 0x8000_0000_0000_0000)
                by (nonlinear_arith)
                requires
                    0 <= i < 0x1_0000_0000_0000_0000,
            ;
            assert((i as int) * 0x8000_0000_0000_0000 <= 0x1_0000_0000_0000_0000 * 0x8000_0000_0000_0000)
                by (nonlinear_arith)
                requires
                    0 <= i < 0x1_0000_0000_0000_0000,
            ;
        }
        sum = sum + lines[i].1 as i128;
        i = i + 1;
    }
    sum
}

/// An opening balance has at least two lines, sums to zero, and goes
/// only into a ledger with no vouchers (`last_seq`, `None` when the
/// company has no chain).
pub fn sjekk_aapning(lines: &Vec<(String, i64)>, last_seq: Option<i64>) -> (r: Result<(), AapningFeil>)
    ensures
        r == (if lines@.len() < 2 {
            Err(AapningFeil::ForFaLinjer)
        } else if saldosum(lines@) != 0 {
            Err(AapningFeil::IkkeINull { sum_ore: saldosum(lines@) as i128 })
        } else {
            match last_seq {
                None => Err(AapningFeil::IngenKjede),
                Some(s) => if s != 0 { Err(AapningFeil::IkkeTom { bilag: s }) } else { Ok(()) },
            }
        }),
{
    if lines.len() < 2 {
        return Err(AapningFeil::ForFaLinjer);
    }
    let sum = summer(lines);
    if sum != 0 {
        return Err(AapningFeil::IkkeINull { sum_ore: sum });
    }
    match last_seq {
        None => Err(AapningFeil::IngenKjede),
        Some(s) => if s != 0 {
            Err(AapningFeil::IkkeTom { bilag: s })
        } else {
            Ok(())
        },
    }
}

/// The warning for an account whose receivable/payable flag is put off:
/// an opening total has no party breakdown.
pub open spec fn utsatt_advarsel(konto: Seq<char>) -> Seq<char> {
    "konto "@ + konto + ": reskontro-flagg utsatt — åpningsbalansen har ingen partfordeling"@
}

pub fn utsatt_flagg(konto: &str) -> (r: String)
    ensures
        r@ == utsatt_advarsel(konto@),
{
    let mut s = String::from_str("konto ");
    s.append(konto);
    s.append(": reskontro-flagg utsatt — åpningsbalansen har ingen partfordeling");
    s
}

/// The opening voucher: the GL journal, the date, the text
/// "Åpningsbalanse", one plain line per balance in order.
pub fn aapningsbilag(date: Dato, lines: &Vec<(String, i64)>) -> (r: VoucherDraft)
    ensures
        r.journal_code@ == "GL"@,
        r.voucher_date == date,
        r.description@ == "Åpningsbalanse"@,
        r.reverses is None,
        r.entries@.len() == lines@.len(),
        forall|i: int| 0 <= i < lines@.len() ==> enkel_linje(lines@[i].0@, lines@[i].1 as int, None, #[trigger] r.entries@[i]),
        sum_linjer(r.entries@) == saldosum(lines@),
        saldosum(lines@) == 0 ==> balansert(r),
{
    let mut entries: Vec<EntryDraft> = Vec::new();
    let mut i: usize = 0;
    while i < lines.len()
        invariant
            i <= lines@.len(),
            entries@.len() == i,
            forall|k: int| 0 <= k < i ==> enkel_linje(lines@[k].0@, lines@[k].1 as int, None, #[trigger] entries@[k]),
            sum_linjer(entries@) == saldo_til(lines@, i as int),
        decreases lines@.len() - i,
    {
        let e = linje(lines[i].0.as_str(), lines[i].1, None);
        proof {
            lemma_sum_push(entries@, e);
        }
        entries.push(e);
        i = i + 1;
    }
    VoucherDraft {
        journal_code: String::from_str("GL"),
        voucher_date: date,
        description: String::from_str("Åpningsbalanse"),
        reverses: None,
        entries,
    }
}

} // verus!
