//! The voucher drafts this library builds: lines in øre on account
//! numbers, and the double-entry rule that they sum to zero.

use crate::dato::Dato;
use vstd::prelude::*;

verus! {

/// The currency a line arose from: the amount in the currency's minor
/// unit and the rate (NOK per unit, in millionths) it was booked at.
#[derive(Clone, Debug)]
pub struct Valutainfo {
    pub valuta: String,
    pub belop_cent: i64,
    pub kurs_micro: i64,
}

/// One line of a voucher draft. Amounts are signed øre: debit positive,
/// credit negative.
#[derive(Clone, Debug)]
pub struct EntryDraft {
    pub account_number: String,
    pub amount_ore: i64,
    pub vat_code: Option<String>,
    pub description: Option<String>,
    pub party_no: Option<String>,
    pub avdeling: Option<String>,
    pub prosjekt: Option<String>,
    pub valuta: Option<Valutainfo>,
}

/// A voucher to be posted through the ordinary posting path.
#[derive(Clone, Debug)]
pub struct VoucherDraft {
    pub journal_code: String,
    pub voucher_date: Dato,
    pub description: String,
    /// The id of the voucher this one reverses, if any.
    pub reverses: Option<u128>,
    pub entries: Vec<EntryDraft>,
}

/// Sum of the first `n` line amounts.
pub open spec fn sum_til(e: Seq<EntryDraft>, n: int) -> int
    decreases n,
{
    if n <= 0 {
        0
    } else {
        sum_til(e, n - 1) + e[n - 1].amount_ore
    }
}

/// Sum of all line amounts.
pub open spec fn sum_linjer(e: Seq<EntryDraft>) -> int {
    sum_til(e, e.len() as int)
}

/// Double entry: the lines sum to zero.
pub open spec fn balansert(v: VoucherDraft) -> bool {
    sum_linjer(v.entries@) == 0
}

/// A line with only an account, an amount and a description.
pub open spec fn enkel_linje(konto: Seq<char>, belop: int, tekst: Option<Seq<char>>, e: EntryDraft) -> bool {
    &&& e.account_number@ == konto
    &&& e.amount_ore == belop
    &&& e.vat_code is None
    &&& e.party_no is None
    &&& e.avdeling is None
    &&& e.prosjekt is None
    &&& e.valuta is None
    &&& match tekst {
        Some(t) => e.description matches Some(d) && d@ == t,
        None => e.description is None,
    }
}

pub proof fn lemma_sum_til_push(e: Seq<EntryDraft>, x: EntryDraft, n: int)
    requires
        0 <= n <= e.len(),
    ensures
        sum_til(e.push(x), n) == sum_til(e, n),
    decreases n,
{
    if n > 0 {
        lemma_sum_til_push(e, x, n - 1);
    }
}

pub proof fn lemma_sum_push(e: Seq<EntryDraft>, x: EntryDraft)
    ensures
        sum_linjer(e.push(x)) == sum_linjer(e) + x.amount_ore,
{
    lemma_sum_til_push(e, x, e.len() as int);
}

pub proof fn lemma_sum_to(a: EntryDraft, b: EntryDraft)
    ensures
        sum_linjer(seq![a, b]) == a.amount_ore + b.amount_ore,
{
    assert(seq![a, b] =~= seq![a].push(b));
    assert(seq![a] =~= Seq::<EntryDraft>::empty().push(a));
    lemma_sum_push(Seq::<EntryDraft>::empty(), a);
    lemma_sum_push(seq![a], b);
}

/// Law: the sum of two runs of lines put together is the sum of the
/// one plus the sum of the other.
pub proof fn lov_sum_av_sammensatte_linjer(a: Seq<EntryDraft>, b: Seq<EntryDraft>)
    ensures
        sum_linjer(a + b) == sum_linjer(a) + sum_linjer(b),
    decreases b.len(),
{
    if b.len() == 0 {
        assert(a + b =~= a);
    } else {
        let c = b.drop_last();
        lov_sum_av_sammensatte_linjer(a, c);
        assert(a + b =~= (a + c).push(b.last()));
        assert(b =~= c.push(b.last()));
        lemma_sum_push(a + c, b.last());
        lemma_sum_push(c, b.last());
    }
}

/// Law: a voucher of two lines balances exactly when the second line's
/// amount is the first's negated.
pub proof fn lov_to_linjer_balanserer(v: VoucherDraft)
    requires
        v.entries@.len() == 2,
    ensures
        balansert(v) <==> v.entries@[1].amount_ore == -v.entries@[0].amount_ore,
{
    assert(v.entries@ =~= seq![v.entries@[0], v.entries@[1]]);
    lemma_sum_to(v.entries@[0], v.entries@[1]);
}

/// A line with account, amount and an optional description.
pub fn linje(konto: &str, belop: i64, tekst: Option<String>) -> (r: EntryDraft)
    ensures
        r.account_number@ == konto@,
        r.amount_ore == belop,
        r.vat_code is None,
        r.party_no is None,
        r.avdeling is None,
        r.prosjekt is None,
        r.valuta is None,
        r.description == tekst,
{
    EntryDraft {
        account_number: konto.to_owned(),
        amount_ore: belop,
        vat_code: None,
        description: tekst,
        party_no: None,
        avdeling: None,
        prosjekt: None,
        valuta: None,
    }
}

/// The sum of a voucher's lines, in a type wide enough for any sum.
pub fn sum_av(entries: &Vec<EntryDraft>) -> (r: i128)
    ensures
        r == sum_linjer(entries@),
{
    let mut acc: i128 = 0;
    let mut i: usize = 0;
    while i < entries.len()
        invariant
            i <= entries@.len(),
            acc == sum_til(entries@, i as int),
            -(i as int) * 0x8000_0000_0000_0000 <= acc <= (i as int) * 0x8000_0000_0000_0000,
        decreases entries@.len() - i,
    {
        assert(entries@.len() <= usize::MAX);
        acc = acc + entries[i].amount_ore as i128;
        i = i + 1;
    }
    acc
}

/// Whether the lines balance.
pub fn er_balansert(v: &VoucherDraft) -> (r: bool)
    ensures
        r == balansert(*v),
{
    sum_av(&v.entries) == 0
}

} // verus!
