//! The required specifications over the ledger: running balances per
//! party, the posting specification grouped per voucher, and the key
//! figures of the overview.

use crate::dato::{Dato, gyldig};
use crate::tekst::{alle_siffer, bare_siffer, like};
use vstd::prelude::*;

verus! {

/// One account over a period: opening balance, movement, closing balance.
#[derive(Clone, Debug)]
pub struct SaldobalanseRow {
    pub number: String,
    pub name: String,
    pub inngaende_ore: i64,
    pub debet_ore: i64,
    pub kredit_ore: i64,
    pub utgaende_ore: i64,
}

/// A line of the posting specification.
#[derive(Clone, Debug)]
pub struct BokforingLine {
    pub line_no: i32,
    pub account_number: String,
    pub account_name: String,
    pub amount_ore: i64,
    pub vat_code: Option<String>,
    pub description: Option<String>,
    pub party_no: Option<String>,
}

/// Key figures of the overview.
#[derive(Clone, Debug)]
pub struct Nokkeltall {
    pub year: i32,
    /// Result so far this year, surplus positive.
    pub resultat_hittil_ore: i64,
    pub resultat_fjor_ore: i64,
    /// Result per month, January first.
    pub maaneder: [i64; 12],
    pub bank_ore: i64,
    pub kundefordringer_ore: i64,
    /// Owed to suppliers, as a positive amount.
    pub leverandorgjeld_ore: i64,
}

/// The result of the month numbered `m` among the first `n` rows: the
/// last row for that month counts; months outside 1–12 are ignored.
pub open spec fn maanedsverdi(rader: Seq<(i32, i64)>, m: int, n: int) -> i64
    decreases n,
{
    if n <= 0 {
        0
    } else if rader[n - 1].0 == m {
        rader[n - 1].1
    } else {
        maanedsverdi(rader, m, n - 1)
    }
}

/// The twelve months' results from per-month rows (month, result).
pub fn maaneder(rader: &Vec<(i32, i64)>) -> (r: [i64; 12])
    ensures
        forall|k: int| 0 <= k < 12 ==> #[trigger] r@[k] == maanedsverdi(rader@, k + 1, rader@.len() as int),
{
    let mut m: [i64; 12] = [0i64; 12];
    let mut i: usize = 0;
    while i < rader.len()
        invariant
            i <= rader@.len(),
            m@.len() == 12,
            forall|k: int| 0 <= k < 12 ==> #[trigger] m@[k] == maanedsverdi(rader@, k + 1, i as int),
        decreases rader@.len() - i,
    {
        let (maned, verdi) = rader[i];
        if 1 <= maned && maned <= 12 {
            m[(maned - 1) as usize] = verdi;
        }
        i = i + 1;
    }
    m
}

/// The day the year's figures run to: today in the current year, else
/// the year's last day.
pub open spec fn skjaering(year: int, idag: Dato) -> Dato {
    if idag.ar == year {
        idag
    } else {
        Dato { ar: year as i32, maned: 12, dag: 31 }
    }
}

/// The same day a year earlier; 29 February falls back to the 28th.
pub open spec fn aaret_for(d: Dato) -> Dato {
    if d.maned == 2 && d.dag == 29 {
        Dato { ar: (d.ar - 1) as i32, maned: 2, dag: 28 }
    } else {
        Dato { ar: (d.ar - 1) as i32, maned: d.maned, dag: d.dag }
    }
}

/// The cut-off of this year's figures and of last year's comparison.
pub fn skjaeringsdatoer(year: i32, idag: Dato) -> (r: (Dato, Dato))
    requires
        gyldig(idag),
        -262142 <= year <= 262142,
    ensures
        r.0 == skjaering(year as int, idag),
        r.1 == aaret_for(r.0),
        gyldig(r.0),
{
    let c = if idag.ar == year {
        idag
    } else {
        Dato { ar: year, maned: 12, dag: 31 }
    };
    let f = if c.maned == 2 && c.dag == 29 {
        Dato { ar: c.ar - 1, maned: 2, dag: 28 }
    } else {
        Dato { ar: c.ar - 1, maned: c.maned, dag: c.dag }
    };
    (c, f)
}

/// A party's block of the customer or supplier specification.
#[derive(Clone, Debug)]
pub struct ReskontroParty {
    pub party_no: String,
    pub party_name: String,
    pub inngaende_ore: i64,
    pub utgaende_ore: i64,
    /// (amount, running balance) of each posting in the period.
    pub posts: Vec<(i64, i64)>,
}

/// The index of the first block for the party, or -1.
pub open spec fn blokk_for(b: Seq<ReskontroParty>, party_no: Seq<char>, i: int) -> int
    decreases b.len() - i,
{
    if i < 0 || i >= b.len() {
        -1
    } else if b[i].party_no@ == party_no {
        i
    } else {
        blokk_for(b, party_no, i + 1)
    }
}

/// The amounts among the first `n` posting rows that belong to block `k`.
pub open spec fn belop_for(b: Seq<ReskontroParty>, rader: Seq<(String, i64)>, k: int, n: int) -> Seq<i64>
    decreases n,
{
    if n <= 0 {
        Seq::empty()
    } else if blokk_for(b, rader[n - 1].0@, 0) == k {
        belop_for(b, rader, k, n - 1).push(rader[n - 1].1)
    } else {
        belop_for(b, rader, k, n - 1)
    }
}

/// Opening balance plus the first `n` amounts.
pub open spec fn lopende(inngaende: int, a: Seq<i64>, n: int) -> int
    decreases n,
{
    if n <= 0 {
        inngaende
    } else {
        lopende(inngaende, a, n - 1) + a[n - 1]
    }
}

/// The block holds its party's postings in order, each with the balance
/// running from the opening balance.
pub open spec fn blokk_ok(p: ReskontroParty, inngaende: i64, belop: Seq<i64>) -> bool {
    &&& p.inngaende_ore == inngaende
    &&& p.posts@.len() == belop.len()
    &&& forall|j: int| 0 <= j < belop.len() ==> (#[trigger] p.posts@[j]).0 == belop[j] && p.posts@[j].1 == lopende(
        inngaende as int,
        belop,
        j + 1,
    )
}

/// The running balances of every block stay within an i64.
pub open spec fn saldi_passer(b: Seq<ReskontroParty>, rader: Seq<(String, i64)>) -> bool {
    forall|k: int, n: int| 0 <= k < b.len() && 0 <= n <= belop_for(b, rader, k, rader.len() as int).len() ==>
        i64::MIN <= #[trigger] lopende(b[k].inngaende_ore as int, belop_for(b, rader, k, rader.len() as int), n) <= i64::MAX
}

proof fn lemma_belop_prefiks(b: Seq<ReskontroParty>, rader: Seq<(String, i64)>, k: int, m: int, n: int)
    requires
        0 <= m <= n <= rader.len(),
    ensures
        belop_for(b, rader, k, m).len() <= belop_for(b, rader, k, n).len(),
        forall|j: int| 0 <= j < belop_for(b, rader, k, m).len() ==> #[trigger] belop_for(b, rader, k, m)[j] == belop_for(b, rader, k, n)[j],
    decreases n - m,
{
    if n > m {
        lemma_belop_prefiks(b, rader, k, m, n - 1);
    }
}

proof fn lemma_lopende_prefiks(inn: int, a: Seq<i64>, c: Seq<i64>, n: int)
    requires
        0 <= n <= a.len(),
        n <= c.len(),
        forall|j: int| 0 <= j < a.len() && j < n ==> a[j] == c[j],
    ensures
        lopende(inn, a, n) == lopende(inn, c, n),
    decreases n,
{
    if n > 0 {
        lemma_lopende_prefiks(inn, a, c, n - 1);
    }
}

/// Fills each party's block with its postings (rows of party number and
/// amount, in date and voucher order), each with the balance running from
/// the party's opening balance. A row whose party has no block belongs to
/// none and is skipped.
pub fn fyll_blokker(blokker: Vec<ReskontroParty>, rader: &Vec<(String, i64)>) -> (r: Vec<ReskontroParty>)
    requires
        forall|k: int| 0 <= k < blokker@.len() ==> (#[trigger] blokker@[k]).posts@.len() == 0,
        saldi_passer(blokker@, rader@),
    ensures
        r@.len() == blokker@.len(),
        forall|k: int| 0 <= k < r@.len() ==> (#[trigger] r@[k]).party_no == blokker@[k].party_no && r@[k].party_name
            == blokker@[k].party_name && r@[k].utgaende_ore == blokker@[k].utgaende_ore && blokk_ok(
            r@[k],
            blokker@[k].inngaende_ore,
            belop_for(blokker@, rader@, k, rader@.len() as int),
        ),
{
    let ghost b0 = blokker@;
    let mut b = blokker;
    let mut i: usize = 0;
    while i < rader.len()
        invariant
            i <= rader@.len(),
            b@.len() == b0.len(),
            saldi_passer(b0, rader@),
            forall|k: int| 0 <= k < b@.len() ==> (#[trigger] b@[k]).party_no == b0[k].party_no && b@[k].party_name
                == b0[k].party_name && b@[k].utgaende_ore == b0[k].utgaende_ore && blokk_ok(
                b@[k],
                b0[k].inngaende_ore,
                belop_for(b0, rader@, k, i as int),
            ),
        decreases rader@.len() - i,
    {
        let (party_no, amount) = (&rader[i].0, rader[i].1);
        let mut k: usize = 0;
        while k < b.len() && !like(b[k].party_no.as_str(), party_no.as_str())
            invariant
                k <= b@.len(),
                b@.len() == b0.len(),
                forall|j: int| 0 <= j < b@.len() ==> (#[trigger] b@[j]).party_no == b0[j].party_no,
                blokk_for(b0, party_no@, 0) == blokk_for(b0, party_no@, k as int),
            decreases b@.len() - k,
        {
            k = k + 1;
        }
        if k < b.len() {
            assert(blokk_for(b0, rader@[i as int].0@, 0) == k);
            let ghost inn = b0[k as int].inngaende_ore as int;
            let ghost gammel = belop_for(b0, rader@, k as int, i as int);
            let ghost bel = belop_for(b0, rader@, k as int, i + 1);
            let ghost full = belop_for(b0, rader@, k as int, rader@.len() as int);
            assert(bel == gammel.push(amount));
            assert(blokk_ok(b@[k as int], b0[k as int].inngaende_ore, gammel));
            proof {
                lemma_belop_prefiks(b0, rader@, k as int, i + 1, rader@.len() as int);
                lemma_lopende_prefiks(inn, bel, full, bel.len() as int);
                lemma_lopende_prefiks(inn, gammel, bel, gammel.len() as int);
            }
            let forrige = if b[k].posts.len() == 0 {
                b[k].inngaende_ore
            } else {
                let n = b[k].posts.len();
                b[k].posts[n - 1].1
            };
            assert(forrige == lopende(inn, gammel, gammel.len() as int));
            assert(lopende(inn, bel, bel.len() as int) == lopende(inn, gammel, gammel.len() as int) + amount);
            assert(i64::MIN <= lopende(inn, full, bel.len() as int) <= i64::MAX);
            let saldo = forrige + amount;
            let mut blokk = b.remove(k);
            let ghost p0 = blokk.posts@;
            blokk.posts.push((amount, saldo));
            b.insert(k, blokk);
            assert forall|j: int| 0 <= j < bel.len() implies (#[trigger] b@[k as int].posts@[j]).0 == bel[j] && b@[k as int].posts@[j].1 == lopende(
                inn,
                bel,
                j + 1,
            ) by {
                if j < gammel.len() {
                    lemma_lopende_prefiks(inn, gammel, bel, j + 1);
                }
            }
            assert forall|j: int| 0 <= j < b@.len() implies (#[trigger] b@[j]).party_no == b0[j].party_no && b@[j].party_name
                == b0[j].party_name && b@[j].utgaende_ore == b0[j].utgaende_ore && blokk_ok(
                b@[j],
                b0[j].inngaende_ore,
                belop_for(b0, rader@, j, i + 1),
            ) by {
                if j != k {
                    assert(belop_for(b0, rader@, j, i + 1) == belop_for(b0, rader@, j, i as int));
                }
            }
        } else {
            assert forall|j: int| 0 <= j < b@.len() implies belop_for(b0, rader@, j, i + 1) == belop_for(b0, rader@, j, i as int) by {
                assert(blokk_for(b0, rader@[i as int].0@, 0) == -1) by {
                    lemma_blokk_for(b0, rader@[i as int].0@, k as int);
                }
            }
        }
        i = i + 1;
    }
    b
}

proof fn lemma_blokk_for(b: Seq<ReskontroParty>, p: Seq<char>, i: int)
    requires
        0 <= i <= b.len(),
    ensures
        blokk_for(b, p, i) == -1 || (i <= blokk_for(b, p, i) < b.len()),
    decreases b.len() - i,
{
    if i < b.len() {
        lemma_blokk_for(b, p, i + 1);
    }
}

/// One voucher of the posting specification with all its lines.
#[derive(Clone, Debug)]
pub struct BokforingVoucher {
    pub journal_code: String,
    pub fiscal_year: i32,
    pub voucher_number: i64,
    pub voucher_date: Dato,
    pub description: String,
    pub lines: Vec<BokforingLine>,
}

/// One line of the posting specification as read, in chain order and
/// line order, with its voucher's header.
#[derive(Clone, Debug)]
pub struct BokforingRad {
    pub chain_seq: i64,
    pub journal_code: String,
    pub fiscal_year: i32,
    pub voucher_number: i64,
    pub voucher_date: Dato,
    pub voucher_description: String,
    pub line: BokforingLine,
}

/// Row `i` starts a voucher: it is the first row, or the row before it
/// belongs to another voucher.
pub open spec fn ny_gruppe(r: Seq<BokforingRad>, i: int) -> bool {
    i == 0 || r[i - 1].chain_seq != r[i].chain_seq
}

/// The vouchers formed by the first `n` rows: for each, the row that
/// starts it and its lines in order.
pub open spec fn grupper(r: Seq<BokforingRad>, n: int) -> Seq<(int, Seq<BokforingLine>)>
    decreases n,
{
    if n <= 0 {
        Seq::empty()
    } else {
        let g = grupper(r, n - 1);
        if ny_gruppe(r, n - 1) || g.len() == 0 {
            g.push((n - 1, seq![r[n - 1].line]))
        } else {
            g.update(g.len() - 1, (g.last().0, g.last().1.push(r[n - 1].line)))
        }
    }
}

/// A voucher of the specification has the header of the row that starts
/// it and the given lines.
pub open spec fn bilag_av(r: Seq<BokforingRad>, g: (int, Seq<BokforingLine>), v: BokforingVoucher) -> bool {
    let h = r[g.0];
    &&& v.journal_code@ == h.journal_code@
    &&& v.fiscal_year == h.fiscal_year
    &&& v.voucher_number == h.voucher_number
    &&& v.voucher_date == h.voucher_date
    &&& v.description@ == h.voucher_description@
    &&& v.lines@ == g.1
}

proof fn lemma_grupper(r: Seq<BokforingRad>, n: int)
    requires
        0 <= n <= r.len(),
    ensures
        n > 0 ==> grupper(r, n).len() > 0,
        n > 0 ==> 0 <= grupper(r, n).last().0 < n,
        grupper(r, n).len() <= n,
        forall|k: int| 0 <= k < grupper(r, n).len() ==> 0 <= #[trigger] grupper(r, n)[k].0 < n,
    decreases n,
{
    if n > 0 {
        lemma_grupper(r, n - 1);
    }
}

/// A copy of a line of the specification.
pub fn kopi_bokforingslinje(l: &BokforingLine) -> (r: BokforingLine)
    ensures
        r == *l,
{
    BokforingLine {
        line_no: l.line_no,
        account_number: l.account_number.clone(),
        account_name: l.account_name.clone(),
        amount_ore: l.amount_ore,
        vat_code: crate::tekst::kopi_valg(&l.vat_code),
        description: crate::tekst::kopi_valg(&l.description),
        party_no: crate::tekst::kopi_valg(&l.party_no),
    }
}

fn bilag_fra(h: &BokforingRad, lines: Vec<BokforingLine>) -> (r: BokforingVoucher)
    ensures
        r.journal_code@ == h.journal_code@,
        r.fiscal_year == h.fiscal_year,
        r.voucher_number == h.voucher_number,
        r.voucher_date == h.voucher_date,
        r.description@ == h.voucher_description@,
        r.lines@ == lines@,
{
    BokforingVoucher {
        journal_code: h.journal_code.clone(),
        fiscal_year: h.fiscal_year,
        voucher_number: h.voucher_number,
        voucher_date: h.voucher_date,
        description: h.voucher_description.clone(),
        lines,
    }
}

/// The posting specification: the rows (in chain and line order)
/// gathered into one voucher per run of rows with the same chain
/// sequence, each with its header and all its lines in order.
pub fn bokforingsspesifikasjon(rader: &Vec<BokforingRad>) -> (r: Vec<BokforingVoucher>)
    ensures
        r@.len() == grupper(rader@, rader@.len() as int).len(),
        forall|k: int| 0 <= k < r@.len() ==> bilag_av(rader@, grupper(rader@, rader@.len() as int)[k], #[trigger] r@[k]),
{
    let mut ut: Vec<BokforingVoucher> = Vec::new();
    let mut cur: Vec<BokforingLine> = Vec::new();
    let mut start: usize = 0;
    let mut i: usize = 0;
    while i < rader.len()
        invariant
            i <= rader@.len(),
            i == 0 ==> ut@.len() == 0 && cur@.len() == 0,
            i > 0 ==> {
                let g = grupper(rader@, i as int);
                &&& ut@.len() + 1 == g.len()
                &&& g.last() == (start as int, cur@)
                &&& forall|k: int| 0 <= k < ut@.len() ==> bilag_av(rader@, g[k], #[trigger] ut@[k])
            },
        decreases rader@.len() - i,
    {
        proof {
            lemma_grupper(rader@, i as int);
        }
        let ny = i == 0 || rader[i - 1].chain_seq != rader[i].chain_seq;
        let ghost g0 = grupper(rader@, i as int);
        if ny && i > 0 {
            let mut ferdig: Vec<BokforingLine> = Vec::new();
            std::mem::swap(&mut ferdig, &mut cur);
            let v = bilag_fra(&rader[start], ferdig);
            ut.push(v);
        }
        if ny {
            start = i;
        }
        let l = kopi_bokforingslinje(&rader[i].line);
        cur.push(l);
        proof {
            let g = grupper(rader@, i + 1);
            if ny {
                assert(g == g0.push((i as int, seq![rader@[i as int].line])));
                assert(cur@ =~= seq![rader@[i as int].line]);
                if i > 0 {
                    assert forall|k: int| 0 <= k < ut@.len() implies bilag_av(rader@, g[k], #[trigger] ut@[k]) by {
                        if k < ut@.len() - 1 {
                            assert(g[k] == g0[k]);
                        } else {
                            assert(g[k] == g0.last());
                        }
                    }
                }
            } else {
                assert(g == g0.update(g0.len() - 1, (g0.last().0, g0.last().1.push(rader@[i as int].line))));
                assert forall|k: int| 0 <= k < ut@.len() implies bilag_av(rader@, g[k], #[trigger] ut@[k]) by {
                    assert(g[k] == g0[k]);
                }
            }
        }
        i = i + 1;
    }
    if rader.len() > 0 {
        let ghost g = grupper(rader@, rader@.len() as int);
        proof {
            lemma_grupper(rader@, rader@.len() as int);
        }
        let v = bilag_fra(&rader[start], cur);
        ut.push(v);
        proof {
            assert forall|k: int| 0 <= k < ut@.len() implies bilag_av(rader@, g[k], #[trigger] ut@[k]) by {
                if k < ut@.len() - 1 {
                } else {
                }
            }
        }
    }
    ut
}


/// The accounts the key figures count as result accounts: 3000 through
/// 8999, the four-digit accounts of the classes 3 to 8.
pub open spec fn nokkeltall_resultatkonto(konto: Seq<char>) -> bool {
    konto.len() == 4 && alle_siffer(konto) && '3' <= konto[0] <= '8'
}

pub fn er_resultatkonto(konto: &str) -> (r: bool)
    ensures
        r == nokkeltall_resultatkonto(konto@),
{
    konto.unicode_len() == 4 && bare_siffer(konto) && '3' <= konto.get_char(0) && konto.get_char(0) <= '8'
}

} // verus!
