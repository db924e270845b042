//! The chart of accounts and the voucher browser: which account numbers
//! and names are accepted, the search text, and how listed lines are
//! gathered under their vouchers.

use crate::dato::Dato;
use crate::tekst::{alle_siffer, bare_siffer, er_blank, kopi_valg, trim, trimmet};
use vstd::prelude::*;

verus! {

/// An account with its computed balance.
#[derive(Clone, Debug)]
pub struct KontoRow {
    pub number: String,
    pub name: String,
    pub vat_code: Option<String>,
    pub active: bool,
    pub reskontro_kind: Option<String>,
    /// Sum of the account's entries, in øre.
    pub saldo_ore: i64,
    pub posteringer: i64,
}

/// One line of a listed voucher.
#[derive(Clone, Debug)]
pub struct BilagLinje {
    pub account: String,
    pub account_name: String,
    pub amount_ore: i64,
    pub vat_code: Option<String>,
    pub description: Option<String>,
    pub party_no: Option<String>,
    pub avdeling: Option<String>,
    pub prosjekt: Option<String>,
}

/// A listed voucher with its lines.
#[derive(Clone, Debug)]
pub struct BilagMedLinjer {
    pub voucher_id: u128,
    pub journal_code: String,
    pub fiscal_year: i32,
    pub voucher_number: i64,
    pub voucher_date: Dato,
    pub description: String,
    pub lines: Vec<BilagLinje>,
}

/// One page of vouchers and how many match in all.
#[derive(Clone, Debug)]
pub struct BilagSide {
    pub total: i64,
    pub vouchers: Vec<BilagMedLinjer>,
}

/// Why a change of the chart of accounts is refused.
#[derive(Clone, Copy, Debug, PartialEq, Eq, Structural)]
pub enum KontoFeil {
    /// An account number is four digits.
    UgyldigNummer,
    /// An account needs a name.
    ManglerNavn,
    /// The account already exists.
    Finnes,
    /// No such account.
    Ukjent,
}

/// An account number: four ASCII digits.
pub open spec fn kontonummer(n: Seq<char>) -> bool {
    n.len() == 4 && alle_siffer(n)
}

/// A new account: a four-digit number and a name that is not blank. The
/// result is the name trimmed.
pub fn sjekk_ny_konto(number: &str, name: &str) -> (r: Result<String, KontoFeil>)
    ensures
        !kontonummer(number@) ==> r == Err::<String, KontoFeil>(KontoFeil::UgyldigNummer),
        kontonummer(number@) && trimmet(name@).len() == 0 ==> r == Err::<String, KontoFeil>(KontoFeil::ManglerNavn),
        r is Ok <==> kontonummer(number@) && trimmet(name@).len() > 0,
        r matches Ok(n) ==> n@ == trimmet(name@),
{
    if !(number.unicode_len() == 4 && bare_siffer(number)) {
        return Err(KontoFeil::UgyldigNummer);
    }
    if er_blank(name) {
        return Err(KontoFeil::ManglerNavn);
    }
    Ok(trim(name))
}

/// A rename: the new name, when given, is not blank; the result is the
/// trimmed name to store.
pub fn sjekk_kontoendring(name: Option<&str>) -> (r: Result<Option<String>, KontoFeil>)
    ensures
        match name {
            None => r == Ok::<Option<String>, KontoFeil>(None),
            Some(n) => if trimmet(n@).len() == 0 {
                r == Err::<Option<String>, KontoFeil>(KontoFeil::ManglerNavn)
            } else {
                r matches Ok(Some(t)) && t@ == trimmet(n@)
            },
        },
{
    match name {
        None => Ok(None),
        Some(n) => if er_blank(n) {
            Err(KontoFeil::ManglerNavn)
        } else {
            Ok(Some(trim(n)))
        },
    }
}

/// The outcome of writing one account row: exactly one row must have
/// changed, else the account already existed (on insert) or did not
/// exist (on update).
pub fn en_rad(rader: u64, ny: bool) -> (r: Result<(), KontoFeil>)
    ensures
        rader == 1 ==> r == Ok::<(), KontoFeil>(()),
        rader != 1 ==> r == Err::<(), KontoFeil>(if ny { KontoFeil::Finnes } else { KontoFeil::Ukjent }),
{
    if rader == 1 {
        Ok(())
    } else if ny {
        Err(KontoFeil::Finnes)
    } else {
        Err(KontoFeil::Ukjent)
    }
}

/// The search text of the voucher browser: trimmed, and none when
/// blank.
pub fn sokefilter(sok: Option<&str>) -> (r: Option<String>)
    ensures
        match sok {
            None => r is None,
            Some(s) => if trimmet(s@).len() == 0 {
                r is None
            } else {
                r matches Some(t) && t@ == trimmet(s@)
            },
        },
{
    match sok {
        None => None,
        Some(s) => if er_blank(s) {
            None
        } else {
            Some(trim(s))
        },
    }
}

/// A copy of a listed line.
pub fn kopi_bilaglinje(l: &BilagLinje) -> (r: BilagLinje)
    ensures
        r == *l,
{
    BilagLinje {
        account: l.account.clone(),
        account_name: l.account_name.clone(),
        amount_ore: l.amount_ore,
        vat_code: kopi_valg(&l.vat_code),
        description: kopi_valg(&l.description),
        party_no: kopi_valg(&l.party_no),
        avdeling: kopi_valg(&l.avdeling),
        prosjekt: kopi_valg(&l.prosjekt),
    }
}

/// Voucher `k` is the first one listed with this id.
pub open spec fn forste_med(hoder: Seq<BilagMedLinjer>, k: int, id: u128) -> bool {
    &&& 0 <= k < hoder.len()
    &&& hoder[k].voucher_id == id
    &&& forall|j: int| 0 <= j < k ==> #[trigger] hoder[j].voucher_id != id
}

/// The lines among the first `n` that belong to voucher `k`, in order: a
/// line belongs to the first voucher listed with its voucher id.
pub open spec fn linjer_til(hoder: Seq<BilagMedLinjer>, k: int, linjer: Seq<(u128, BilagLinje)>, n: int) -> Seq<BilagLinje>
    decreases n,
{
    if n <= 0 {
        Seq::empty()
    } else if forste_med(hoder, k, linjer[n - 1].0) {
        linjer_til(hoder, k, linjer, n - 1).push(linjer[n - 1].1)
    } else {
        linjer_til(hoder, k, linjer, n - 1)
    }
}

/// Voucher `k` with its lines gathered: the header unchanged, the lines
/// it had followed by the listed lines that belong to it.
pub open spec fn samlet(hode: BilagMedLinjer, hoder: Seq<BilagMedLinjer>, k: int, linjer: Seq<(u128, BilagLinje)>, ut: BilagMedLinjer) -> bool {
    &&& ut.voucher_id == hode.voucher_id
    &&& ut.journal_code@ == hode.journal_code@
    &&& ut.fiscal_year == hode.fiscal_year
    &&& ut.voucher_number == hode.voucher_number
    &&& ut.voucher_date == hode.voucher_date
    &&& ut.description@ == hode.description@
    &&& ut.lines@ == hode.lines@ + linjer_til(hoder, k, linjer, linjer.len() as int)
}

/// Whether voucher `k` is the first one listed with this id.
fn er_forste_med(hoder: &Vec<BilagMedLinjer>, k: usize, id: u128) -> (r: bool)
    requires
        k < hoder@.len(),
    ensures
        r == forste_med(hoder@, k as int, id),
{
    if hoder[k].voucher_id != id {
        return false;
    }
    let mut j: usize = 0;
    while j < k
        invariant
            k < hoder@.len(),
            j <= k,
            forall|i: int| 0 <= i < j ==> #[trigger] hoder@[i].voucher_id != id,
        decreases k - j,
    {
        if hoder[j].voucher_id == id {
            return false;
        }
        j = j + 1;
    }
    true
}

/// Gathers listed lines (each with its voucher id) under the vouchers
/// they belong to, keeping the order of the lines; a line whose voucher
/// is not on the page is left out.
pub fn samle_linjer(hoder: &Vec<BilagMedLinjer>, linjer: &Vec<(u128, BilagLinje)>) -> (r: Vec<BilagMedLinjer>)
    ensures
        r@.len() == hoder@.len(),
        forall|k: int| 0 <= k < hoder@.len() ==> samlet(hoder@[k], hoder@, k, linjer@, #[trigger] r@[k]),
{
    let mut ut: Vec<BilagMedLinjer> = Vec::new();
    let mut k: usize = 0;
    while k < hoder.len()
        invariant
            k <= hoder@.len(),
            ut@.len() == k,
            forall|i: int| 0 <= i < k ==> samlet(hoder@[i], hoder@, i, linjer@, #[trigger] ut@[i]),
        decreases hoder@.len() - k,
    {
        let h = &hoder[k];
        let mut lines: Vec<BilagLinje> = Vec::new();
        let mut i: usize = 0;
        while i < h.lines.len()
            invariant
                h == hoder@[k as int],
                i <= h.lines@.len(),
                lines@ == h.lines@.subrange(0, i as int),
            decreases h.lines@.len() - i,
        {
            let c = kopi_bilaglinje(&h.lines[i]);
            lines.push(c);
            i = i + 1;
            assert(lines@ =~= h.lines@.subrange(0, i as int));
        }
        assert(h.lines@.subrange(0, h.lines@.len() as int) =~= h.lines@);
        let mut m: usize = 0;
        while m < linjer.len()
            invariant
                h == hoder@[k as int],
                k < hoder@.len(),
                m <= linjer@.len(),
                lines@ == h.lines@ + linjer_til(hoder@, k as int, linjer@, m as int),
            decreases linjer@.len() - m,
        {
            if er_forste_med(hoder, k, linjer[m].0) {
                let c = kopi_bilaglinje(&linjer[m].1);
                lines.push(c);
            }
            m = m + 1;
        }
        ut.push(BilagMedLinjer {
            voucher_id: h.voucher_id,
            journal_code: h.journal_code.clone(),
            fiscal_year: h.fiscal_year,
            voucher_number: h.voucher_number,
            voucher_date: h.voucher_date,
            description: h.description.clone(),
            lines,
        });
        k = k + 1;
    }
    ut
}

} // verus!
