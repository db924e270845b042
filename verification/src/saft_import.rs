//! SAF-T migration import: the rules that turn a parsed SAF-T file into
//! accounts, parties and vouchers for an empty ledger.
//!
//! - Accounts must be 4-digit NS 4102 numbers.
//! - Parties keep numeric ids; others are renumbered from 90000.
//! - An account is flagged as reskontro (kunde/leverandør) only when
//!   every line on it carries a party; mixed accounts lose their links.
//! - Opening balances become one voucher dated the day before history
//!   starts and must sum to zero.
//! - Unknown VAT codes are dropped.

use crate::bilag::{EntryDraft, VoucherDraft, enkel_linje, linje};
use crate::dato::{Dato, dagen_for, er_for, for_, forrige_dag, gyldig};
use crate::tekst::{alle_siffer, bare_siffer, desimal, forkortet, heltall_tekst, kopi_valg, like, opt_syn, streng_av};
use vstd::prelude::*;
use vstd::string::*;

verus! {

/// An account in the file.
#[derive(Clone, Debug)]
pub struct ImportAccount {
    pub account_id: String,
    pub name: String,
    pub opening_ore: i64,
}

/// A customer or supplier in the file.
#[derive(Clone, Debug)]
pub struct ImportParty {
    pub source_id: String,
    pub name: String,
    pub orgnr: Option<String>,
}

/// A transaction line in the file.
#[derive(Clone, Debug)]
pub struct ImportLine {
    pub account_id: String,
    pub amount_ore: i64,
    pub customer_id: Option<String>,
    pub supplier_id: Option<String>,
    pub tax_code: Option<String>,
    pub description: Option<String>,
}

/// A transaction in the file.
#[derive(Clone, Debug)]
pub struct ImportTransaction {
    pub source_id: String,
    pub date: Dato,
    pub description: String,
    pub lines: Vec<ImportLine>,
}

/// What the import did.
#[derive(Clone, Debug)]
pub struct ImportReport {
    pub accounts: usize,
    pub customers: usize,
    pub suppliers: usize,
    pub vouchers: usize,
    pub opening_posted: bool,
    pub warnings: Vec<String>,
}

/// A 4-digit NS 4102 account number.
pub open spec fn ns4102(id: Seq<char>) -> bool {
    id.len() == 4 && alle_siffer(id)
}

/// Whether an account id is a 4-digit NS 4102 number.
pub fn er_ns4102(id: &str) -> (r: bool)
    ensures
        r == ns4102(id@),
{
    id.unicode_len() == 4 && bare_siffer(id)
}

/// The ids among the first `n` accounts that are not 4-digit numbers.
pub open spec fn ugyldige_til(a: Seq<ImportAccount>, n: int) -> Seq<Seq<char>>
    decreases n,
{
    if n <= 0 {
        Seq::empty()
    } else if !ns4102(a[n - 1].account_id@) {
        ugyldige_til(a, n - 1).push(a[n - 1].account_id@)
    } else {
        ugyldige_til(a, n - 1)
    }
}

/// The ids of the file's accounts that are not 4-digit numbers, in file
/// order. The import refuses the file unless this is empty.
pub fn ugyldige_kontoer(accounts: &Vec<ImportAccount>) -> (r: Vec<String>)
    ensures
        tekster(r@) == ugyldige_til(accounts@, accounts@.len() as int),
{
    let mut ut: Vec<String> = Vec::new();
    let mut i: usize = 0;
    while i < accounts.len()
        invariant
            i <= accounts@.len(),
            tekster(ut@) == ugyldige_til(accounts@, i as int),
        decreases accounts@.len() - i,
    {
        if !er_ns4102(accounts[i].account_id.as_str()) {
            let ghost u0 = ut@;
            ut.push(accounts[i].account_id.clone());
            assert(tekster(ut@) =~= tekster(u0).push(accounts@[i as int].account_id@));
        }
        i = i + 1;
    }
    ut
}

/// The name an account gets: its own, or "Importert konto" when empty.
pub fn kontonavn(name: &str) -> (r: String)
    ensures
        r@ == (if name@.len() == 0 {
            "Importert konto"@
        } else {
            name@
        }),
{
    if name.is_empty() {
        String::from_str("Importert konto")
    } else {
        name.to_owned()
    }
}

/// The name a party gets: its own, or "Importert part" when empty.
pub fn partnavn(name: &str) -> (r: String)
    ensures
        r@ == (if name@.len() == 0 {
            "Importert part"@
        } else {
            name@
        }),
{
    if name.is_empty() {
        String::from_str("Importert part")
    } else {
        name.to_owned()
    }
}

/// A party id kept as the party number: non-empty and digits only.
pub open spec fn beholdes(id: Seq<char>) -> bool {
    id.len() > 0 && alle_siffer(id)
}

/// How many of the first `n` ids are renumbered.
pub open spec fn omnummererte(ids: Seq<Seq<char>>, n: int) -> int
    decreases n,
{
    if n <= 0 {
        0
    } else {
        omnummererte(ids, n - 1) + if beholdes(ids[n - 1]) {
            0int
        } else {
            1int
        }
    }
}

/// The party number the id at `i` gets: the id itself when numeric,
/// otherwise the next number from 90000 on, in renumbering order (the
/// first renumbered party gets 90000).
pub open spec fn partnummer(ids: Seq<Seq<char>>, i: int) -> Seq<char> {
    if beholdes(ids[i]) {
        ids[i]
    } else {
        desimal(90_000 + omnummererte(ids, i + 1) - 1)
    }
}

proof fn lemma_omnummererte_grense(ids: Seq<Seq<char>>, n: int)
    requires
        0 <= n <= ids.len(),
    ensures
        0 <= omnummererte(ids, n) <= n,
    decreases n,
{
    if n > 0 {
        lemma_omnummererte_grense(ids, n - 1);
    }
}

/// Party numbers for the file's parties, customers first, then
/// suppliers (the order the import creates them in). Also tells which
/// were renumbered, so the report can say so.
pub fn nummerer_parter(ids: &Vec<String>) -> (r: (Vec<String>, Vec<bool>))
    requires
        ids@.len() < 0x4000_0000_0000_0000,
    ensures
        r.0@.len() == ids@.len(),
        r.1@.len() == ids@.len(),
        forall|i: int| 0 <= i < ids@.len() ==> #[trigger] r.0@[i]@ == partnummer(
            ids@.map_values(|s: String| s@),
            i,
        ),
        forall|i: int| 0 <= i < ids@.len() ==> #[trigger] r.1@[i] == !beholdes(ids@[i]@),
{
    let ghost v = ids@.map_values(|s: String| s@);
    let mut numre: Vec<String> = Vec::new();
    let mut omnummerert: Vec<bool> = Vec::new();
    let mut neste: i64 = 90_000;
    let mut i: usize = 0;
    while i < ids.len()
        invariant
            i <= ids@.len(),
            ids@.len() < 0x4000_0000_0000_0000,
            v == ids@.map_values(|s: String| s@),
            numre@.len() == i,
            omnummerert@.len() == i,
            neste == 90_000 + omnummererte(v, i as int),
            forall|k: int| 0 <= k < i ==> #[trigger] numre@[k]@ == partnummer(v, k),
            forall|k: int| 0 <= k < i ==> #[trigger] omnummerert@[k] == !beholdes(ids@[k]@),
        decreases ids@.len() - i,
    {
        proof {
            lemma_omnummererte_grense(v, i as int);
        }
        assert(v[i as int] == ids@[i as int]@);
        let id = ids[i].as_str();
        if id.unicode_len() > 0 && bare_siffer(id) {
            numre.push(ids[i].clone());
            omnummerert.push(false);
        } else {
            numre.push(heltall_tekst(neste));
            neste = neste + 1;
            omnummerert.push(true);
        }
        i = i + 1;
    }
    (numre, omnummerert)
}

/// A party number assigned during the import, keyed by kind and the
/// file's own id.
#[derive(Clone, Debug)]
pub struct Partnummer {
    pub kunde: bool,
    pub source_id: String,
    pub party_no: String,
}

/// The map as plain values: kind (customer or not), file id, number.
pub open spec fn kart_syn(k: Seq<Partnummer>) -> Seq<(bool, Seq<char>, Seq<char>)> {
    k.map_values(|p: Partnummer| (p.kunde, p.source_id@, p.party_no@))
}

/// The number the map gives a file party of a kind: the last entry for
/// that kind and id (a later assignment replaces an earlier one).
pub open spec fn oppslag(kart: Seq<(bool, Seq<char>, Seq<char>)>, n: int, kunde: bool, id: Seq<char>) -> Option<Seq<char>>
    decreases n,
{
    if n <= 0 {
        None
    } else if kart[n - 1].0 == kunde && kart[n - 1].1 == id {
        Some(kart[n - 1].2)
    } else {
        oppslag(kart, n - 1, kunde, id)
    }
}

/// Looks a file party up in the assigned numbers.
pub fn finn_partnummer(kart: &Vec<Partnummer>, kunde: bool, source_id: &str) -> (r: Option<String>)
    ensures
        opt_syn(r) == oppslag(kart_syn(kart@), kart@.len() as int, kunde, source_id@),
{
    let ghost k = kart_syn(kart@);
    let mut i: usize = kart.len();
    while i > 0
        invariant
            i <= kart@.len(),
            k == kart_syn(kart@),
            oppslag(k, kart@.len() as int, kunde, source_id@) == oppslag(k, i as int, kunde, source_id@),
        decreases i,
    {
        let p = &kart[i - 1];
        assert(k[i - 1] == (p.kunde, p.source_id@, p.party_no@));
        if p.kunde == kunde && like(p.source_id.as_str(), source_id) {
            return Some(p.party_no.clone());
        }
        i = i - 1;
    }
    None
}

/// A copy of a file line.
pub fn kopi_linje(l: &ImportLine) -> (r: ImportLine)
    ensures
        r == *l,
{
    ImportLine {
        account_id: l.account_id.clone(),
        amount_ore: l.amount_ore,
        customer_id: kopi_valg(&l.customer_id),
        supplier_id: kopi_valg(&l.supplier_id),
        tax_code: kopi_valg(&l.tax_code),
        description: kopi_valg(&l.description),
    }
}

/// All lines of the first `n` transactions, in file order.
pub open spec fn linjer_til(t: Seq<ImportTransaction>, n: int) -> Seq<ImportLine>
    decreases n,
{
    if n <= 0 {
        Seq::empty()
    } else {
        linjer_til(t, n - 1) + t[n - 1].lines@
    }
}

pub open spec fn alle_linjer_i(t: Seq<ImportTransaction>) -> Seq<ImportLine> {
    linjer_til(t, t.len() as int)
}

/// Every line of every transaction, in file order.
pub fn alle_linjer(transactions: &Vec<ImportTransaction>) -> (r: Vec<ImportLine>)
    ensures
        r@ == alle_linjer_i(transactions@),
{
    let mut ut: Vec<ImportLine> = Vec::new();
    let mut i: usize = 0;
    while i < transactions.len()
        invariant
            i <= transactions@.len(),
            ut@ == linjer_til(transactions@, i as int),
        decreases transactions@.len() - i,
    {
        let lines = &transactions[i].lines;
        let ghost foer = ut@;
        let mut j: usize = 0;
        while j < lines.len()
            invariant
                j <= lines@.len(),
                i < transactions@.len(),
                foer == linjer_til(transactions@, i as int),
                *lines == transactions@[i as int].lines,
                ut@ == foer + lines@.subrange(0, j as int),
            decreases lines@.len() - j,
        {
            ut.push(kopi_linje(&lines[j]));
            j = j + 1;
            assert(ut@ =~= foer + lines@.subrange(0, j as int));
        }
        assert(lines@.subrange(0, lines@.len() as int) =~= lines@);
        assert(ut@ =~= linjer_til(transactions@, i + 1));
        i = i + 1;
    }
    ut
}

} // verus!

verus! {

/// The line carries a customer or a supplier.
pub open spec fn har_part(l: ImportLine) -> bool {
    l.customer_id is Some || l.supplier_id is Some
}

/// Lines among the first `n` on account `konto` that carry a party.
pub open spec fn med_part(ls: Seq<ImportLine>, n: int, konto: Seq<char>) -> int
    decreases n,
{
    if n <= 0 {
        0
    } else {
        med_part(ls, n - 1, konto) + if ls[n - 1].account_id@ == konto && har_part(ls[n - 1]) {
            1int
        } else {
            0int
        }
    }
}

/// Lines among the first `n` on account `konto` that carry no party.
pub open spec fn uten_part(ls: Seq<ImportLine>, n: int, konto: Seq<char>) -> int
    decreases n,
{
    if n <= 0 {
        0
    } else {
        uten_part(ls, n - 1, konto) + if ls[n - 1].account_id@ == konto && !har_part(ls[n - 1]) {
            1int
        } else {
            0int
        }
    }
}

/// Whether the last line with a party on `konto` (among the first `n`)
/// carries a customer (`true`, also when there is none) or a supplier.
pub open spec fn siste_kunde(ls: Seq<ImportLine>, n: int, konto: Seq<char>) -> bool
    decreases n,
{
    if n <= 0 {
        true
    } else if ls[n - 1].account_id@ == konto && har_part(ls[n - 1]) {
        ls[n - 1].customer_id is Some
    } else {
        siste_kunde(ls, n - 1, konto)
    }
}

/// The accounts of the first `n` lines, each once, in the order they
/// first occur.
pub open spec fn kontoer_til(ls: Seq<ImportLine>, n: int) -> Seq<Seq<char>>
    decreases n,
{
    if n <= 0 {
        Seq::empty()
    } else {
        let forrige = kontoer_til(ls, n - 1);
        if forrige.contains(ls[n - 1].account_id@) {
            forrige
        } else {
            forrige.push(ls[n - 1].account_id@)
        }
    }
}

/// Per-account tally of the lines: with party, without, and the kind of
/// the last party seen.
#[derive(Clone, Debug)]
pub struct Teller {
    pub konto: String,
    pub med_part: usize,
    pub uten_part: usize,
    pub kunde: bool,
}

/// The tally is the one of the first `n` lines for its account.
pub open spec fn teller_for(ls: Seq<ImportLine>, n: int, t: Teller) -> bool {
    &&& t.med_part == med_part(ls, n, t.konto@)
    &&& t.uten_part == uten_part(ls, n, t.konto@)
    &&& t.kunde == siste_kunde(ls, n, t.konto@)
}

proof fn lemma_ukjent_konto(ls: Seq<ImportLine>, n: int, konto: Seq<char>)
    requires
        0 <= n <= ls.len(),
        !kontoer_til(ls, n).contains(konto),
    ensures
        med_part(ls, n, konto) == 0,
        uten_part(ls, n, konto) == 0,
        siste_kunde(ls, n, konto),
    decreases n,
{
    if n > 0 {
        let forrige = kontoer_til(ls, n - 1);
        if forrige.contains(konto) {
            let j = choose|j: int| 0 <= j < forrige.len() && forrige[j] == konto;
            assert(kontoer_til(ls, n)[j] == konto);
        }
        if ls[n - 1].account_id@ == konto {
            if !forrige.contains(ls[n - 1].account_id@) {
                assert(kontoer_til(ls, n) == forrige.push(konto));
                assert(kontoer_til(ls, n)[forrige.len() as int] == konto);
            }
        }
        lemma_ukjent_konto(ls, n - 1, konto);
    }
}

proof fn lemma_kontoer_distinkte(ls: Seq<ImportLine>, n: int)
    requires
        0 <= n <= ls.len(),
    ensures
        kontoer_til(ls, n).no_duplicates(),
    decreases n,
{
    if n > 0 {
        lemma_kontoer_distinkte(ls, n - 1);
    }
}

proof fn lemma_konto_tidligere(ls: Seq<ImportLine>, n: int, k: int)
    requires
        0 <= k < n <= ls.len(),
    ensures
        kontoer_til(ls, n).contains(ls[k].account_id@),
    decreases n,
{
    if k < n - 1 {
        lemma_konto_tidligere(ls, n - 1, k);
        let forrige = kontoer_til(ls, n - 1);
        let j = choose|j: int| 0 <= j < forrige.len() && forrige[j] == ls[k].account_id@;
        if !forrige.contains(ls[n - 1].account_id@) {
            assert(kontoer_til(ls, n)[j] == ls[k].account_id@);
        }
    } else {
        let forrige = kontoer_til(ls, n - 1);
        if !forrige.contains(ls[n - 1].account_id@) {
            assert(kontoer_til(ls, n)[forrige.len() as int] == ls[k].account_id@);
        }
    }
}

/// Tallies the lines per account, accounts in order of first occurrence.
pub fn tell_linjer(ls: &Vec<ImportLine>) -> (r: Vec<Teller>)
    ensures
        r@.len() == kontoer_til(ls@, ls@.len() as int).len(),
        forall|j: int| 0 <= j < r@.len() ==> #[trigger] r@[j].konto@ == kontoer_til(ls@, ls@.len() as int)[j],
        forall|j: int| 0 <= j < r@.len() ==> #[trigger] teller_for(ls@, ls@.len() as int, r@[j]),
{
    let mut t: Vec<Teller> = Vec::new();
    let mut i: usize = 0;
    while i < ls.len()
        invariant
            i <= ls@.len(),
            t@.len() == kontoer_til(ls@, i as int).len(),
            t@.len() <= i,
            forall|j: int| 0 <= j < t@.len() ==> #[trigger] t@[j].konto@ == kontoer_til(ls@, i as int)[j],
            forall|j: int| 0 <= j < t@.len() ==> #[trigger] teller_for(ls@, i as int, t@[j]),
            forall|j: int| 0 <= j < t@.len() ==> t@[j].med_part <= i && t@[j].uten_part <= i,
        decreases ls@.len() - i,
    {
        let l = &ls[i];
        let ghost forrige = kontoer_til(ls@, i as int);
        proof {
            lemma_kontoer_distinkte(ls@, i as int);
        }
        let mut j: usize = 0;
        while j < t.len() && !like(t[j].konto.as_str(), l.account_id.as_str())
            invariant
                j <= t@.len(),
                forall|k: int| 0 <= k < j ==> #[trigger] t@[k].konto@ != l.account_id@,
            decreases t@.len() - j,
        {
            j = j + 1;
        }
        let part = l.customer_id.is_some() || l.supplier_id.is_some();
        if j < t.len() {
            assert(forrige.contains(l.account_id@)) by {
                assert(forrige[j as int] == l.account_id@);
            }
            assert(kontoer_til(ls@, i + 1) == forrige);
            let ny = Teller {
                konto: t[j].konto.clone(),
                med_part: if part { t[j].med_part + 1 } else { t[j].med_part },
                uten_part: if part { t[j].uten_part } else { t[j].uten_part + 1 },
                kunde: if part { l.customer_id.is_some() } else { t[j].kunde },
            };
            let ghost gt = t@;
            t.set(j, ny);
            assert forall|k: int| 0 <= k < t@.len() implies #[trigger] teller_for(ls@, i + 1, t@[k])
                && t@[k].med_part <= i + 1 && t@[k].uten_part <= i + 1 by {
                assert(teller_for(ls@, i as int, gt[k]));
                if k != j {
                    assert(gt[k].konto@ == forrige[k]);
                    assert(forrige[k] != forrige[j as int]);
                }
            }
        } else {
            assert(!forrige.contains(l.account_id@)) by {
                if forrige.contains(l.account_id@) {
                    let k = choose|k: int| 0 <= k < forrige.len() && forrige[k] == l.account_id@;
                    assert(t@[k].konto@ == l.account_id@);
                }
            }
            proof {
                lemma_ukjent_konto(ls@, i as int, l.account_id@);
            }
            let ny = Teller {
                konto: l.account_id.clone(),
                med_part: if part { 1 } else { 0 },
                uten_part: if part { 0 } else { 1 },
                kunde: if part { l.customer_id.is_some() } else { true },
            };
            let ghost gt = t@;
            t.push(ny);
            assert forall|k: int| 0 <= k < t@.len() implies #[trigger] teller_for(ls@, i + 1, t@[k])
                && t@[k].med_part <= i + 1 && t@[k].uten_part <= i + 1 by {
                if k < gt.len() {
                    assert(teller_for(ls@, i as int, gt[k]));
                    assert(gt[k].konto@ == forrige[k]);
                    assert(forrige[k] != l.account_id@);
                }
            }
            assert(t@.len() == kontoer_til(ls@, i + 1).len());
        }
        i = i + 1;
    }
    t
}

} // verus!

verus! {

/// The account is flagged: it has lines with a party and none without.
pub open spec fn flagges(ls: Seq<ImportLine>, konto: Seq<char>) -> bool {
    med_part(ls, ls.len() as int, konto) > 0 && uten_part(ls, ls.len() as int, konto) == 0
}

/// The account has lines both with and without a party.
pub open spec fn blandet(ls: Seq<ImportLine>, konto: Seq<char>) -> bool {
    med_part(ls, ls.len() as int, konto) > 0 && uten_part(ls, ls.len() as int, konto) > 0
}

/// The flagged accounts among the first `m` of `ks`, with whether each
/// is a customer (`true`) or supplier account.
pub open spec fn flagg_til(ls: Seq<ImportLine>, ks: Seq<Seq<char>>, m: int) -> Seq<(Seq<char>, bool)>
    decreases m,
{
    if m <= 0 {
        Seq::empty()
    } else if flagges(ls, ks[m - 1]) {
        flagg_til(ls, ks, m - 1).push((ks[m - 1], siste_kunde(ls, ls.len() as int, ks[m - 1])))
    } else {
        flagg_til(ls, ks, m - 1)
    }
}

/// The mixed accounts among the first `m` of `ks`.
pub open spec fn blandet_til(ls: Seq<ImportLine>, ks: Seq<Seq<char>>, m: int) -> Seq<Seq<char>>
    decreases m,
{
    if m <= 0 {
        Seq::empty()
    } else if blandet(ls, ks[m - 1]) {
        blandet_til(ls, ks, m - 1).push(ks[m - 1])
    } else {
        blandet_til(ls, ks, m - 1)
    }
}

/// All accounts of the lines, in order of first occurrence.
pub open spec fn kontoer(ls: Seq<ImportLine>) -> Seq<Seq<char>> {
    kontoer_til(ls, ls.len() as int)
}

/// The flagged accounts, in order of first occurrence.
pub open spec fn flaggede(ls: Seq<ImportLine>) -> Seq<(Seq<char>, bool)> {
    flagg_til(ls, kontoer(ls), kontoer(ls).len() as int)
}

/// The mixed accounts, in order of first occurrence.
pub open spec fn blandede(ls: Seq<ImportLine>) -> Seq<Seq<char>> {
    blandet_til(ls, kontoer(ls), kontoer(ls).len() as int)
}

/// A reskontro flag: the account and whether it is a customer account.
#[derive(Clone, Debug)]
pub struct Flagg {
    pub konto: String,
    pub kunde: bool,
}

/// The flags as plain values.
pub open spec fn flagg_syn(f: Seq<Flagg>) -> Seq<(Seq<char>, bool)> {
    f.map_values(|x: Flagg| (x.konto@, x.kunde))
}

/// The texts as plain values.
pub open spec fn tekster(v: Seq<String>) -> Seq<Seq<char>> {
    v.map_values(|x: String| x@)
}

/// Which accounts to flag and which are mixed, from the lines.
pub fn reskontro_analyse(ls: &Vec<ImportLine>) -> (r: (Vec<Flagg>, Vec<String>))
    ensures
        flagg_syn(r.0@) == flaggede(ls@),
        tekster(r.1@) == blandede(ls@),
{
    let t = tell_linjer(ls);
    let ghost ks = kontoer(ls@);
    let mut fl: Vec<Flagg> = Vec::new();
    let mut bl: Vec<String> = Vec::new();
    let mut m: usize = 0;
    while m < t.len()
        invariant
            m <= t@.len(),
            ks == kontoer(ls@),
            t@.len() == ks.len(),
            forall|j: int| 0 <= j < t@.len() ==> #[trigger] t@[j].konto@ == ks[j],
            forall|j: int| 0 <= j < t@.len() ==> #[trigger] teller_for(ls@, ls@.len() as int, t@[j]),
            flagg_syn(fl@) == flagg_til(ls@, ks, m as int),
            tekster(bl@) == blandet_til(ls@, ks, m as int),
        decreases t@.len() - m,
    {
        let x = &t[m];
        assert(teller_for(ls@, ls@.len() as int, t@[m as int]));
        assert(x.konto@ == ks[m as int]);
        if x.med_part > 0 && x.uten_part == 0 {
            let ghost f0 = fl@;
            fl.push(Flagg { konto: x.konto.clone(), kunde: x.kunde });
            assert(flagg_syn(fl@) =~= flagg_syn(f0).push((ks[m as int], x.kunde)));
        } else if x.med_part > 0 {
            let ghost b0 = bl@;
            bl.push(x.konto.clone());
            assert(tekster(bl@) =~= tekster(b0).push(ks[m as int]));
        }
        m = m + 1;
    }
    (fl, bl)
}

} // verus!

verus! {

/// A parsed SAF-T file.
#[derive(Clone, Debug)]
pub struct SaftFil {
    pub selection_start: Option<Dato>,
    pub accounts: Vec<ImportAccount>,
    pub customers: Vec<ImportParty>,
    pub suppliers: Vec<ImportParty>,
    pub transactions: Vec<ImportTransaction>,
}

/// Why an import is refused.
#[derive(Clone, Debug)]
pub enum ImportFeil {
    /// The ledger already has vouchers.
    IkkeTomt { last_seq: i64 },
    /// Accounts that are not 4-digit numbers, in file order.
    UgyldigeKontoer { kontoer: Vec<String> },
    /// Opening balances but no date to put them on.
    UtenDato,
    /// The opening balances do not sum to zero.
    ApningIkkeNull { sum: i128 },
    /// The day before history starts is outside the calendar.
    Datoomrade,
    /// A transaction with fewer than two lines.
    ForFaLinjer { source_id: String },
    /// Neither accounts nor transactions.
    IngentingAImportere,
}

/// The accounts among the first `n` with a non-zero opening balance.
pub open spec fn apning_til(a: Seq<ImportAccount>, n: int) -> Seq<ImportAccount>
    decreases n,
{
    if n <= 0 {
        Seq::empty()
    } else if a[n - 1].opening_ore != 0 {
        apning_til(a, n - 1).push(a[n - 1])
    } else {
        apning_til(a, n - 1)
    }
}

pub open spec fn apning(a: Seq<ImportAccount>) -> Seq<ImportAccount> {
    apning_til(a, a.len() as int)
}

/// Sum of the opening balances of the first `n` accounts.
pub open spec fn apning_sum(a: Seq<ImportAccount>, n: int) -> int
    decreases n,
{
    if n <= 0 {
        0
    } else {
        apning_sum(a, n - 1) + a[n - 1].opening_ore
    }
}

/// The earliest transaction date among the first `n`.
pub open spec fn tidligste(t: Seq<ImportTransaction>, n: int) -> Option<Dato>
    decreases n,
{
    if n <= 0 {
        None
    } else {
        match tidligste(t, n - 1) {
            None => Some(t[n - 1].date),
            Some(d) => if for_(t[n - 1].date, d) {
                Some(t[n - 1].date)
            } else {
                Some(d)
            },
        }
    }
}

/// When history starts: the file's selection start, else its earliest
/// transaction.
pub open spec fn historiestart(f: SaftFil) -> Option<Dato> {
    match f.selection_start {
        Some(d) => Some(d),
        None => tidligste(f.transactions@, f.transactions@.len() as int),
    }
}

/// The dates in the file exist in the calendar.
pub open spec fn datoer_gyldige(f: SaftFil) -> bool {
    &&& (f.selection_start matches Some(d) ==> gyldig(d))
    &&& forall|i: int| 0 <= i < f.transactions@.len() ==> #[trigger] gyldig(f.transactions@[i].date)
}

/// The opening voucher: journal IMP, dated `dato`, one plain line per
/// account with a non-zero opening balance, in file order.
pub open spec fn apningsbilag_av(a: Seq<ImportAccount>, dato: Dato, v: VoucherDraft) -> bool {
    &&& v.journal_code@ == "IMP"@
    &&& v.voucher_date == dato
    &&& v.description@ == "Åpningsbalanse fra SAF-T-import"@
    &&& v.reverses is None
    &&& v.entries@.len() == apning(a).len()
    &&& forall|k: int| 0 <= k < v.entries@.len() ==> #[trigger] enkel_linje(
        apning(a)[k].account_id@,
        apning(a)[k].opening_ore as int,
        None,
        v.entries@[k],
    )
}

proof fn lemma_tidligste_gyldig(t: Seq<ImportTransaction>, n: int)
    requires
        0 <= n <= t.len(),
        forall|i: int| 0 <= i < t.len() ==> #[trigger] gyldig(t[i].date),
    ensures
        tidligste(t, n) matches Some(d) ==> gyldig(d),
    decreases n,
{
    if n > 0 {
        lemma_tidligste_gyldig(t, n - 1);
        assert(gyldig(t[n - 1].date));
    }
}

/// The earliest transaction date.
pub fn tidligste_dato(t: &Vec<ImportTransaction>) -> (r: Option<Dato>)
    ensures
        r == tidligste(t@, t@.len() as int),
{
    let mut best: Option<Dato> = None;
    let mut i: usize = 0;
    while i < t.len()
        invariant
            i <= t@.len(),
            best == tidligste(t@, i as int),
        decreases t@.len() - i,
    {
        let d = t[i].date;
        best = match best {
            None => Some(d),
            Some(b) => if er_for(d, b) {
                Some(d)
            } else {
                Some(b)
            },
        };
        i = i + 1;
    }
    best
}

/// The opening voucher the file calls for: `None` when no account has an
/// opening balance; an error when there is no date for it, the balances
/// do not sum to zero, or the day before history starts does not exist.
pub fn apningsbilag(f: &SaftFil) -> (r: Result<Option<VoucherDraft>, ImportFeil>)
    requires
        datoer_gyldige(*f),
    ensures
        apning(f.accounts@).len() == 0 ==> r matches Ok(None),
        apning(f.accounts@).len() > 0 ==> match r {
            Ok(None) => false,
            Ok(Some(v)) => historiestart(*f) matches Some(s) && apning_sum(
                f.accounts@,
                f.accounts@.len() as int,
            ) == 0 && dagen_for(s) == Some(v.voucher_date) && apningsbilag_av(
                f.accounts@,
                v.voucher_date,
                v,
            ),
            Err(ImportFeil::UtenDato) => historiestart(*f) is None,
            Err(ImportFeil::ApningIkkeNull { sum }) => historiestart(*f) is Some && sum
                == apning_sum(f.accounts@, f.accounts@.len() as int) && sum != 0,
            Err(ImportFeil::Datoomrade) => historiestart(*f) matches Some(s) && apning_sum(
                f.accounts@,
                f.accounts@.len() as int,
            ) == 0 && dagen_for(s) is None,
            Err(_) => false,
        },
{
    let a = &f.accounts;
    let mut linjer: Vec<EntryDraft> = Vec::new();
    let mut sum: i128 = 0;
    let mut i: usize = 0;
    while i < a.len()
        invariant
            i <= a@.len(),
            sum == apning_sum(a@, i as int),
            -(i as int) * 0x8000_0000_0000_0000 <= sum <= (i as int) * 0x8000_0000_0000_0000,
            linjer@.len() == apning_til(a@, i as int).len(),
            forall|k: int| 0 <= k < linjer@.len() ==> #[trigger] enkel_linje(
                apning_til(a@, i as int)[k].account_id@,
                apning_til(a@, i as int)[k].opening_ore as int,
                None,
                linjer@[k],
            ),
        decreases a@.len() - i,
    {
        assert(a@.len() <= usize::MAX);
        let x = &a[i];
        sum = sum + x.opening_ore as i128;
        if x.opening_ore != 0 {
            let e = linje(x.account_id.as_str(), x.opening_ore, None);
            linjer.push(e);
        }
        i = i + 1;
    }
    if linjer.len() == 0 {
        return Ok(None);
    }
    let start = match f.selection_start {
        Some(d) => Some(d),
        None => tidligste_dato(&f.transactions),
    };
    let start = match start {
        Some(d) => d,
        None => {
            return Err(ImportFeil::UtenDato);
        },
    };
    if sum != 0 {
        return Err(ImportFeil::ApningIkkeNull { sum });
    }
    proof {
        lemma_tidligste_gyldig(f.transactions@, f.transactions@.len() as int);
    }
    let dato = match forrige_dag(start) {
        Some(d) => d,
        None => {
            return Err(ImportFeil::Datoomrade);
        },
    };
    Ok(
        Some(
            VoucherDraft {
                journal_code: String::from_str("IMP"),
                voucher_date: dato,
                description: String::from_str("Åpningsbalanse fra SAF-T-import"),
                reverses: None,
                entries: linjer,
            },
        ),
    )
}

} // verus!

verus! {

/// The ids of the accounts with an opening balance, in file order.
pub open spec fn apningskontoer(a: Seq<ImportAccount>) -> Seq<Seq<char>> {
    apning(a).map_values(|x: ImportAccount| x.account_id@)
}

/// The flags have an entry for the account.
pub open spec fn har_flagg(fl: Seq<(Seq<char>, bool)>, konto: Seq<char>) -> bool {
    exists|i: int| 0 <= i < fl.len() && fl[i].0 == konto
}

/// The first `m` flags, without the accounts that have an opening balance.
pub open spec fn uten_apning(fl: Seq<(Seq<char>, bool)>, aks: Seq<Seq<char>>, m: int) -> Seq<(Seq<char>, bool)>
    decreases m,
{
    if m <= 0 {
        Seq::empty()
    } else if aks.contains(fl[m - 1].0) {
        uten_apning(fl, aks, m - 1)
    } else {
        uten_apning(fl, aks, m - 1).push(fl[m - 1])
    }
}

/// Opening accounts among the first `k` that lose a flag, each once.
pub open spec fn mistet_flagg(aks: Seq<Seq<char>>, fl: Seq<(Seq<char>, bool)>, k: int) -> Seq<Seq<char>>
    decreases k,
{
    if k <= 0 {
        Seq::empty()
    } else if har_flagg(fl, aks[k - 1]) && !aks.take(k - 1).contains(aks[k - 1]) {
        mistet_flagg(aks, fl, k - 1).push(aks[k - 1])
    } else {
        mistet_flagg(aks, fl, k - 1)
    }
}

/// The texts in `v[..n]` include `s`.
pub fn finnes_blant(v: &Vec<String>, n: usize, s: &str) -> (r: bool)
    requires
        n <= v@.len(),
    ensures
        r == tekster(v@).take(n as int).contains(s@),
{
    let mut i: usize = 0;
    while i < n
        invariant
            i <= n <= v@.len(),
            forall|k: int| 0 <= k < i ==> v@[k]@ != s@,
        decreases n - i,
    {
        if like(v[i].as_str(), s) {
            assert(tekster(v@).take(n as int)[i as int] == s@);
            return true;
        }
        i = i + 1;
    }
    assert(!tekster(v@).take(n as int).contains(s@)) by {
        if tekster(v@).take(n as int).contains(s@) {
            let k = choose|k: int| 0 <= k < n && tekster(v@).take(n as int)[k] == s@;
            assert(v@[k]@ == s@);
        }
    }
    false
}

/// The ids of the accounts with an opening balance.
pub fn apningskonto_ider(a: &Vec<ImportAccount>) -> (r: Vec<String>)
    ensures
        tekster(r@) == apningskontoer(a@),
{
    let mut r: Vec<String> = Vec::new();
    let mut i: usize = 0;
    while i < a.len()
        invariant
            i <= a@.len(),
            tekster(r@) == apning_til(a@, i as int).map_values(|x: ImportAccount| x.account_id@),
        decreases a@.len() - i,
    {
        if a[i].opening_ore != 0 {
            let ghost r0 = r@;
            r.push(a[i].account_id.clone());
            assert(tekster(r@) =~= tekster(r0).push(a@[i as int].account_id@));
            assert(apning_til(a@, i + 1).map_values(|x: ImportAccount| x.account_id@)
                =~= apning_til(a@, i as int).map_values(|x: ImportAccount| x.account_id@).push(a@[i as int].account_id@));
        }
        i = i + 1;
    }
    r
}

/// Removes the flags of accounts that carry an opening balance, and
/// names those accounts (each once, in opening order) for a warning.
pub fn fjern_apningsflagg(fl: &Vec<Flagg>, aks: &Vec<String>) -> (r: (Vec<Flagg>, Vec<String>))
    ensures
        flagg_syn(r.0@) == uten_apning(flagg_syn(fl@), tekster(aks@), fl@.len() as int),
        tekster(r.1@) == mistet_flagg(tekster(aks@), flagg_syn(fl@), aks@.len() as int),
{
    let ghost a = tekster(aks@);
    let ghost f = flagg_syn(fl@);
    let mut ut: Vec<Flagg> = Vec::new();
    let mut m: usize = 0;
    while m < fl.len()
        invariant
            m <= fl@.len(),
            a == tekster(aks@),
            f == flagg_syn(fl@),
            flagg_syn(ut@) == uten_apning(f, a, m as int),
        decreases fl@.len() - m,
    {
        let x = &fl[m];
        assert(f[m as int] == (x.konto@, x.kunde));
        assert(tekster(aks@).take(aks@.len() as int) =~= a);
        if !finnes_blant(aks, aks.len(), x.konto.as_str()) {
            let ghost u0 = ut@;
            ut.push(Flagg { konto: x.konto.clone(), kunde: x.kunde });
            assert(flagg_syn(ut@) =~= flagg_syn(u0).push(f[m as int]));
        }
        m = m + 1;
    }
    let mut tapt: Vec<String> = Vec::new();
    let mut k: usize = 0;
    while k < aks.len()
        invariant
            k <= aks@.len(),
            a == tekster(aks@),
            f == flagg_syn(fl@),
            tekster(tapt@) == mistet_flagg(a, f, k as int),
        decreases aks@.len() - k,
    {
        let konto = aks[k].as_str();
        assert(a[k as int] == konto@);
        let mut j: usize = 0;
        while j < fl.len() && !like(fl[j].konto.as_str(), konto)
            invariant
                j <= fl@.len(),
                f == flagg_syn(fl@),
                forall|i: int| 0 <= i < j ==> #[trigger] f[i].0 != konto@,
            decreases fl@.len() - j,
        {
            assert(f[j as int].0 == fl@[j as int].konto@);
            j = j + 1;
        }
        let flagget = j < fl.len();
        assert(flagget == har_flagg(f, konto@)) by {
            if flagget {
                assert(f[j as int].0 == konto@);
            } else if har_flagg(f, konto@) {
                let i = choose|i: int| 0 <= i < f.len() && f[i].0 == konto@;
                assert(f[i].0 != konto@);
            }
        }
        assert(tekster(aks@).take(k as int) =~= a.take(k as int));
        if flagget && !finnes_blant(aks, k, konto) {
            let ghost t0 = tapt@;
            tapt.push(aks[k].clone());
            assert(tekster(tapt@) =~= tekster(t0).push(a[k as int]));
        }
        k = k + 1;
    }
    (ut, tapt)
}

} // verus!

verus! {

/// The first `max_chars` characters of `s` (all of it when shorter).
pub fn crate_trunc(s: &str, max_chars: usize) -> (r: String)
    ensures
        r@ == forkortet(s@, max_chars as int),
{
    let n = s.unicode_len();
    let mut v: Vec<char> = Vec::new();
    let mut i: usize = 0;
    while i < n && i < max_chars
        invariant
            n == s@.len(),
            i <= n,
            i <= max_chars,
            v@ == s@.subrange(0, i as int),
        decreases n - i,
    {
        v.push(s.get_char(i));
        i = i + 1;
        assert(v@ =~= s@.subrange(0, i as int));
    }
    if n <= max_chars {
        assert(v@ =~= s@);
    }
    streng_av(&v)
}

/// The VAT codes of the first `n` lines that are not known, each once, in
/// order of first occurrence.
pub open spec fn ukjente_til(ls: Seq<ImportLine>, kjente: Seq<Seq<char>>, n: int) -> Seq<Seq<char>>
    decreases n,
{
    if n <= 0 {
        Seq::empty()
    } else {
        let forrige = ukjente_til(ls, kjente, n - 1);
        match ls[n - 1].tax_code {
            Some(c) => if !kjente.contains(c@) && !forrige.contains(c@) {
                forrige.push(c@)
            } else {
                forrige
            },
            None => forrige,
        }
    }
}

/// The unknown VAT codes of the lines, each once, in order of first
/// occurrence; each is dropped with one warning.
pub fn ukjente_koder(ls: &Vec<ImportLine>, kjente: &Vec<String>) -> (r: Vec<String>)
    ensures
        tekster(r@) == ukjente_til(ls@, tekster(kjente@), ls@.len() as int),
{
    let ghost k = tekster(kjente@);
    let mut ut: Vec<String> = Vec::new();
    let mut i: usize = 0;
    while i < ls.len()
        invariant
            i <= ls@.len(),
            k == tekster(kjente@),
            tekster(ut@) == ukjente_til(ls@, k, i as int),
        decreases ls@.len() - i,
    {
        match &ls[i].tax_code {
            Some(c) => {
                assert(tekster(kjente@).take(kjente@.len() as int) =~= k);
                assert(tekster(ut@).take(ut@.len() as int) =~= tekster(ut@));
                if !finnes_blant(kjente, kjente.len(), c.as_str()) && !finnes_blant(
                    &ut,
                    ut.len(),
                    c.as_str(),
                ) {
                    let ghost u0 = ut@;
                    ut.push(c.clone());
                    assert(tekster(ut@) =~= tekster(u0).push(c@));
                }
            },
            None => {},
        }
        i = i + 1;
    }
    ut
}

/// The flag the first `n` flags give an account: `Some(true)` for a
/// customer account, `Some(false)` for a supplier account.
pub open spec fn flagg_for(fl: Seq<(Seq<char>, bool)>, n: int, konto: Seq<char>) -> Option<bool>
    decreases n,
{
    if n <= 0 {
        None
    } else if fl[n - 1].0 == konto {
        Some(fl[n - 1].1)
    } else {
        flagg_for(fl, n - 1, konto)
    }
}

/// The party number a line gets: on a flagged account, the number given
/// to the line's customer (or supplier); otherwise none.
pub open spec fn partnr_for(l: ImportLine, fl: Seq<(Seq<char>, bool)>, kart: Seq<(bool, Seq<char>, Seq<char>)>) -> Option<Seq<char>> {
    match flagg_for(fl, fl.len() as int, l.account_id@) {
        Some(true) => match l.customer_id {
            Some(id) => oppslag(kart, kart.len() as int, true, id@),
            None => None,
        },
        Some(false) => match l.supplier_id {
            Some(id) => oppslag(kart, kart.len() as int, false, id@),
            None => None,
        },
        None => None,
    }
}

/// The line's VAT code, when known.
pub open spec fn mva_for(l: ImportLine, kjente: Seq<Seq<char>>) -> Option<Seq<char>> {
    match l.tax_code {
        Some(c) => if kjente.contains(c@) {
            Some(c@)
        } else {
            None
        },
        None => None,
    }
}

/// The line's description, when not empty.
pub open spec fn tekst_for(l: ImportLine) -> Option<Seq<char>> {
    match l.description {
        Some(d) => if d@.len() > 0 {
            Some(d@)
        } else {
            None
        },
        None => None,
    }
}

/// The voucher line made from a file line.
pub open spec fn post_av(
    l: ImportLine,
    fl: Seq<(Seq<char>, bool)>,
    kart: Seq<(bool, Seq<char>, Seq<char>)>,
    kjente: Seq<Seq<char>>,
    e: EntryDraft,
) -> bool {
    &&& e.account_number@ == l.account_id@
    &&& e.amount_ore == l.amount_ore
    &&& opt_syn(e.vat_code) == mva_for(l, kjente)
    &&& opt_syn(e.description) == tekst_for(l)
    &&& opt_syn(e.party_no) == partnr_for(l, fl, kart)
    &&& e.avdeling is None
    &&& e.prosjekt is None
    &&& e.valuta is None
}

/// The voucher text of a transaction: its description (or "Importert
/// bilag") with the file's id in brackets, at most 250 characters.
pub open spec fn bilagstekst(t: ImportTransaction) -> Seq<char> {
    forkortet(
        if t.description@.len() == 0 {
            "Importert bilag ["@ + t.source_id@ + "]"@
        } else {
            t.description@ + " ["@ + t.source_id@ + "]"@
        },
        250,
    )
}

/// The voucher made from a transaction.
pub open spec fn bilag_av(
    t: ImportTransaction,
    fl: Seq<(Seq<char>, bool)>,
    kart: Seq<(bool, Seq<char>, Seq<char>)>,
    kjente: Seq<Seq<char>>,
    v: VoucherDraft,
) -> bool {
    &&& v.journal_code@ == "IMP"@
    &&& v.voucher_date == t.date
    &&& v.description@ == bilagstekst(t)
    &&& v.reverses is None
    &&& v.entries@.len() == t.lines@.len()
    &&& forall|k: int| 0 <= k < t.lines@.len() ==> #[trigger] post_av(t.lines@[k], fl, kart, kjente, v.entries@[k])
}

/// Looks an account up in the flags.
pub fn finn_flagg(fl: &Vec<Flagg>, konto: &str) -> (r: Option<bool>)
    ensures
        r == flagg_for(flagg_syn(fl@), fl@.len() as int, konto@),
{
    let ghost f = flagg_syn(fl@);
    let mut i: usize = fl.len();
    while i > 0
        invariant
            i <= fl@.len(),
            f == flagg_syn(fl@),
            flagg_for(f, fl@.len() as int, konto@) == flagg_for(f, i as int, konto@),
        decreases i,
    {
        assert(f[i - 1] == (fl@[i - 1].konto@, fl@[i - 1].kunde));
        if like(fl[i - 1].konto.as_str(), konto) {
            return Some(fl[i - 1].kunde);
        }
        i = i - 1;
    }
    None
}

/// The voucher line for a file line.
pub fn post_for(l: &ImportLine, fl: &Vec<Flagg>, kart: &Vec<Partnummer>, kjente: &Vec<String>) -> (r: EntryDraft)
    ensures
        post_av(*l, flagg_syn(fl@), kart_syn(kart@), tekster(kjente@), r),
{
    let party_no = match finn_flagg(fl, l.account_id.as_str()) {
        Some(true) => match &l.customer_id {
            Some(id) => finn_partnummer(kart, true, id.as_str()),
            None => None,
        },
        Some(false) => match &l.supplier_id {
            Some(id) => finn_partnummer(kart, false, id.as_str()),
            None => None,
        },
        None => None,
    };
    let vat_code = match &l.tax_code {
        Some(c) => {
            assert(tekster(kjente@).take(kjente@.len() as int) =~= tekster(kjente@));
            if finnes_blant(kjente, kjente.len(), c.as_str()) {
                Some(c.clone())
            } else {
                None
            }
        },
        None => None,
    };
    let description = match &l.description {
        Some(d) => if d.unicode_len() > 0 {
            Some(d.clone())
        } else {
            None
        },
        None => None,
    };
    EntryDraft {
        account_number: l.account_id.clone(),
        amount_ore: l.amount_ore,
        vat_code,
        description,
        party_no,
        avdeling: None,
        prosjekt: None,
        valuta: None,
    }
}

/// The voucher for a transaction, posted in journal IMP.
pub fn bilag_for(t: &ImportTransaction, fl: &Vec<Flagg>, kart: &Vec<Partnummer>, kjente: &Vec<String>) -> (r: VoucherDraft)
    ensures
        bilag_av(*t, flagg_syn(fl@), kart_syn(kart@), tekster(kjente@), r),
{
    let mut full = if t.description.unicode_len() == 0 {
        String::from_str("Importert bilag [")
    } else {
        let mut d = t.description.clone();
        d.append(" [");
        d
    };
    full.append(t.source_id.as_str());
    full.append("]");
    let mut entries: Vec<EntryDraft> = Vec::new();
    let mut k: usize = 0;
    while k < t.lines.len()
        invariant
            k <= t.lines@.len(),
            entries@.len() == k,
            forall|j: int| 0 <= j < k ==> #[trigger] post_av(t.lines@[j], flagg_syn(fl@), kart_syn(kart@), tekster(kjente@), entries@[j]),
        decreases t.lines@.len() - k,
    {
        let e = post_for(&t.lines[k], fl, kart, kjente);
        entries.push(e);
        k = k + 1;
    }
    VoucherDraft {
        journal_code: String::from_str("IMP"),
        voucher_date: t.date,
        description: crate_trunc(full.as_str(), 250),
        reverses: None,
        entries,
    }
}

} // verus!

verus! {

/// Customers first, then suppliers: the order the import numbers them in.
pub open spec fn alle_parter(f: SaftFil) -> Seq<ImportParty> {
    f.customers@ + f.suppliers@
}

/// The file ids of all parties, customers first.
pub open spec fn part_ider(f: SaftFil) -> Seq<Seq<char>> {
    alle_parter(f).map_values(|p: ImportParty| p.source_id@)
}

/// The numbers the import assigns: kind, file id and party number.
pub open spec fn kart_for(f: SaftFil) -> Seq<(bool, Seq<char>, Seq<char>)> {
    Seq::new(
        alle_parter(f).len(),
        |i: int| (i < f.customers@.len(), part_ider(f)[i], partnummer(part_ider(f), i)),
    )
}

/// A party row to create.
#[derive(Clone, Debug)]
pub struct PartRad {
    pub party_no: String,
    pub kunde: bool,
    pub name: String,
    pub orgnr: Option<String>,
}

/// The organisation number is kept when it is 9 bytes long.
pub open spec fn orgnr_for(p: ImportParty) -> Option<Seq<char>> {
    match p.orgnr {
        Some(o) => if vstd::utf8::encode_utf8(o@).len() == 9 {
            Some(o@)
        } else {
            None
        },
        None => None,
    }
}

/// The row created for a file party.
pub open spec fn partrad_av(p: ImportParty, kunde: bool, no: Seq<char>, r: PartRad) -> bool {
    &&& r.party_no@ == no
    &&& r.kunde == kunde
    &&& r.name@ == (if p.name@.len() == 0 {
        "Importert part"@
    } else {
        p.name@
    })
    &&& opt_syn(r.orgnr) == orgnr_for(p)
}

/// The warning for a renumbered party.
pub open spec fn nytt_nr_varsel(id: Seq<char>, navn: Seq<char>, no: Seq<char>) -> Seq<char> {
    "part '"@ + id + "' ("@ + navn + ") fikk nytt nummer "@ + no
}

/// The renumbering warnings for the first `n` parties.
pub open spec fn nytt_nr_varsler(f: SaftFil, n: int) -> Seq<Seq<char>>
    decreases n,
{
    if n <= 0 {
        Seq::empty()
    } else if !beholdes(part_ider(f)[n - 1]) {
        nytt_nr_varsler(f, n - 1).push(
            nytt_nr_varsel(
                part_ider(f)[n - 1],
                alle_parter(f)[n - 1].name@,
                partnummer(part_ider(f), n - 1),
            ),
        )
    } else {
        nytt_nr_varsler(f, n - 1)
    }
}

/// The warning for an account with lines both with and without a party.
pub open spec fn blandet_varsel(konto: Seq<char>) -> Seq<char> {
    "konto "@ + konto + " har linjer både med og uten part — reskontro-kobling hoppet over"@
}

/// The warning for a flagged account that has an opening balance.
pub open spec fn apning_varsel(konto: Seq<char>) -> Seq<char> {
    "konto "@ + konto + " har åpningsbalanse uten part — reskontro-flagg utsatt til etter migrering"@
}

/// The warning for a dropped VAT code.
pub open spec fn mva_varsel(kode: Seq<char>) -> Seq<char> {
    "ukjent mva-kode '"@ + kode + "' droppet under import"@
}

fn nytt_nr_tekst(id: &str, navn: &str, no: &str) -> (r: String)
    ensures
        r@ == nytt_nr_varsel(id@, navn@, no@),
{
    let mut s = String::from_str("part '");
    s.append(id);
    s.append("' (");
    s.append(navn);
    s.append(") fikk nytt nummer ");
    s.append(no);
    s
}

fn blandet_tekst(konto: &str) -> (r: String)
    ensures
        r@ == blandet_varsel(konto@),
{
    let mut s = String::from_str("konto ");
    s.append(konto);
    s.append(" har linjer både med og uten part — reskontro-kobling hoppet over");
    s
}

fn apning_tekst(konto: &str) -> (r: String)
    ensures
        r@ == apning_varsel(konto@),
{
    let mut s = String::from_str("konto ");
    s.append(konto);
    s.append(" har åpningsbalanse uten part — reskontro-flagg utsatt til etter migrering");
    s
}

fn mva_tekst(kode: &str) -> (r: String)
    ensures
        r@ == mva_varsel(kode@),
{
    let mut s = String::from_str("ukjent mva-kode '");
    s.append(kode);
    s.append("' droppet under import");
    s
}

/// The kinds of account and code warnings.
#[derive(Clone, Copy, Debug, PartialEq, Eq, Structural)]
pub enum VarselArt {
    Blandet,
    Apning,
    Mva,
}

/// The warning of a kind for an account or a code.
pub open spec fn varsel(art: VarselArt, k: Seq<char>) -> Seq<char> {
    match art {
        VarselArt::Blandet => blandet_varsel(k),
        VarselArt::Apning => apning_varsel(k),
        VarselArt::Mva => mva_varsel(k),
    }
}

/// The warnings of a kind for each of the texts.
pub open spec fn varsler_av(art: VarselArt, ks: Seq<Seq<char>>) -> Seq<Seq<char>> {
    ks.map_values(|k: Seq<char>| varsel(art, k))
}

/// Appends a warning of the given kind for each text.
fn legg_til_varsler(ut: &mut Vec<String>, kilder: &Vec<String>, art: VarselArt)
    ensures
        tekster(final(ut)@) == tekster(old(ut)@) + varsler_av(art, tekster(kilder@)),
{
    let ghost start = tekster(ut@);
    let ghost lag = |k: Seq<char>| varsel(art, k);
    let mut i: usize = 0;
    while i < kilder.len()
        invariant
            i <= kilder@.len(),
            lag == (|k: Seq<char>| varsel(art, k)),
            tekster(ut@) == start + tekster(kilder@).take(i as int).map_values(lag),
        decreases kilder@.len() - i,
    {
        let k = kilder[i].as_str();
        let t = match art {
            VarselArt::Blandet => blandet_tekst(k),
            VarselArt::Apning => apning_tekst(k),
            VarselArt::Mva => mva_tekst(k),
        };
        let ghost u0 = ut@;
        ut.push(t);
        assert(tekster(kilder@).take(i + 1) =~= tekster(kilder@).take(i as int).push(kilder@[i as int]@));
        assert(tekster(ut@) =~= tekster(u0).push(t@));
        assert(tekster(kilder@).take(i + 1).map_values(lag) =~= tekster(kilder@).take(i as int).map_values(lag).push(lag(kilder@[i as int]@)));
        i = i + 1;
    }
    assert(tekster(kilder@).take(kilder@.len() as int) =~= tekster(kilder@));
    assert(tekster(kilder@).map_values(lag) =~= varsler_av(art, tekster(kilder@)));
}

/// The party rows, the number map and the renumbering warnings for the
/// file's parties (customers first).
pub fn parter_for(f: &SaftFil) -> (r: (Vec<PartRad>, Vec<Partnummer>, Vec<String>))
    requires
        f.customers@.len() + f.suppliers@.len() < 0x4000_0000_0000_0000,
        f.customers@.len() + f.suppliers@.len() <= usize::MAX,
    ensures
        r.0@.len() == alle_parter(*f).len(),
        forall|i: int| 0 <= i < r.0@.len() ==> partrad_av(
            alle_parter(*f)[i],
            i < f.customers@.len(),
            partnummer(part_ider(*f), i),
            #[trigger] r.0@[i],
        ),
        kart_syn(r.1@) == kart_for(*f),
        tekster(r.2@) == nytt_nr_varsler(*f, alle_parter(*f).len() as int),
{
    let nc = f.customers.len();
    let ns = f.suppliers.len();
    let n = nc + ns;
    let ghost alle = alle_parter(*f);
    let mut ids: Vec<String> = Vec::new();
    let mut i: usize = 0;
    while i < n
        invariant
            n == nc + ns,
            nc == f.customers@.len(),
            ns == f.suppliers@.len(),
            alle == alle_parter(*f),
            i <= nc + ns,
            ids@.len() == i,
            forall|k: int| 0 <= k < i ==> #[trigger] ids@[k]@ == alle[k].source_id@,
        decreases n - i,
    {
        let p = if i < nc { &f.customers[i] } else { &f.suppliers[i - nc] };
        assert(*p == alle[i as int]);
        ids.push(p.source_id.clone());
        i = i + 1;
    }
    assert(ids@.map_values(|s: String| s@) =~= part_ider(*f));
    let (numre, nye) = nummerer_parter(&ids);
    let ghost pid = part_ider(*f);
    let mut rader: Vec<PartRad> = Vec::new();
    let mut kart: Vec<Partnummer> = Vec::new();
    let mut varsler: Vec<String> = Vec::new();
    let mut i: usize = 0;
    while i < n
        invariant
            n == nc + ns,
            nc == f.customers@.len(),
            ns == f.suppliers@.len(),
            alle == alle_parter(*f),
            pid == part_ider(*f),
            ids@.len() == nc + ns,
            pid == ids@.map_values(|s: String| s@),
            numre@.len() == nc + ns,
            nye@.len() == nc + ns,
            forall|k: int| 0 <= k < nc + ns ==> #[trigger] numre@[k]@ == partnummer(pid, k),
            forall|k: int| 0 <= k < nc + ns ==> #[trigger] nye@[k] == !beholdes(ids@[k]@),
            i <= nc + ns,
            rader@.len() == i,
            forall|k: int| 0 <= k < i ==> partrad_av(alle[k], k < nc, partnummer(pid, k), #[trigger] rader@[k]),
            kart_syn(kart@) == kart_for(*f).take(i as int),
            tekster(varsler@) == nytt_nr_varsler(*f, i as int),
        decreases n - i,
    {
        let p = if i < nc { &f.customers[i] } else { &f.suppliers[i - nc] };
        assert(*p == alle[i as int]);
        assert(pid[i as int] == ids@[i as int]@);
        assert(numre@[i as int]@ == partnummer(pid, i as int));
        let navn = if p.name.unicode_len() == 0 {
            String::from_str("Importert part")
        } else {
            p.name.clone()
        };
        let orgnr = match &p.orgnr {
            Some(o) => if o.as_str().as_bytes().len() == 9 {
                Some(o.clone())
            } else {
                None
            },
            None => None,
        };
        let rad = PartRad { party_no: numre[i].clone(), kunde: i < nc, name: navn, orgnr };
        assert(opt_syn(rad.orgnr) == orgnr_for(*p));
        assert(partrad_av(alle[i as int], i < nc, partnummer(pid, i as int), rad));
        rader.push(rad);
        let ghost k0 = kart@;
        kart.push(Partnummer { kunde: i < nc, source_id: ids[i].clone(), party_no: numre[i].clone() });
        assert(kart_syn(kart@) =~= kart_syn(k0).push((i < nc, pid[i as int], partnummer(pid, i as int))));
        assert(kart_for(*f).take(i + 1) =~= kart_for(*f).take(i as int).push(kart_for(*f)[i as int]));
        if nye[i] {
            let t = nytt_nr_tekst(ids[i].as_str(), p.name.as_str(), numre[i].as_str());
            let ghost v0 = varsler@;
            varsler.push(t);
            assert(tekster(varsler@) =~= tekster(v0).push(t@));
        }
        i = i + 1;
    }
    assert(kart_for(*f).take((nc + ns) as int) =~= kart_for(*f));
    (rader, kart, varsler)
}

} // verus!

verus! {

/// An account row to create.
#[derive(Clone, Debug)]
pub struct KontoRad {
    pub number: String,
    pub name: String,
}

/// Everything an import writes, in the order it is written: accounts,
/// parties, reskontro flags, the opening voucher, then one voucher per
/// transaction in file order.
#[derive(Clone, Debug)]
pub struct ImportPlan {
    pub kontoer: Vec<KontoRad>,
    pub parter: Vec<PartRad>,
    pub flagg: Vec<Flagg>,
    pub apning: Option<VoucherDraft>,
    pub bilag: Vec<VoucherDraft>,
    pub report: ImportReport,
}

/// The file's lines, all transactions in order.
pub open spec fn linjer_i(f: SaftFil) -> Seq<ImportLine> {
    alle_linjer_i(f.transactions@)
}

/// The opening balances can be posted (or there are none).
pub open spec fn apning_klar(f: SaftFil) -> bool {
    ||| apning(f.accounts@).len() == 0
    ||| (historiestart(f) matches Some(s) && apning_sum(f.accounts@, f.accounts@.len() as int) == 0
        && dagen_for(s) is Some)
}

/// Every transaction has at least two lines.
pub open spec fn nok_linjer(t: Seq<ImportTransaction>) -> bool {
    forall|i: int| 0 <= i < t.len() ==> #[trigger] t[i].lines@.len() >= 2
}

/// The flags that end up set: the flagged accounts, less those with an
/// opening balance.
pub open spec fn endelige_flagg(f: SaftFil) -> Seq<(Seq<char>, bool)> {
    uten_apning(
        flaggede(linjer_i(f)),
        apningskontoer(f.accounts@),
        flaggede(linjer_i(f)).len() as int,
    )
}

/// The report's warnings, in the order the import gives them.
pub open spec fn varsler(f: SaftFil, kjente: Seq<Seq<char>>) -> Seq<Seq<char>> {
    nytt_nr_varsler(f, alle_parter(f).len() as int)
        + varsler_av(VarselArt::Blandet, blandede(linjer_i(f)))
        + varsler_av(
        VarselArt::Apning,
        mistet_flagg(
            apningskontoer(f.accounts@),
            flaggede(linjer_i(f)),
            apningskontoer(f.accounts@).len() as int,
        ),
    ) + varsler_av(VarselArt::Mva, ukjente_til(linjer_i(f), kjente, linjer_i(f).len() as int))
}

/// What an accepted import writes.
pub open spec fn plan_av(f: SaftFil, kjente: Seq<Seq<char>>, p: ImportPlan) -> bool {
    &&& p.kontoer@.len() == f.accounts@.len()
    &&& forall|i: int| 0 <= i < p.kontoer@.len() ==> #[trigger] p.kontoer@[i].number@ == f.accounts@[i].account_id@
        && p.kontoer@[i].name@ == (if f.accounts@[i].name@.len() == 0 {
            "Importert konto"@
        } else {
            f.accounts@[i].name@
        })
    &&& p.parter@.len() == alle_parter(f).len()
    &&& forall|i: int| 0 <= i < p.parter@.len() ==> partrad_av(
        alle_parter(f)[i],
        i < f.customers@.len(),
        partnummer(part_ider(f), i),
        #[trigger] p.parter@[i],
    )
    &&& flagg_syn(p.flagg@) == endelige_flagg(f)
    &&& (p.apning is Some <==> apning(f.accounts@).len() > 0)
    &&& (p.apning matches Some(v) ==> historiestart(f) matches Some(s) && dagen_for(s) == Some(v.voucher_date)
        && apningsbilag_av(f.accounts@, v.voucher_date, v))
    &&& p.bilag@.len() == f.transactions@.len()
    &&& forall|i: int| 0 <= i < p.bilag@.len() ==> #[trigger] bilag_av(
        f.transactions@[i],
        endelige_flagg(f),
        kart_for(f),
        kjente,
        p.bilag@[i],
    )
    &&& p.report.accounts == f.accounts@.len()
    &&& p.report.customers == f.customers@.len()
    &&& p.report.suppliers == f.suppliers@.len()
    &&& p.report.vouchers == f.transactions@.len()
    &&& p.report.opening_posted == (apning(f.accounts@).len() > 0)
    &&& tekster(p.report.warnings@) == varsler(f, kjente)
}

/// Plans a SAF-T import into a company whose chain head stands at
/// `last_seq`, with `kjente` the VAT codes the system knows. Refused, in
/// this order: a ledger that is not empty; accounts that are not 4-digit
/// numbers; opening balances without a date, not summing to zero, or
/// dated outside the calendar; a transaction with fewer than two lines; a
/// file with neither accounts nor transactions.
#[verifier::spinoff_prover]
#[verifier::rlimit(40)]
pub fn planlegg_import(f: &SaftFil, last_seq: i64, kjente: &Vec<String>) -> (r: Result<ImportPlan, ImportFeil>)
    requires
        datoer_gyldige(*f),
        f.customers@.len() + f.suppliers@.len() < 0x4000_0000_0000_0000,
        f.customers@.len() + f.suppliers@.len() <= usize::MAX,
    ensures
        match r {
            Err(ImportFeil::IkkeTomt { last_seq: s }) => last_seq != 0 && s == last_seq,
            Err(ImportFeil::UgyldigeKontoer { kontoer }) => last_seq == 0 && tekster(kontoer@) == ugyldige_til(
                f.accounts@,
                f.accounts@.len() as int,
            ) && kontoer@.len() > 0,
            Err(ImportFeil::UtenDato) => last_seq == 0 && ugyldige_til(f.accounts@, f.accounts@.len() as int).len() == 0
                && apning(f.accounts@).len() > 0 && historiestart(*f) is None,
            Err(ImportFeil::ApningIkkeNull { sum }) => last_seq == 0 && ugyldige_til(
                f.accounts@,
                f.accounts@.len() as int,
            ).len() == 0 && apning(f.accounts@).len() > 0 && historiestart(*f) is Some && sum == apning_sum(
                f.accounts@,
                f.accounts@.len() as int,
            ) && sum != 0,
            Err(ImportFeil::Datoomrade) => last_seq == 0 && ugyldige_til(f.accounts@, f.accounts@.len() as int).len() == 0
                && apning(f.accounts@).len() > 0 && (historiestart(*f) matches Some(s) && apning_sum(
                f.accounts@,
                f.accounts@.len() as int,
            ) == 0 && dagen_for(s) is None),
            Err(ImportFeil::ForFaLinjer { source_id }) => last_seq == 0 && ugyldige_til(
                f.accounts@,
                f.accounts@.len() as int,
            ).len() == 0 && apning_klar(*f) && exists|i: int|
                0 <= i < f.transactions@.len() && f.transactions@[i].lines@.len() < 2
                    && f.transactions@[i].source_id@ == source_id@ && nok_linjer(
                    f.transactions@.take(i),
                ),
            Err(ImportFeil::IngentingAImportere) => last_seq == 0 && f.accounts@.len() == 0
                && f.transactions@.len() == 0,
            Ok(p) => last_seq == 0 && ugyldige_til(f.accounts@, f.accounts@.len() as int).len() == 0
                && apning_klar(*f) && nok_linjer(f.transactions@) && (f.accounts@.len() > 0
                || f.transactions@.len() > 0) && plan_av(*f, tekster(kjente@), p),
        },
{
    if last_seq != 0 {
        return Err(ImportFeil::IkkeTomt { last_seq });
    }
    let bad = ugyldige_kontoer(&f.accounts);
    if bad.len() > 0 {
        return Err(ImportFeil::UgyldigeKontoer { kontoer: bad });
    }
    let apn = match apningsbilag(f) {
        Ok(a) => a,
        Err(e) => {
            return Err(e);
        },
    };
    let ts = &f.transactions;
    let mut i: usize = 0;
    while i < ts.len()
        invariant
            i <= ts@.len(),
            *ts == f.transactions,
            last_seq == 0,
            ugyldige_til(f.accounts@, f.accounts@.len() as int).len() == 0,
            apning_klar(*f),
            nok_linjer(ts@.take(i as int)),
        decreases ts@.len() - i,
    {
        if ts[i].lines.len() < 2 {
            let source_id = ts[i].source_id.clone();
            assert(f.transactions@[i as int].lines@.len() < 2 && f.transactions@[i as int].source_id@
                == source_id@ && nok_linjer(f.transactions@.take(i as int)));
            return Err(ImportFeil::ForFaLinjer { source_id });
        }
        assert(nok_linjer(ts@.take(i + 1))) by {
            assert forall|k: int| 0 <= k < i + 1 implies #[trigger] ts@.take(i + 1)[k].lines@.len() >= 2 by {
                if k < i {
                    assert(ts@.take(i + 1)[k] == ts@.take(i as int)[k]);
                }
            }
        }
        i = i + 1;
    }
    assert(ts@.take(ts@.len() as int) =~= ts@);
    if f.accounts.len() == 0 && ts.len() == 0 {
        return Err(ImportFeil::IngentingAImportere);
    }
    let mut kontoer: Vec<KontoRad> = Vec::new();
    let mut i: usize = 0;
    while i < f.accounts.len()
        invariant
            i <= f.accounts@.len(),
            kontoer@.len() == i,
            forall|k: int| 0 <= k < i ==> #[trigger] kontoer@[k].number@ == f.accounts@[k].account_id@
                && kontoer@[k].name@ == (if f.accounts@[k].name@.len() == 0 {
                "Importert konto"@
            } else {
                f.accounts@[k].name@
            }),
        decreases f.accounts@.len() - i,
    {
        let a = &f.accounts[i];
        let rad = KontoRad { number: a.account_id.clone(), name: kontonavn(a.name.as_str()) };
        assert(rad.number@ == f.accounts@[i as int].account_id@);
        assert(rad.name@ == (if f.accounts@[i as int].name@.len() == 0 {
            "Importert konto"@
        } else {
            f.accounts@[i as int].name@
        }));
        let ghost k0 = kontoer@;
        kontoer.push(rad);
        assert(kontoer@[i as int] == rad);
        assert(forall|k: int| 0 <= k < i ==> kontoer@[k] == k0[k]);
        i = i + 1;
    }
    let (parter, kart, mut meldinger) = parter_for(f);
    let ls = alle_linjer(ts);
    let (fl, bl) = reskontro_analyse(&ls);
    let aks = apningskonto_ider(&f.accounts);
    let (flagg, tapt) = fjern_apningsflagg(&fl, &aks);
    legg_til_varsler(&mut meldinger, &bl, VarselArt::Blandet);
    legg_til_varsler(&mut meldinger, &tapt, VarselArt::Apning);
    let uk = ukjente_koder(&ls, kjente);
    legg_til_varsler(&mut meldinger, &uk, VarselArt::Mva);
    let mut bilag: Vec<VoucherDraft> = Vec::new();
    let mut i: usize = 0;
    while i < ts.len()
        invariant
            i <= ts@.len(),
            bilag@.len() == i,
            flagg_syn(flagg@) == endelige_flagg(*f),
            kart_syn(kart@) == kart_for(*f),
            forall|k: int| 0 <= k < i ==> #[trigger] bilag_av(
                ts@[k],
                endelige_flagg(*f),
                kart_for(*f),
                tekster(kjente@),
                bilag@[k],
            ),
        decreases ts@.len() - i,
    {
        let v = bilag_for(&ts[i], &flagg, &kart, kjente);
        bilag.push(v);
        i = i + 1;
    }
    assert(last_seq == 0);
    assert(ugyldige_til(f.accounts@, f.accounts@.len() as int).len() == 0);
    assert(apning_klar(*f));
    assert(nok_linjer(f.transactions@));
    assert(flagg_syn(flagg@) == endelige_flagg(*f));
    assert(tekster(meldinger@) == varsler(*f, tekster(kjente@)));
    let opening_posted = apn.is_some();
    let report = ImportReport {
        accounts: f.accounts.len(),
        customers: f.customers.len(),
        suppliers: f.suppliers.len(),
        vouchers: ts.len(),
        opening_posted,
        warnings: meldinger,
    };
    Ok(ImportPlan { kontoer, parter, flagg, apning: apn, bilag, report })
}


/// Sum of the opening balances of the first `n` accounts of a list.
pub open spec fn kontosum(s: Seq<ImportAccount>, n: int) -> int
    decreases n,
{
    if n <= 0 { 0 } else { kontosum(s, n - 1) + s[n - 1].opening_ore }
}

proof fn lemma_kontosum_prefiks(s: Seq<ImportAccount>, x: ImportAccount, n: int)
    requires
        0 <= n <= s.len(),
    ensures
        kontosum(s.push(x), n) == kontosum(s, n),
    decreases n,
{
    if n > 0 {
        lemma_kontosum_prefiks(s, x, n - 1);
    }
}

proof fn lemma_apning_sum(a: Seq<ImportAccount>, n: int)
    requires
        0 <= n <= a.len(),
    ensures
        kontosum(apning_til(a, n), apning_til(a, n).len() as int) == apning_sum(a, n),
    decreases n,
{
    if n > 0 {
        lemma_apning_sum(a, n - 1);
        let g = apning_til(a, n - 1);
        if a[n - 1].opening_ore != 0 {
            lemma_kontosum_prefiks(g, a[n - 1], g.len() as int);
        }
    }
}

proof fn lemma_linjesum(s: Seq<ImportAccount>, e: Seq<EntryDraft>, n: int)
    requires
        0 <= n <= s.len(),
        e.len() == s.len(),
        forall|k: int| 0 <= k < e.len() ==> #[trigger] enkel_linje(s[k].account_id@, s[k].opening_ore as int, None, e[k]),
    ensures
        crate::bilag::sum_til(e, n) == kontosum(s, n),
    decreases n,
{
    if n > 0 {
        lemma_linjesum(s, e, n - 1);
        assert(enkel_linje(s[n - 1].account_id@, s[n - 1].opening_ore as int, None, e[n - 1]));
    }
}

/// The opening voucher of an import balances: its lines are the nonzero
/// opening balances, and those sum to zero whenever the voucher is made.
pub proof fn lov_apningsbilaget_balanserer(a: Seq<ImportAccount>, dato: Dato, v: VoucherDraft)
    requires
        apningsbilag_av(a, dato, v),
        apning_sum(a, a.len() as int) == 0,
    ensures
        crate::bilag::balansert(v),
{
    lemma_apning_sum(a, a.len() as int);
    lemma_linjesum(apning(a), v.entries@, v.entries@.len() as int);
}

} // verus!
