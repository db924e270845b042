//! The SAF-T Financial export's input, assembled from the ledger's rows:
//! parties split into customers and suppliers, dimensions as analysis
//! types, and vouchers grouped into journals with their lines.

use crate::dato::Dato;
use crate::tekst::{desimal, heltall_tekst, like, opt_syn};
use vstd::prelude::*;
use vstd::string::*;

verus! {

/// An account with its balance before and at the end of the period.
#[derive(Clone, Debug)]
pub struct SaftAccount {
    pub number: String,
    pub name: String,
    pub created: Dato,
    pub opening_ore: i64,
    pub closing_ore: i64,
}

/// A customer or supplier with its balances.
#[derive(Clone, Debug)]
pub struct SaftParty {
    pub party_no: String,
    pub name: String,
    pub orgnr: Option<String>,
    pub balance_account: Option<String>,
    pub opening_ore: i64,
    pub closing_ore: i64,
}

/// A party row as read: its kind decides which list it goes in.
#[derive(Clone, Debug)]
pub struct SaftPartRad {
    pub kind: String,
    pub party: SaftParty,
}

/// A VAT code used in the period, with its rate.
#[derive(Clone, Debug)]
pub struct SaftTaxCode {
    pub code: String,
    pub description: String,
    pub percent_bp: i64,
}

/// A dimension, as an analysis type.
#[derive(Clone, Debug)]
pub struct SaftAnalysisType {
    pub analysis_type: String,
    pub type_description: String,
    pub id: String,
    pub id_description: String,
    pub active: bool,
}

/// A voucher line.
#[derive(Clone, Debug)]
pub struct SaftLine {
    pub line_no: i32,
    pub account_number: String,
    pub description: Option<String>,
    pub amount_ore: i64,
    pub vat_code: Option<String>,
    pub tax_percent_bp: Option<i64>,
    pub customer_id: Option<String>,
    pub supplier_id: Option<String>,
    pub avdeling: Option<String>,
    pub prosjekt: Option<String>,
}

/// A voucher.
#[derive(Clone, Debug)]
pub struct SaftTransaction {
    pub fiscal_year: i32,
    pub number: i64,
    pub date: Dato,
    pub description: String,
    pub created_by: String,
    /// Creation time, microseconds since the epoch.
    pub created_at: i64,
    /// The voucher it reverses, as "year-number".
    pub reverses: Option<String>,
    pub lines: Vec<SaftLine>,
}

/// A journal with its vouchers.
#[derive(Clone, Debug)]
pub struct SaftJournal {
    pub code: String,
    pub name: String,
    pub transactions: Vec<SaftTransaction>,
}

/// A party goes in the customer list when its kind is `kunde`.
pub open spec fn er_kunde(r: SaftPartRad) -> bool {
    r.kind@ == "kunde"@
}

/// The parties among the first `n` rows of the given side, in order.
pub open spec fn parter_til(rader: Seq<SaftPartRad>, kunde: bool, n: int) -> Seq<SaftParty>
    decreases n,
{
    if n <= 0 {
        Seq::empty()
    } else if er_kunde(rader[n - 1]) == kunde {
        parter_til(rader, kunde, n - 1).push(rader[n - 1].party)
    } else {
        parter_til(rader, kunde, n - 1)
    }
}

/// A copy of a party.
pub fn kopi_part(p: &SaftParty) -> (r: SaftParty)
    ensures
        r == *p,
{
    SaftParty {
        party_no: p.party_no.clone(),
        name: p.name.clone(),
        orgnr: crate::tekst::kopi_valg(&p.orgnr),
        balance_account: crate::tekst::kopi_valg(&p.balance_account),
        opening_ore: p.opening_ore,
        closing_ore: p.closing_ore,
    }
}

/// Customers (kind `kunde`) and suppliers (every other kind), each in
/// row order.
pub fn fordel_parter(rader: &Vec<SaftPartRad>) -> (r: (Vec<SaftParty>, Vec<SaftParty>))
    ensures
        r.0@ == parter_til(rader@, true, rader@.len() as int),
        r.1@ == parter_til(rader@, false, rader@.len() as int),
{
    let mut kunder: Vec<SaftParty> = Vec::new();
    let mut lev: Vec<SaftParty> = Vec::new();
    let mut i: usize = 0;
    while i < rader.len()
        invariant
            i <= rader@.len(),
            kunder@ == parter_til(rader@, true, i as int),
            lev@ == parter_til(rader@, false, i as int),
        decreases rader@.len() - i,
    {
        let p = kopi_part(&rader[i].party);
        if like(rader[i].kind.as_str(), "kunde") {
            kunder.push(p);
        } else {
            lev.push(p);
        }
        i = i + 1;
    }
    (kunder, lev)
}

/// A dimension as an analysis type: "AVD"/"Avdeling" for a department,
/// "PRO"/"Prosjekt" otherwise.
pub fn analysetype(kind: &str, code: &str, name: &str, active: bool) -> (r: SaftAnalysisType)
    ensures
        kind@ == "avdeling"@ ==> r.analysis_type@ == "AVD"@ && r.type_description@ == "Avdeling"@,
        kind@ != "avdeling"@ ==> r.analysis_type@ == "PRO"@ && r.type_description@ == "Prosjekt"@,
        r.id@ == code@,
        r.id_description@ == name@,
        r.active == active,
{
    let (t, d) = if like(kind, "avdeling") {
        ("AVD", "Avdeling")
    } else {
        ("PRO", "Prosjekt")
    };
    SaftAnalysisType {
        analysis_type: String::from_str(t),
        type_description: String::from_str(d),
        id: String::from_str(code),
        id_description: String::from_str(name),
        active,
    }
}

/// A line row as read, with the kind of its party.
#[derive(Clone, Debug)]
pub struct SaftLinjeRad {
    pub voucher_id: u128,
    pub line_no: i32,
    pub account_number: String,
    pub description: Option<String>,
    pub amount_ore: i64,
    pub vat_code: Option<String>,
    pub rate_bp: Option<i32>,
    pub party_no: Option<String>,
    pub party_kind: Option<String>,
    pub avdeling: Option<String>,
    pub prosjekt: Option<String>,
}

/// The party number when the line's party is of the given kind.
pub open spec fn part_som(r: SaftLinjeRad, kind: Seq<char>) -> Option<String> {
    match r.party_kind {
        Some(k) => if k@ == kind {
            r.party_no
        } else {
            None
        },
        None => None,
    }
}

/// The export line for a line row: the party goes in as customer or
/// supplier by its kind.
pub open spec fn saftlinje_av(r: SaftLinjeRad) -> SaftLine {
    SaftLine {
        line_no: r.line_no,
        account_number: r.account_number,
        description: r.description,
        amount_ore: r.amount_ore,
        vat_code: r.vat_code,
        tax_percent_bp: match r.rate_bp {
            Some(b) => Some(b as i64),
            None => None,
        },
        customer_id: part_som(r, "kunde"@),
        supplier_id: part_som(r, "leverandor"@),
        avdeling: r.avdeling,
        prosjekt: r.prosjekt,
    }
}

pub fn saft_linje(r: &SaftLinjeRad) -> (l: SaftLine)
    ensures
        l == saftlinje_av(*r),
{
    let (kunde, lev) = match &r.party_kind {
        Some(k) => {
            let kunde = if like(k.as_str(), "kunde") {
                crate::tekst::kopi_valg(&r.party_no)
            } else {
                None
            };
            let lev = if like(k.as_str(), "leverandor") {
                crate::tekst::kopi_valg(&r.party_no)
            } else {
                None
            };
            (kunde, lev)
        },
        None => (None, None),
    };
    SaftLine {
        line_no: r.line_no,
        account_number: r.account_number.clone(),
        description: crate::tekst::kopi_valg(&r.description),
        amount_ore: r.amount_ore,
        vat_code: crate::tekst::kopi_valg(&r.vat_code),
        tax_percent_bp: match r.rate_bp {
            Some(b) => Some(b as i64),
            None => None,
        },
        customer_id: kunde,
        supplier_id: lev,
        avdeling: crate::tekst::kopi_valg(&r.avdeling),
        prosjekt: crate::tekst::kopi_valg(&r.prosjekt),
    }
}

/// "year-number" of the reversed voucher, when both are known.
pub fn reversert(year: Option<i32>, number: Option<i64>) -> (r: Option<String>)
    ensures
        match (year, number) {
            (Some(y), Some(n)) => r matches Some(s) && s@ == desimal(y as int) + "-"@ + desimal(n as int),
            _ => r is None,
        },
{
    match (year, number) {
        (Some(y), Some(n)) => {
            let mut s = heltall_tekst(y as i64);
            s.append("-");
            s.append(heltall_tekst(n).as_str());
            Some(s)
        },
        _ => None,
    }
}

} // verus!

verus! {

/// A voucher row as read, ordered by journal, year and number.
#[derive(Clone, Debug)]
pub struct SaftBilagRad {
    pub journal_code: String,
    pub journal_name: String,
    pub id: u128,
    pub fiscal_year: i32,
    pub voucher_number: i64,
    pub voucher_date: Dato,
    pub description: String,
    pub created_by: String,
    pub created_at: i64,
    pub reversed_year: Option<i32>,
    pub reversed_number: Option<i64>,
}

/// The export lines of the voucher among the first `n` line rows.
pub open spec fn linjer_for(ls: Seq<SaftLinjeRad>, id: u128, n: int) -> Seq<SaftLine>
    decreases n,
{
    if n <= 0 {
        Seq::empty()
    } else if ls[n - 1].voucher_id == id {
        linjer_for(ls, id, n - 1).push(saftlinje_av(ls[n - 1]))
    } else {
        linjer_for(ls, id, n - 1)
    }
}

/// An earlier voucher row has the same id (its lines went there).
pub open spec fn sett_for(vs: Seq<SaftBilagRad>, i: int) -> bool {
    exists|j: int| 0 <= j < i && vs[j].id == vs[i].id
}

/// The reversal reference as text.
pub open spec fn reversert_av(v: SaftBilagRad) -> Option<Seq<char>> {
    match (v.reversed_year, v.reversed_number) {
        (Some(y), Some(n)) => Some(desimal(y as int) + "-"@ + desimal(n as int)),
        _ => None,
    }
}

/// The export voucher for voucher row `i`.
pub open spec fn transaksjon_av(vs: Seq<SaftBilagRad>, ls: Seq<SaftLinjeRad>, i: int, t: SaftTransaction) -> bool {
    let v = vs[i];
    &&& t.fiscal_year == v.fiscal_year
    &&& t.number == v.voucher_number
    &&& t.date == v.voucher_date
    &&& t.description == v.description
    &&& t.created_by == v.created_by
    &&& t.created_at == v.created_at
    &&& opt_syn(t.reverses) == reversert_av(v)
    &&& t.lines@ == (if sett_for(vs, i) {
        Seq::<SaftLine>::empty()
    } else {
        linjer_for(ls, v.id, ls.len() as int)
    })
}

/// The journals of the first `n` voucher rows: a new journal starts
/// where the journal code changes; each holds the indices of its rows.
pub open spec fn journaler_til(vs: Seq<SaftBilagRad>, n: int) -> Seq<(Seq<char>, Seq<char>, Seq<int>)>
    decreases n,
{
    if n <= 0 {
        Seq::empty()
    } else {
        let j = journaler_til(vs, n - 1);
        let v = vs[n - 1];
        if j.len() == 0 || j.last().0 != v.journal_code@ {
            j.push((v.journal_code@, v.journal_name@, seq![n - 1]))
        } else {
            j.update(j.len() - 1, (j.last().0, j.last().1, j.last().2.push(n - 1)))
        }
    }
}

/// The journal has the code and name of its group, and one transaction
/// per voucher of the group, in order.
pub open spec fn journal_av(vs: Seq<SaftBilagRad>, ls: Seq<SaftLinjeRad>, j: (Seq<char>, Seq<char>, Seq<int>), code: Seq<char>, name: Seq<char>, ts: Seq<SaftTransaction>) -> bool {
    &&& code == j.0
    &&& name == j.1
    &&& ts.len() == j.2.len()
    &&& forall|m: int| 0 <= m < ts.len() ==> #[trigger] transaksjon_av(vs, ls, j.2[m], ts[m])
}

fn transaksjon(vs: &Vec<SaftBilagRad>, ls: &Vec<SaftLinjeRad>, i: usize) -> (t: SaftTransaction)
    requires
        i < vs@.len(),
    ensures
        transaksjon_av(vs@, ls@, i as int, t),
{
    let v = &vs[i];
    let id = vs[i].id;
    let mut j: usize = 0;
    while j < i && vs[j].id != id
        invariant
            id == vs@[i as int].id,
            j <= i < vs@.len(),
            forall|k: int| 0 <= k < j ==> #[trigger] vs@[k].id != vs@[i as int].id,
        decreases i - j,
    {
        j = j + 1;
    }
    let mut lines: Vec<SaftLine> = Vec::new();
    if j == i {
        let mut k: usize = 0;
        while k < ls.len()
            invariant
                k <= ls@.len(),
                lines@ == linjer_for(ls@, v.id, k as int),
            decreases ls@.len() - k,
        {
            if ls[k].voucher_id == v.id {
                lines.push(saft_linje(&ls[k]));
            }
            k = k + 1;
        }
    }
    assert(sett_for(vs@, i as int) == (j < i)) by {
        if j < i {
            assert(vs@[j as int].id == vs@[i as int].id);
        }
    }
    SaftTransaction {
        fiscal_year: v.fiscal_year,
        number: v.voucher_number,
        date: v.voucher_date,
        description: v.description.clone(),
        created_by: v.created_by.clone(),
        created_at: v.created_at,
        reverses: reversert(v.reversed_year, v.reversed_number),
        lines,
    }
}

/// Groups the voucher rows into journals, a new journal wherever the
/// journal code changes, each voucher with its lines.
pub fn bygg_journaler(vs: &Vec<SaftBilagRad>, ls: &Vec<SaftLinjeRad>) -> (r: Vec<SaftJournal>)
    ensures
        r@.len() == journaler_til(vs@, vs@.len() as int).len(),
        forall|k: int| 0 <= k < r@.len() ==> journal_av(
            vs@,
            ls@,
            journaler_til(vs@, vs@.len() as int)[k],
            (#[trigger] r@[k]).code@,
            r@[k].name@,
            r@[k].transactions@,
        ),
{
    let mut journals: Vec<SaftJournal> = Vec::new();
    let mut har: bool = false;
    let mut code = String::new();
    let mut name = String::new();
    let mut txs: Vec<SaftTransaction> = Vec::new();
    let mut i: usize = 0;
    while i < vs.len()
        invariant
            i <= vs@.len(),
            har == (i > 0),
            har ==> journals@.len() + 1 == journaler_til(vs@, i as int).len(),
            !har ==> journals@.len() == 0 && journaler_til(vs@, i as int).len() == 0,
            forall|k: int| 0 <= k < journals@.len() ==> journal_av(
                vs@,
                ls@,
                journaler_til(vs@, i as int)[k],
                (#[trigger] journals@[k]).code@,
                journals@[k].name@,
                journals@[k].transactions@,
            ),
            har ==> journal_av(vs@, ls@, journaler_til(vs@, i as int).last(), code@, name@, txs@),
        decreases vs@.len() - i,
    {
        let ghost j0 = journaler_til(vs@, i as int);
        let t = transaksjon(vs, ls, i);
        let v = &vs[i];
        if !har || !like(code.as_str(), v.journal_code.as_str()) {
            if har {
                let ghost jl = journals@;
                journals.push(SaftJournal { code, name, transactions: txs });
                assert(forall|k: int| 0 <= k < jl.len() ==> journals@[k] == jl[k]);
            }
            har = true;
            code = v.journal_code.clone();
            name = v.journal_name.clone();
            txs = Vec::new();
            txs.push(t);
            assert(journaler_til(vs@, i + 1) == j0.push((v.journal_code@, v.journal_name@, seq![i as int])));
        } else {
            let ghost t0 = txs@;
            txs.push(t);
            let ghost nj = (j0.last().0, j0.last().1, j0.last().2.push(i as int));
            assert(journaler_til(vs@, i + 1) == j0.update(j0.len() - 1, nj));
            assert forall|m: int| 0 <= m < txs@.len() implies #[trigger] transaksjon_av(vs@, ls@, nj.2[m], txs@[m]) by {
                if m < t0.len() {
                    assert(nj.2[m] == j0.last().2[m]);
                }
            }
        }
        i = i + 1;
    }
    if har {
        journals.push(SaftJournal { code, name, transactions: txs });
    }
    journals
}

} // verus!
