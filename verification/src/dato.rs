//! Calendar dates as plain values (year, month, day), ordered the way
//! the calendar orders them. Counting days between dates and moving a
//! date by a number of days is done by chrono.

use chrono::Datelike;
use chrono::NaiveDate;
use crate::tekst::{desimal, fyll, fylt, heltall_tekst, sifre};
use vstd::prelude::*;
use vstd::string::*;

verus! {

/// A date in the proleptic Gregorian calendar.
#[derive(Clone, Copy, Debug, PartialEq, Eq, Structural)]
pub struct Dato {
    pub ar: i32,
    pub maned: u32,
    pub dag: u32,
}

/// The smallest and largest year chrono's `NaiveDate` represents.
pub open spec fn forste_ar() -> int {
    -262143
}

pub open spec fn siste_ar() -> int {
    262142
}

pub open spec fn er_skuddar(ar: int) -> bool {
    (ar % 4 == 0 && ar % 100 != 0) || ar % 400 == 0
}

/// Number of days in a month of a year (0 for a month that is not 1–12).
pub open spec fn dager_i_maned(ar: int, maned: int) -> int {
    if maned == 2 {
        if er_skuddar(ar) {
            29
        } else {
            28
        }
    } else if maned == 4 || maned == 6 || maned == 9 || maned == 11 {
        30
    } else if 1 <= maned <= 12 {
        31
    } else {
        0
    }
}

/// The date exists in the calendar, within the years chrono supports.
pub open spec fn gyldig(d: Dato) -> bool {
    &&& forste_ar() <= d.ar <= siste_ar()
    &&& 1 <= d.maned <= 12
    &&& 1 <= d.dag <= dager_i_maned(d.ar as int, d.maned as int)
}

/// Calendar order: `a` is strictly before `b`.
pub open spec fn for_(a: Dato, b: Dato) -> bool {
    ||| a.ar < b.ar
    ||| (a.ar == b.ar && a.maned < b.maned)
    ||| (a.ar == b.ar && a.maned == b.maned && a.dag < b.dag)
}

/// Calendar order: `a` is on or before `b`.
pub open spec fn senest(a: Dato, b: Dato) -> bool {
    for_(a, b) || a == b
}

/// The first day of a month.
pub open spec fn forste_i(ar: i32, maned: u32) -> Dato {
    Dato { ar, maned, dag: 1 }
}

/// The last day of a month.
pub open spec fn siste_i(ar: i32, maned: u32) -> Dato {
    Dato { ar, maned, dag: dager_i_maned(ar as int, maned as int) as u32 }
}

/// Days in the proleptic Gregorian calendar from 1 January of year 1 to
/// 1 January of year `ar` (negative before year 1).
pub open spec fn dager_for_ar(ar: int) -> int {
    let y = ar - 1;
    365 * y + y / 4 - y / 100 + y / 400
}

/// Days in the months of a year before month `maned`.
pub open spec fn dager_for_maned(ar: int, maned: int) -> int
    decreases maned,
{
    if maned <= 1 { 0 } else { dager_for_maned(ar, maned - 1) + dager_i_maned(ar, maned - 1) }
}

/// What chrono's `num_days_from_ce` gives for a date: its day number in
/// the proleptic Gregorian calendar, with 1 January of year 1 as day 1.
pub open spec fn dagnummer(ar: int, maned: int, dag: int) -> int {
    dager_for_ar(ar) + dager_for_maned(ar, maned) + dag
}

/// The day numbers of the first and the last date chrono represents.
pub open spec fn forste_dagnr() -> int {
    dagnummer(forste_ar(), 1, 1)
}

pub open spec fn siste_dagnr() -> int {
    dagnummer(siste_ar(), 12, 31)
}

proof fn lemma_dager_for_maned(ar: int, maned: int)
    requires
        maned <= 13,
    ensures
        0 <= dager_for_maned(ar, maned) <= 31 * 13,
        maned >= 1 ==> dager_for_maned(ar, maned) <= 31 * (maned - 1),
    decreases maned,
{
    if maned > 1 {
        lemma_dager_for_maned(ar, maned - 1);
    }
}

proof fn lemma_aarsskifte(y: int)
    ensures
        dager_for_ar(y + 1) == dager_for_ar(y) + (if er_skuddar(y) { 366int } else { 365int }),
{
    assert(y / 4 - (y - 1) / 4 == (if y % 4 == 0 { 1int } else { 0int }));
    assert(y / 100 - (y - 1) / 100 == (if y % 100 == 0 { 1int } else { 0int }));
    assert(y / 400 - (y - 1) / 400 == (if y % 400 == 0 { 1int } else { 0int }));
    assert(y % 400 == 0 ==> y % 100 == 0 && y % 4 == 0);
    assert(y % 100 == 0 ==> y % 4 == 0);
}

proof fn lemma_ar_stigende(y1: int, y2: int)
    requires
        y1 <= y2,
    ensures
        dager_for_ar(y1) <= dager_for_ar(y2),
    decreases y2 - y1,
{
    if y1 < y2 {
        lemma_ar_stigende(y1, y2 - 1);
        lemma_aarsskifte(y2 - 1);
    }
}

proof fn lemma_aaret_rundt(ar: int, maned: int)
    requires
        1 <= maned <= 12,
    ensures
        dager_for_maned(ar, maned) + dager_i_maned(ar, maned) <= (if er_skuddar(ar) { 366int } else { 365int }),
{
    reveal_with_fuel(dager_for_maned, 13);
}

/// Every date chrono represents has a day number between those of the
/// first and the last date it represents.
pub proof fn lemma_dagnr_i_omraade(d: Dato)
    requires
        gyldig(d),
    ensures
        forste_dagnr() <= dagnr_av(d) <= siste_dagnr(),
{
    let ar = d.ar as int;
    lemma_ar_stigende(forste_ar(), ar);
    lemma_dager_for_maned(ar, d.maned as int);
    lemma_aaret_rundt(ar, d.maned as int);
    lemma_aarsskifte(ar);
    lemma_ar_stigende(ar + 1, siste_ar() + 1);
    lemma_aarsskifte(siste_ar());
    lemma_aaret_rundt(siste_ar(), 12);
    assert(dager_for_maned(siste_ar(), 12) + 31 == 365) by {
        reveal_with_fuel(dager_for_maned, 13);
    }
}

/// Every date chrono represents has a day number well inside `i32`.
pub proof fn lemma_dagnr_grenser(d: Dato)
    requires
        gyldig(d),
    ensures
        -100_000_000 <= dagnr_av(d) <= 100_000_000,
{
    lemma_dager_for_maned(d.ar as int, d.maned as int);
}

pub open spec fn dagnr_av(d: Dato) -> int {
    dagnummer(d.ar as int, d.maned as int, d.dag as int)
}

/// Days from `a` to `b` (negative when `b` is earlier).
pub open spec fn dager_fra(a: Dato, b: Dato) -> int {
    dagnr_av(b) - dagnr_av(a)
}

/// `a < b` in calendar order.
pub fn er_for(a: Dato, b: Dato) -> (r: bool)
    ensures
        r == for_(a, b),
{
    a.ar < b.ar || (a.ar == b.ar && a.maned < b.maned) || (a.ar == b.ar && a.maned == b.maned
        && a.dag < b.dag)
}

/// `a <= b` in calendar order.
pub fn er_senest(a: Dato, b: Dato) -> (r: bool)
    ensures
        r == senest(a, b),
{
    er_for(a, b) || (a.ar == b.ar && a.maned == b.maned && a.dag == b.dag)
}

/// Days in a month, for a month 1–12.
#[verifier::spinoff_prover]
pub fn antall_dager(ar: i32, maned: u32) -> (r: u32)
    ensures
        r == dager_i_maned(ar as int, maned as int),
{
    if maned == 2 {
        if (ar % 4 == 0 && ar % 100 != 0) || ar % 400 == 0 {
            29
        } else {
            28
        }
    } else if maned == 4 || maned == 6 || maned == 9 || maned == 11 {
        30
    } else if 1 <= maned && maned <= 12 {
        31
    } else {
        0
    }
}

/// A date from its parts, when it exists (`NaiveDate::from_ymd_opt`).
pub fn dato_fra(ar: i32, maned: u32, dag: u32) -> (r: Option<Dato>)
    ensures
        r is Some <==> gyldig(Dato { ar, maned, dag }),
        r matches Some(d) ==> d == (Dato { ar, maned, dag }),
{
    if -262143 <= ar && ar <= 262142 && 1 <= maned && maned <= 12 && 1 <= dag && dag
        <= antall_dager(ar, maned) {
        Some(Dato { ar, maned, dag })
    } else {
        None
    }
}

/// The first day of the month a date falls in.
pub fn manedsstart(d: Dato) -> (r: Dato)
    ensures
        r == forste_i(d.ar, d.maned),
{
    Dato { ar: d.ar, maned: d.maned, dag: 1 }
}

/// The last day of the month a date falls in.
pub fn manedsslutt(d: Dato) -> (r: Dato)
    ensures
        r == siste_i(d.ar, d.maned),
{
    Dato { ar: d.ar, maned: d.maned, dag: antall_dager(d.ar, d.maned) }
}

/// The day number of a date, from chrono
/// (`NaiveDate::from_ymd_opt` then `Datelike::num_days_from_ce`).
#[verifier::external_body]
pub fn dagnr(d: Dato) -> (r: i32)
    requires
        gyldig(d),
    ensures
        r == dagnummer(d.ar as int, d.maned as int, d.dag as int),
{
    NaiveDate::from_ymd_opt(d.ar, d.maned, d.dag).unwrap().num_days_from_ce()
}

/// The date with a given day number, from chrono
/// (`NaiveDate::from_num_days_from_ce_opt`); `None` outside chrono's range.
/// What is stated: a day number in chrono's range gives a date, and a
/// date that comes back exists and has that day number.
#[verifier::external_body]
pub fn fra_dagnr(n: i32) -> (r: Option<Dato>)
    ensures
        forste_dagnr() <= n <= siste_dagnr() ==> r is Some,
        r matches Some(d) ==> gyldig(d) && dagnummer(d.ar as int, d.maned as int, d.dag as int) == n,
{
    match NaiveDate::from_num_days_from_ce_opt(n) {
        Some(d) => Some(Dato { ar: d.year(), maned: d.month(), dag: d.day() }),
        None => None,
    }
}

/// The calendar day before a date; `None` for the first date chrono
/// represents (what `NaiveDate::checked_sub_days` with one day gives).
pub open spec fn dagen_for(d: Dato) -> Option<Dato> {
    if d.dag > 1 {
        Some(Dato { ar: d.ar, maned: d.maned, dag: (d.dag - 1) as u32 })
    } else if d.maned > 1 {
        Some(Dato { ar: d.ar, maned: (d.maned - 1) as u32, dag: dager_i_maned(d.ar as int, d.maned - 1) as u32 })
    } else if d.ar > forste_ar() {
        Some(Dato { ar: (d.ar - 1) as i32, maned: 12, dag: 31 })
    } else {
        None
    }
}

/// The day before a date.
pub fn forrige_dag(d: Dato) -> (r: Option<Dato>)
    requires
        gyldig(d),
    ensures
        r == dagen_for(d),
        r matches Some(e) ==> gyldig(e),
{
    if d.dag > 1 {
        Some(Dato { ar: d.ar, maned: d.maned, dag: d.dag - 1 })
    } else if d.maned > 1 {
        Some(Dato { ar: d.ar, maned: d.maned - 1, dag: antall_dager(d.ar, d.maned - 1) })
    } else if d.ar > -262143 {
        Some(Dato { ar: d.ar - 1, maned: 12, dag: 31 })
    } else {
        None
    }
}

/// A date as chrono prints it: year as at least four digits (with a
/// sign outside 0–9999), then two-digit month and day, dash-separated.
pub open spec fn datotekst(d: Dato) -> Seq<char> {
    let aar = if 0 <= d.ar <= 9999 {
        fylt(sifre(d.ar as nat), 4)
    } else if d.ar < 0 {
        seq!['-'] + fylt(sifre((-d.ar) as nat), 4)
    } else {
        seq!['+'] + fylt(sifre(d.ar as nat), 4)
    };
    aar + seq!['-'] + fylt(sifre(d.maned as nat), 2) + seq!['-'] + fylt(sifre(d.dag as nat), 2)
}

/// A date as text, the way chrono's `NaiveDate` displays it.
pub fn dato_tekst(d: Dato) -> (r: String)
    ensures
        r@ == datotekst(d),
{
    let aar_tall: i64 = if d.ar < 0 {
        -(d.ar as i64)
    } else {
        d.ar as i64
    };
    let aar = fyll(heltall_tekst(aar_tall), 4);
    let mut s = if d.ar < 0 {
        String::from_str("-")
    } else if d.ar > 9999 {
        String::from_str("+")
    } else {
        String::new()
    };
    s.append(aar.as_str());
    s.append("-");
    let m = fyll(heltall_tekst(d.maned as i64), 2);
    s.append(m.as_str());
    s.append("-");
    let dg = fyll(heltall_tekst(d.dag as i64), 2);
    s.append(dg.as_str());
    proof {
        reveal_strlit("-");
        reveal_strlit("+");
        assert(desimal(aar_tall as int) == sifre(aar_tall as nat));
        assert(desimal(d.maned as int) == sifre(d.maned as nat));
        assert(desimal(d.dag as int) == sifre(d.dag as nat));
    }
    s
}

/// Days from `a` to `b`.
pub fn dager_mellom(a: Dato, b: Dato) -> (r: i64)
    requires
        gyldig(a),
        gyldig(b),
    ensures
        r == dager_fra(a, b),
{
    let x = dagnr(a) as i64;
    let y = dagnr(b) as i64;
    y - x
}

/// The date `n` days after `d` (before it, for negative `n`); `None`
/// exactly when that leaves the calendar range.
pub fn pluss_dager(d: Dato, n: i64) -> (r: Option<Dato>)
    requires
        gyldig(d),
    ensures
        r is Some <==> forste_dagnr() <= dagnr_av(d) + n <= siste_dagnr(),
        r matches Some(e) ==> gyldig(e) && dager_fra(d, e) == n,
{
    proof {
        lemma_dagnr_grenser(d);
        lemma_dagnr_grenser(Dato { ar: -262143i32, maned: 1u32, dag: 1u32 });
        lemma_dagnr_grenser(Dato { ar: 262142i32, maned: 12u32, dag: 31u32 });
    }
    let x = dagnr(d) as i64;
    if n > 0x7fff_ffff || n < -0x7fff_ffff {
        return None;
    }
    let y = x + n;
    if y > 0x7fff_ffff || y < -0x8000_0000 {
        return None;
    }
    let r = fra_dagnr(y as i32);
    proof {
        if let Some(e) = r {
            lemma_dagnr_i_omraade(e);
        }
    }
    r
}

} // verus!
