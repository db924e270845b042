//! The auditor's verification report: every check the system can make
//! of its own ledger, each reported as it came out. A failed check is a
//! finding in the report, never an error that hides the document.

use crate::anchor::AnchorCheck;
use crate::dato::{Dato, datotekst, dato_tekst};
use crate::tekst::{desimal, foy_sammen, heltall_tekst, like, sammenfoyd, tekster_av};
use crate::dato::dato_tekst as dato_som_tekst;
use vstd::prelude::*;
use vstd::string::*;

verus! {

/// One check of the report.
#[derive(Clone, Debug)]
pub struct Kontroll {
    pub navn: String,
    pub ok: bool,
    pub detalj: String,
}

/// A monitored rate domain that is older than its cadence: its name and
/// when it was last updated (`None` when it is missing).
#[derive(Clone, Debug)]
pub struct ForeldetSats {
    pub domene: String,
    pub siste: Option<Dato>,
}

/// A voucher without attachments, for the documentation check.
#[derive(Clone, Debug)]
pub struct UdokumentertBilag {
    pub fiscal_year: i32,
    pub voucher_number: i64,
    pub voucher_date: Dato,
    pub description: String,
}

/// A balance account at the period end, for the balance documentation
/// check: documented or not, and how far the balance moved after it was.
#[derive(Clone, Debug)]
pub struct Balansepost {
    pub konto: String,
    pub kontonavn: String,
    pub avstemt: bool,
    pub avvik_ore: Option<i64>,
}

/// An imported SAF-T file.
#[derive(Clone, Debug)]
pub struct Importfil {
    pub sha256_hex: String,
    pub vouchers: i64,
    pub importert: Dato,
    pub created_by: String,
}

/// What the checks found, gathered from the ledger.
#[derive(Debug)]
pub struct Revisjonsdata {
    /// The chain re-walk: vouchers re-hashed, or the error it stopped at.
    pub kjede: Result<i64, String>,
    /// The attachment re-hash: attachments checked, or the error.
    pub vedlegg: Result<i64, String>,
    pub anker: AnchorCheck,
    /// The reskontro tie-out, as computed.
    pub reskontro: Kontroll,
    /// Sum of all entries.
    pub total_ore: i64,
    pub las: Option<Dato>,
    pub las_hendelser: i64,
    /// Every rate domain in the register (one per rate period).
    pub satsdomener: Vec<String>,
    pub foreldede: Vec<ForeldetSats>,
    pub udokumenterte: i64,
    pub bilag_totalt: i64,
    /// The oldest undocumented vouchers (at most ten).
    pub eldste: Vec<UdokumentertBilag>,
    /// The latest closed period and its balance accounts, if one is closed.
    pub balanse: Option<(Dato, Vec<Balansepost>)>,
    pub importerte_bilag: i64,
    pub importlogg: Vec<Importfil>,
}

pub open spec fn kjede_kontroll(k: Result<i64, String>) -> (Seq<char>, bool, Seq<char>) {
    match k {
        Ok(n) => ("Hash-kjede fra genesis"@, true, desimal(n as int) + " bilag re-hashet fra lagret innhold; alle lenker og kjedehodet stemmer"@),
        Err(e) => ("Hash-kjede fra genesis"@, false, e@),
    }
}

pub open spec fn vedlegg_kontroll(k: Result<i64, String>) -> (Seq<char>, bool, Seq<char>) {
    match k {
        Ok(n) => ("Bilagsvedlegg"@, true, desimal(n as int) + " vedlegg re-hashet mot lagret SHA-256"@),
        Err(e) => ("Bilagsvedlegg"@, false, e@),
    }
}

pub open spec fn anker_kontroll(a: AnchorCheck) -> (Seq<char>, bool, Seq<char>) {
    (
        "Ekstern forankring"@,
        a.problems@.len() == 0,
        if a.problems@.len() == 0 {
            desimal(a.snapshots_checked as int) + " forankringer kontrollert mot den levende kjeden"@
        } else {
            sammenfoyd(tekster_av(a.problems@), "; "@)
        },
    )
}

pub open spec fn balanse_kontroll(total: i64) -> (Seq<char>, bool, Seq<char>) {
    (
        "Balansekontroll"@,
        total == 0,
        if total == 0 {
            "summen av alle posteringer er nøyaktig null"@
        } else {
            "posteringene summerer til "@ + desimal(total as int) + " øre, ikke null"@
        },
    )
}

pub open spec fn las_kontroll(las: Option<Dato>, hendelser: i64) -> (Seq<char>, bool, Seq<char>) {
    (
        "Periodelåsing"@,
        true,
        match las {
            Some(d) => "låst til og med "@ + datotekst(d) + "; "@ + desimal(hendelser as int)
                + " hendelser i den ureviderbare låshistorikken"@,
            None => "ingen periode er låst ennå"@,
        },
    )
}

/// How many different texts the sequence holds.
pub open spec fn distinkte(s: Seq<Seq<char>>, n: int) -> int
    decreases n,
{
    if n <= 0 {
        0
    } else {
        distinkte(s, n - 1) + if s.take(n - 1).contains(s[n - 1]) {
            0int
        } else {
            1int
        }
    }
}

pub open spec fn foreldet_tekst(f: ForeldetSats) -> Seq<char> {
    match f.siste {
        Some(d) => f.domene@ + " sist oppdatert "@ + datotekst(d),
        None => f.domene@ + " mangler i satsregisteret"@,
    }
}

pub open spec fn sats_kontroll(domener: Seq<String>, foreldede: Seq<ForeldetSats>) -> (Seq<char>, bool, Seq<char>) {
    (
        "Regelverkssatser"@,
        foreldede.len() == 0,
        if foreldede.len() == 0 {
            desimal(distinkte(tekster_av(domener), domener.len() as int))
                + " satsdomener i registeret; ingen overvåket sats er eldre enn sin kadens"@
        } else {
            sammenfoyd(foreldede.map_values(|f: ForeldetSats| foreldet_tekst(f)), "; "@)
        },
    )
}

pub open spec fn bilag_tekst(b: UdokumentertBilag) -> Seq<char> {
    desimal(b.fiscal_year as int) + "-"@ + desimal(b.voucher_number as int) + " "@ + datotekst(b.voucher_date)
        + " "@ + b.description@
}

pub open spec fn dok_kontroll(udok: i64, totalt: i64, eldste: Seq<UdokumentertBilag>) -> (Seq<char>, bool, Seq<char>) {
    (
        "Dokumentasjon"@,
        true,
        if udok == 0 {
            "alle "@ + desimal(totalt as int) + " bilag utenfor importjournalen har vedlegg"@
        } else {
            desimal(udok as int) + " av "@ + desimal(totalt as int)
                + " bilag mangler vedlegg i regnmed (informasjon, ikke avvik — dokumentasjonen kan finnes i annet oppbevaringsmedium; bokføringsloven §10 krever at den finnes, ikke at den ligger her). Eldste: "@
                + sammenfoyd(eldste.map_values(|b: UdokumentertBilag| bilag_tekst(b)), "; "@)
        },
    )
}

/// The undocumented accounts among the first `n`, in order.
pub open spec fn udok_til(l: Seq<Balansepost>, n: int) -> Seq<Balansepost>
    decreases n,
{
    if n <= 0 {
        Seq::empty()
    } else if !l[n - 1].avstemt {
        udok_til(l, n - 1).push(l[n - 1])
    } else {
        udok_til(l, n - 1)
    }
}

/// The accounts among the first `n` that moved after they were
/// documented, in order.
pub open spec fn flyttet_til(l: Seq<Balansepost>, n: int) -> Seq<Balansepost>
    decreases n,
{
    if n <= 0 {
        Seq::empty()
    } else if l[n - 1].avvik_ore is Some {
        flyttet_til(l, n - 1).push(l[n - 1])
    } else {
        flyttet_til(l, n - 1)
    }
}

/// The undocumented balance accounts, in order.
pub open spec fn udokumenterte_poster(l: Seq<Balansepost>) -> Seq<Balansepost> {
    udok_til(l, l.len() as int)
}

/// The balance accounts that moved after they were documented.
pub open spec fn flyttede_poster(l: Seq<Balansepost>) -> Seq<Balansepost> {
    flyttet_til(l, l.len() as int)
}

pub open spec fn post_navn(p: Balansepost) -> Seq<char> {
    p.konto@ + " "@ + p.kontonavn@
}

pub open spec fn post_avvik(p: Balansepost) -> Seq<char> {
    p.konto@ + " ("@ + desimal(p.avvik_ore.unwrap() as int) + " øre)"@
}

/// The findings of the balance documentation check at a period end.
pub open spec fn balansedok_deler(periode: Dato, l: Seq<Balansepost>) -> Seq<Seq<char>> {
    let u = udokumenterte_poster(l);
    let f = flyttede_poster(l);
    let forste: Seq<Seq<char>> = if u.len() > 0 {
        seq![
            desimal(u.len() as int) + " av "@ + desimal(l.len() as int)
                + " balansekontoer med saldo mangler dokumentasjon per "@ + datotekst(periode) + ": "@
                + sammenfoyd(
                (if u.len() > 10 { u.take(10) } else { u }).map_values(|p: Balansepost| post_navn(p)),
                ", "@,
            ),
        ]
    } else {
        Seq::empty()
    };
    if f.len() > 0 {
        forste.push(
            "bokført videre etter avstemming: "@ + sammenfoyd(f.map_values(|p: Balansepost| post_avvik(p)), ", "@),
        )
    } else {
        forste
    }
}

pub open spec fn balansedok_kontroll(b: Option<(Dato, Vec<Balansepost>)>) -> (Seq<char>, bool, Seq<char>) {
    match b {
        None => (
            "Balansedokumentasjon"@,
            true,
            "ingen periode er låst ennå — balansepostene dokumenteres ved periodeslutt (bokføringsloven §11)"@,
        ),
        Some((periode, l)) => {
            let deler = balansedok_deler(periode, l@);
            (
                "Balansedokumentasjon"@,
                deler.len() == 0,
                if deler.len() == 0 {
                    "alle "@ + desimal(l@.len() as int) + " balansekontoer med saldo er dokumentert per "@
                        + datotekst(periode)
                } else {
                    sammenfoyd(deler, "; "@)
                },
            )
        },
    }
}

pub open spec fn importfil_tekst(f: Importfil) -> Seq<char> {
    "sha256 "@ + f.sha256_hex@ + " ("@ + desimal(f.vouchers as int) + " bilag, importert "@ + datotekst(f.importert)
        + " av "@ + f.created_by@ + ")"@
}

pub open spec fn import_kontroll(imp: i64, logg: Seq<Importfil>) -> (Seq<char>, bool, Seq<char>) {
    (
        "Importert historikk"@,
        true,
        if imp == 0 {
            "ingen importert historikk — hovedboken er ført i sin helhet i regnmed"@
        } else if logg.len() == 0 {
            desimal(imp as int) + " bilag i importjournalen uten dokumenterte kildefiler (importert før importloggen fantes)"@
        } else {
            desimal(imp as int) + " bilag i importjournalen fra "@ + desimal(logg.len() as int) + " fil(er): "@
                + sammenfoyd(logg.map_values(|f: Importfil| importfil_tekst(f)), "; "@)
        },
    )
}

/// A check as plain values: name, outcome, detail.
pub open spec fn kontroll_syn(k: Kontroll) -> (Seq<char>, bool, Seq<char>) {
    (k.navn@, k.ok, k.detalj@)
}

/// The report's checks, in the order they appear.
pub open spec fn kontroller(d: Revisjonsdata) -> Seq<(Seq<char>, bool, Seq<char>)> {
    seq![
        kjede_kontroll(d.kjede),
        vedlegg_kontroll(d.vedlegg),
        anker_kontroll(d.anker),
        kontroll_syn(d.reskontro),
        balanse_kontroll(d.total_ore),
        las_kontroll(d.las, d.las_hendelser),
        sats_kontroll(d.satsdomener@, d.foreldede@),
        dok_kontroll(d.udokumenterte, d.bilag_totalt, d.eldste@),
        balansedok_kontroll(d.balanse),
        import_kontroll(d.importerte_bilag, d.importlogg@),
    ]
}

} // verus!

verus! {

fn kontroll(navn: &str, ok: bool, detalj: String) -> (r: Kontroll)
    ensures
        kontroll_syn(r) == (navn@, ok, detalj@),
{
    Kontroll { navn: String::from_str(navn), ok, detalj }
}

fn tall_og(n: i64, hale: &str) -> (r: String)
    ensures
        r@ == desimal(n as int) + hale@,
{
    let mut s = heltall_tekst(n);
    s.append(hale);
    s
}

fn kjede_k(k: &Result<i64, String>) -> (r: Kontroll)
    ensures
        kontroll_syn(r) == kjede_kontroll(*k),
{
    match k {
        Ok(n) => kontroll(
            "Hash-kjede fra genesis",
            true,
            tall_og(*n, " bilag re-hashet fra lagret innhold; alle lenker og kjedehodet stemmer"),
        ),
        Err(e) => kontroll("Hash-kjede fra genesis", false, e.clone()),
    }
}

fn vedlegg_k(k: &Result<i64, String>) -> (r: Kontroll)
    ensures
        kontroll_syn(r) == vedlegg_kontroll(*k),
{
    match k {
        Ok(n) => kontroll("Bilagsvedlegg", true, tall_og(*n, " vedlegg re-hashet mot lagret SHA-256")),
        Err(e) => kontroll("Bilagsvedlegg", false, e.clone()),
    }
}

fn anker_k(a: &AnchorCheck) -> (r: Kontroll)
    ensures
        kontroll_syn(r) == anker_kontroll(*a),
{
    let tom = a.problems.len() == 0;
    let detalj = if tom {
        tall_og(a.snapshots_checked, " forankringer kontrollert mot den levende kjeden")
    } else {
        foy_sammen(&a.problems, "; ")
    };
    kontroll("Ekstern forankring", tom, detalj)
}

fn balanse_k(total: i64) -> (r: Kontroll)
    ensures
        kontroll_syn(r) == balanse_kontroll(total),
{
    let detalj = if total == 0 {
        String::from_str("summen av alle posteringer er nøyaktig null")
    } else {
        let mut s = String::from_str("posteringene summerer til ");
        s.append(heltall_tekst(total).as_str());
        s.append(" øre, ikke null");
        s
    };
    kontroll("Balansekontroll", total == 0, detalj)
}

fn las_k(las: Option<Dato>, hendelser: i64) -> (r: Kontroll)
    ensures
        kontroll_syn(r) == las_kontroll(las, hendelser),
{
    let detalj = match las {
        Some(d) => {
            let mut s = String::from_str("låst til og med ");
            s.append(dato_som_tekst(d).as_str());
            s.append("; ");
            s.append(heltall_tekst(hendelser).as_str());
            s.append(" hendelser i den ureviderbare låshistorikken");
            s
        },
        None => String::from_str("ingen periode er låst ennå"),
    };
    kontroll("Periodelåsing", true, detalj)
}

/// How many different domains the register has.
fn antall_distinkte(v: &Vec<String>) -> (r: i64)
    requires
        v@.len() <= i64::MAX,
    ensures
        r == distinkte(tekster_av(v@), v@.len() as int),
{
    let ghost t = tekster_av(v@);
    let mut n: i64 = 0;
    let mut i: usize = 0;
    while i < v.len()
        invariant
            i <= v@.len() <= i64::MAX,
            t == tekster_av(v@),
            n == distinkte(t, i as int),
            0 <= n <= i,
        decreases v@.len() - i,
    {
        let mut j: usize = 0;
        while j < i && !like(v[j].as_str(), v[i].as_str())
            invariant
                j <= i < v@.len(),
                t == tekster_av(v@),
                forall|k: int| 0 <= k < j ==> #[trigger] t[k] != t[i as int],
            decreases i - j,
        {
            j = j + 1;
        }
        assert(t.take(i as int).contains(t[i as int]) == (j < i)) by {
            if j < i {
                assert(t.take(i as int)[j as int] == t[i as int]);
            } else if t.take(i as int).contains(t[i as int]) {
                let k = choose|k: int| 0 <= k < i && t.take(i as int)[k] == t[i as int];
                assert(t[k] != t[i as int]);
            }
        }
        if j == i {
            n = n + 1;
        }
        i = i + 1;
    }
    n
}

fn sats_k(domener: &Vec<String>, foreldede: &Vec<ForeldetSats>) -> (r: Kontroll)
    requires
        domener@.len() <= i64::MAX,
    ensures
        kontroll_syn(r) == sats_kontroll(domener@, foreldede@),
{
    let tom = foreldede.len() == 0;
    let detalj = if tom {
        let n = antall_distinkte(domener);
        tall_og(n, " satsdomener i registeret; ingen overvåket sats er eldre enn sin kadens")
    } else {
        let mut deler: Vec<String> = Vec::new();
        let mut i: usize = 0;
        while i < foreldede.len()
            invariant
                i <= foreldede@.len(),
                tekster_av(deler@) == foreldede@.take(i as int).map_values(|f: ForeldetSats| foreldet_tekst(f)),
            decreases foreldede@.len() - i,
        {
            let f = &foreldede[i];
            let t = match f.siste {
                Some(d) => {
                    let mut s = f.domene.clone();
                    s.append(" sist oppdatert ");
                    s.append(dato_som_tekst(d).as_str());
                    s
                },
                None => {
                    let mut s = f.domene.clone();
                    s.append(" mangler i satsregisteret");
                    s
                },
            };
            assert(t@ == foreldet_tekst(foreldede@[i as int]));
            let ghost d0 = deler@;
            deler.push(t);
            i = i + 1;
            assert(tekster_av(deler@) =~= tekster_av(d0).push(t@));
            assert(foreldede@.take(i as int) =~= foreldede@.take(i - 1).push(foreldede@[i - 1]));
            assert(tekster_av(deler@) =~= foreldede@.take(i as int).map_values(|f: ForeldetSats| foreldet_tekst(f)));
        }
        assert(foreldede@.take(foreldede@.len() as int) =~= foreldede@);
        foy_sammen(&deler, "; ")
    };
    kontroll("Regelverkssatser", tom, detalj)
}

fn dok_k(udok: i64, totalt: i64, eldste: &Vec<UdokumentertBilag>) -> (r: Kontroll)
    ensures
        kontroll_syn(r) == dok_kontroll(udok, totalt, eldste@),
{
    let detalj = if udok == 0 {
        let mut s = String::from_str("alle ");
        s.append(heltall_tekst(totalt).as_str());
        s.append(" bilag utenfor importjournalen har vedlegg");
        s
    } else {
        let mut deler: Vec<String> = Vec::new();
        let mut i: usize = 0;
        while i < eldste.len()
            invariant
                i <= eldste@.len(),
                tekster_av(deler@) == eldste@.take(i as int).map_values(|b: UdokumentertBilag| bilag_tekst(b)),
            decreases eldste@.len() - i,
        {
            let b = &eldste[i];
            let mut t = heltall_tekst(b.fiscal_year as i64);
            t.append("-");
            t.append(heltall_tekst(b.voucher_number).as_str());
            t.append(" ");
            t.append(dato_som_tekst(b.voucher_date).as_str());
            t.append(" ");
            t.append(b.description.as_str());
            assert(t@ == bilag_tekst(eldste@[i as int]));
            let ghost d0 = deler@;
            deler.push(t);
            i = i + 1;
            assert(tekster_av(deler@) =~= tekster_av(d0).push(t@));
            assert(eldste@.take(i as int) =~= eldste@.take(i - 1).push(eldste@[i - 1]));
            assert(tekster_av(deler@) =~= eldste@.take(i as int).map_values(|b: UdokumentertBilag| bilag_tekst(b)));
        }
        assert(eldste@.take(eldste@.len() as int) =~= eldste@);
        let mut s = heltall_tekst(udok);
        s.append(" av ");
        s.append(heltall_tekst(totalt).as_str());
        s.append(
            " bilag mangler vedlegg i regnmed (informasjon, ikke avvik — dokumentasjonen kan finnes i annet oppbevaringsmedium; bokføringsloven §10 krever at den finnes, ikke at den ligger her). Eldste: ",
        );
        s.append(foy_sammen(&deler, "; ").as_str());
        s
    };
    kontroll("Dokumentasjon", true, detalj)
}

fn import_k(imp: i64, logg: &Vec<Importfil>) -> (r: Kontroll)
    requires
        logg@.len() <= i64::MAX,
    ensures
        kontroll_syn(r) == import_kontroll(imp, logg@),
{
    let detalj = if imp == 0 {
        String::from_str("ingen importert historikk — hovedboken er ført i sin helhet i regnmed")
    } else if logg.len() == 0 {
        tall_og(imp, " bilag i importjournalen uten dokumenterte kildefiler (importert før importloggen fantes)")
    } else {
        let mut deler: Vec<String> = Vec::new();
        let mut i: usize = 0;
        while i < logg.len()
            invariant
                i <= logg@.len(),
                tekster_av(deler@) == logg@.take(i as int).map_values(|f: Importfil| importfil_tekst(f)),
            decreases logg@.len() - i,
        {
            let f = &logg[i];
            let mut t = String::from_str("sha256 ");
            t.append(f.sha256_hex.as_str());
            t.append(" (");
            t.append(heltall_tekst(f.vouchers).as_str());
            t.append(" bilag, importert ");
            t.append(dato_som_tekst(f.importert).as_str());
            t.append(" av ");
            t.append(f.created_by.as_str());
            t.append(")");
            assert(t@ == importfil_tekst(logg@[i as int]));
            let ghost d0 = deler@;
            deler.push(t);
            i = i + 1;
            assert(tekster_av(deler@) =~= tekster_av(d0).push(t@));
            assert(logg@.take(i as int) =~= logg@.take(i - 1).push(logg@[i - 1]));
            assert(tekster_av(deler@) =~= logg@.take(i as int).map_values(|f: Importfil| importfil_tekst(f)));
        }
        assert(logg@.take(logg@.len() as int) =~= logg@);
        let mut s = heltall_tekst(imp);
        s.append(" bilag i importjournalen fra ");
        s.append(heltall_tekst(logg.len() as i64).as_str());
        s.append(" fil(er): ");
        s.append(foy_sammen(&deler, "; ").as_str());
        s
    };
    kontroll("Importert historikk", true, detalj)
}

} // verus!

verus! {

fn balansedok_k(b: &Option<(Dato, Vec<Balansepost>)>) -> (r: Kontroll)
    requires
        b matches Some((_, l)) ==> l@.len() <= i64::MAX,
    ensures
        kontroll_syn(r) == balansedok_kontroll(*b),
{
    match b {
        None => kontroll(
            "Balansedokumentasjon",
            true,
            String::from_str(
                "ingen periode er låst ennå — balansepostene dokumenteres ved periodeslutt (bokføringsloven §11)",
            ),
        ),
        Some((periode, l)) => {
            let ghost ls = l@;
            // The undocumented accounts (names of the first ten) and the
            // accounts that moved after documentation.
            let mut udok: usize = 0;
            let mut navn: Vec<String> = Vec::new();
            let mut flyttet: Vec<String> = Vec::new();
            let mut i: usize = 0;
            while i < l.len()
                invariant
                    ls == l@,
                    i <= ls.len(),
                    udok == udok_til(ls, i as int).len(),
                    udok <= i,
                    tekster_av(navn@) == (if udok_til(ls, i as int).len() > 10 {
                        udok_til(ls, i as int).take(10)
                    } else {
                        udok_til(ls, i as int)
                    }).map_values(|p: Balansepost| post_navn(p)),
                    tekster_av(flyttet@) == flyttet_til(ls, i as int).map_values(|p: Balansepost| post_avvik(p)),
                decreases ls.len() - i,
            {
                let p = &l[i];
                let ghost u0 = udok_til(ls, i as int);
                if !p.avstemt {
                    if udok < 10 {
                        let mut t = p.konto.clone();
                        t.append(" ");
                        t.append(p.kontonavn.as_str());
                        let ghost n0 = navn@;
                        navn.push(t);
                        assert(tekster_av(navn@) =~= tekster_av(n0).push(post_navn(ls[i as int])));
                        assert(u0.push(ls[i as int]).map_values(|p: Balansepost| post_navn(p)) =~= u0.map_values(|p: Balansepost| post_navn(p)).push(post_navn(ls[i as int])));
                    } else {
                        assert(u0.push(ls[i as int]).take(10) =~= u0.take(10));
                    }
                    udok = udok + 1;
                }
                match p.avvik_ore {
                    Some(d) => {
                        let mut t = p.konto.clone();
                        t.append(" (");
                        t.append(heltall_tekst(d).as_str());
                        t.append(" øre)");
                        let ghost f0 = flyttet@;
                        flyttet.push(t);
                        assert(tekster_av(flyttet@) =~= tekster_av(f0).push(post_avvik(ls[i as int])));
                        assert(flyttet_til(ls, i + 1).map_values(|p: Balansepost| post_avvik(p)) =~= flyttet_til(ls, i as int).map_values(|p: Balansepost| post_avvik(p)).push(post_avvik(ls[i as int])));
                    },
                    None => {},
                }
                i = i + 1;
            }
            let ghost deler_spec = balansedok_deler(*periode, ls);
            assert(udok_til(ls, ls.len() as int) == udokumenterte_poster(ls));
            assert(flyttet_til(ls, ls.len() as int) == flyttede_poster(ls));
            assert(ls.len() <= i64::MAX);
            let mut deler: Vec<String> = Vec::new();
            if udok > 0 {
                let mut s = heltall_tekst(udok as i64);
                s.append(" av ");
                s.append(heltall_tekst(l.len() as i64).as_str());
                s.append(" balansekontoer med saldo mangler dokumentasjon per ");
                s.append(dato_som_tekst(*periode).as_str());
                s.append(": ");
                s.append(foy_sammen(&navn, ", ").as_str());
                deler.push(s);
            }
            if flyttet.len() > 0 {
                let mut s = String::from_str("bokført videre etter avstemming: ");
                s.append(foy_sammen(&flyttet, ", ").as_str());
                deler.push(s);
            }
            assert(tekster_av(deler@) =~= deler_spec);
            let tom = deler.len() == 0;
            let detalj = if tom {
                let mut s = String::from_str("alle ");
                s.append(heltall_tekst(l.len() as i64).as_str());
                s.append(" balansekontoer med saldo er dokumentert per ");
                s.append(dato_som_tekst(*periode).as_str());
                s
            } else {
                foy_sammen(&deler, "; ")
            };
            kontroll("Balansedokumentasjon", tom, detalj)
        },
    }
}

/// The report's checks, from what was gathered: chain, attachments,
/// anchors, reskontro, balance, period lock, rates, documentation,
/// balance documentation, imported history.
pub fn bygg_kontroller(d: &Revisjonsdata) -> (r: Vec<Kontroll>)
    requires
        d.satsdomener@.len() <= i64::MAX,
        d.importlogg@.len() <= i64::MAX,
        d.balanse matches Some((_, l)) ==> l@.len() <= i64::MAX,
    ensures
        r@.map_values(|k: Kontroll| kontroll_syn(k)) == kontroller(*d),
{
    let mut r: Vec<Kontroll> = Vec::new();
    r.push(kjede_k(&d.kjede));
    r.push(vedlegg_k(&d.vedlegg));
    r.push(anker_k(&d.anker));
    r.push(Kontroll { navn: d.reskontro.navn.clone(), ok: d.reskontro.ok, detalj: d.reskontro.detalj.clone() });
    r.push(balanse_k(d.total_ore));
    r.push(las_k(d.las, d.las_hendelser));
    r.push(sats_k(&d.satsdomener, &d.foreldede));
    r.push(dok_k(d.udokumenterte, d.bilag_totalt, &d.eldste));
    r.push(balansedok_k(&d.balanse));
    r.push(import_k(d.importerte_bilag, &d.importlogg));
    assert(r@.map_values(|k: Kontroll| kontroll_syn(k)) =~= kontroller(*d));
    r
}

} // verus!
