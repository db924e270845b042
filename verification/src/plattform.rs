//! Platform roles (system administrator and support): time-limited,
//! given only to people, reaching master data and never a ledger. A
//! platform assignment gives only built-in roles, and changing an
//! existing membership is for system administrators alone.

use crate::dato::{Dato, for_, senest, er_for, er_senest};
use crate::tekst::{er_blank, kopi_valg, like, smaa_bokstaver, til_smaa, trim, trimmet};
use vstd::prelude::*;
use vstd::string::*;

verus! {

/// The platform role in force for a person.
#[derive(Clone, Debug)]
pub struct AktivPlattformRolle {
    pub rolle: String,
    pub valid_to: Dato,
}

/// A platform membership as listed.
#[derive(Clone, Debug)]
pub struct PlattformMedlem {
    pub id: u128,
    pub person_id: u128,
    pub navn: String,
    pub epost: Option<String>,
    pub rolle: String,
    pub valid_from: Dato,
    pub valid_to: Dato,
    pub notat: String,
    pub aktiv: bool,
}

/// One logged platform call, as the company or firm it touched reads it.
#[derive(Clone, Debug)]
pub struct PlattformInnsyn {
    pub navn: String,
    pub rolle: String,
    pub method: String,
    pub path: String,
    /// Microseconds since the Unix epoch, UTC.
    pub created_at: i64,
}

/// A company as the platform lists it.
#[derive(Clone, Debug)]
pub struct PlattformSelskap {
    pub id: u128,
    pub orgnr: String,
    pub name: String,
}

/// A firm as the platform lists it.
#[derive(Clone, Debug)]
pub struct PlattformByra {
    pub id: u128,
    pub orgnr: String,
    pub name: String,
    pub kind: String,
}

/// Where a person belongs: a company or a firm membership.
#[derive(Clone, Debug)]
pub struct PlattformTilknytning {
    /// "selskap" or "byra".
    pub slag: String,
    pub id: u128,
    pub navn: String,
    pub orgnr: String,
    pub rolle: String,
    pub aktiv: bool,
}

/// A person with their memberships.
#[derive(Clone, Debug)]
pub struct PlattformBruker {
    pub person_id: u128,
    pub navn: String,
    pub epost: Option<String>,
    pub kind: String,
    pub tilknytninger: Vec<PlattformTilknytning>,
}

/// A customer with the company it belongs to.
#[derive(Clone, Debug)]
pub struct PlattformKunde {
    pub party_id: u128,
    pub party_no: String,
    pub navn: String,
    pub orgnr: Option<String>,
    pub epost: Option<String>,
    pub company_id: u128,
    pub company_navn: String,
    pub company_orgnr: String,
}

/// Counts for the platform console.
#[derive(Clone, Copy, Debug, PartialEq, Eq, Structural)]
pub struct PlattformOversikt {
    pub selskaper: i64,
    pub byraer: i64,
    pub brukere: i64,
    pub integrasjoner: i64,
    pub plattformbrukere: i64,
}

/// The facts the subscription status rule needs, for one company.
#[derive(Clone, Debug)]
pub struct PlattformAbonnement {
    pub company_id: u128,
    pub orgnr: String,
    pub name: String,
    pub opprettet: Dato,
    pub dekket_i_dag: bool,
    pub siste_slutt: Option<Dato>,
    pub plan: Option<String>,
    pub valid_to: Option<Dato>,
}

/// One subscription row of a company's coverage history.
#[derive(Clone, Debug)]
pub struct DekningsRad {
    pub plan: String,
    pub valid_from: Dato,
    pub valid_to: Option<Dato>,
    pub note: String,
    pub created_by: String,
}

/// Why a platform step is refused.
#[derive(Clone, Debug, PartialEq, Eq)]
pub enum PlattformFeil {
    /// Not systemadmin or support.
    UkjentPlattformrolle,
    /// A platform role must end in the future.
    SluttIkkeIFremtiden,
    /// A note saying why is required.
    ManglerNotat,
    UkjentPerson,
    /// Platform roles and memberships are for people, not integrations.
    IkkeMenneske,
    /// Not a built-in role the platform may give.
    UkjentRolle,
    /// Changing an existing membership needs a system administrator.
    KreverSystemadmin,
    /// No such company or firm.
    UkjentEnhet,
    /// No such platform membership.
    UkjentMedlemskap,
    /// Several people share the e-mail address.
    FlerePersoner { antall: usize, epost: String },
}

/// The roles a platform assignment may give in a company.
pub open spec fn selskapsrolle(r: Seq<char>) -> bool {
    r == "admin"@ || r == "bokforing"@ || r == "les"@ || r == "ansatt"@
}

/// The roles a platform assignment may give in a firm.
pub open spec fn byrarolle(r: Seq<char>) -> bool {
    r == "admin"@ || r == "ansatt"@
}

/// A membership is active from its first day until, and not including,
/// its end day.
pub open spec fn aktiv_medlem(valid_from: Dato, valid_to: Dato, idag: Dato) -> bool {
    senest(valid_from, idag) && for_(idag, valid_to)
}

/// Whether role `a` with end `ta` goes before role `b` with end `tb`:
/// system administrator first, then the latest end.
pub open spec fn foran(a: Seq<char>, ta: Dato, b: Seq<char>, tb: Dato) -> bool {
    let sa = a == "systemadmin"@;
    let sb = b == "systemadmin"@;
    (sa && !sb) || (sa == sb && for_(tb, ta))
}

/// The platform role in force today among a person's memberships
/// (`(role, valid_from, valid_to)`): an active one, and none active goes
/// before it.
pub fn aktiv_plattformrolle(rader: &Vec<(String, Dato, Dato)>, idag: Dato) -> (r: Option<AktivPlattformRolle>)
    ensures
        r is None <==> forall|k: int| 0 <= k < rader@.len() ==> !aktiv_medlem(#[trigger] rader@[k].1, rader@[k].2, idag),
        r matches Some(a) ==> exists|b: int| {
            &&& 0 <= b < rader@.len()
            &&& aktiv_medlem(#[trigger] rader@[b].1, rader@[b].2, idag)
            &&& a.rolle@ == rader@[b].0@
            &&& a.valid_to == rader@[b].2
            &&& forall|k: int| 0 <= k < rader@.len() && aktiv_medlem(#[trigger] rader@[k].1, rader@[k].2, idag) ==> !foran(
                rader@[k].0@,
                rader@[k].2,
                rader@[b].0@,
                rader@[b].2,
            )
        },
{
    let mut best: Option<usize> = None;
    let mut i: usize = 0;
    while i < rader.len()
        invariant
            i <= rader@.len(),
            best is None <==> forall|k: int| 0 <= k < i ==> !aktiv_medlem(#[trigger] rader@[k].1, rader@[k].2, idag),
            best matches Some(b) ==> {
                &&& b < i
                &&& aktiv_medlem(rader@[b as int].1, rader@[b as int].2, idag)
                &&& forall|k: int| 0 <= k < i && aktiv_medlem(#[trigger] rader@[k].1, rader@[k].2, idag) ==> !foran(
                    rader@[k].0@,
                    rader@[k].2,
                    rader@[b as int].0@,
                    rader@[b as int].2,
                )
            },
        decreases rader@.len() - i,
    {
        let (rolle, fra, til) = (&rader[i].0, rader[i].1, rader[i].2);
        if er_senest(fra, idag) && er_for(idag, til) {
            let ta = match best {
                None => true,
                Some(b) => {
                    let sa = like(rolle.as_str(), "systemadmin");
                    let sb = like(rader[b].0.as_str(), "systemadmin");
                    (sa && !sb) || (sa == sb && er_for(rader[b].2, til))
                },
            };
            if ta {
                proof {
                    match best {
                        None => {},
                        Some(b) => {
                            assert forall|k: int| 0 <= k < i && aktiv_medlem(#[trigger] rader@[k].1, rader@[k].2, idag)
                                implies !foran(rader@[k].0@, rader@[k].2, rader@[i as int].0@, rader@[i as int].2) by {
                                assert(!foran(rader@[k].0@, rader@[k].2, rader@[b as int].0@, rader@[b as int].2));
                            }
                        },
                    }
                }
                best = Some(i);
            }
        }
        i = i + 1;
    }
    match best {
        None => None,
        Some(b) => Some(AktivPlattformRolle { rolle: rader[b].0.clone(), valid_to: rader[b].2 }),
    }
}

/// What is wrong with a platform role, if anything, in the order it is
/// checked.
pub open spec fn plattformrolle_feil(rolle: Seq<char>, valid_to: Dato, idag: Dato, notat: Seq<char>, kind: Seq<char>) -> Option<PlattformFeil> {
    if !(rolle == "systemadmin"@ || rolle == "support"@) {
        Some(PlattformFeil::UkjentPlattformrolle)
    } else if !for_(idag, valid_to) {
        Some(PlattformFeil::SluttIkkeIFremtiden)
    } else if trimmet(notat).len() == 0 {
        Some(PlattformFeil::ManglerNotat)
    } else if kind.len() == 0 {
        Some(PlattformFeil::UkjentPerson)
    } else if kind != "menneske"@ {
        Some(PlattformFeil::IkkeMenneske)
    } else {
        None
    }
}

/// A platform role: systemadmin or support, ending after today, with a
/// note that is not blank, for a known person (`kind`, empty when the
/// person is unknown) who is a human. The result is the note trimmed.
pub fn sjekk_plattformrolle(rolle: &str, valid_to: Dato, idag: Dato, notat: &str, kind: &str) -> (r: Result<String, PlattformFeil>)
    ensures
        match plattformrolle_feil(rolle@, valid_to, idag, notat@, kind@) {
            Some(e) => r == Err::<String, PlattformFeil>(e),
            None => r matches Ok(n) && n@ == trimmet(notat@),
        },
{
    if !(like(rolle, "systemadmin") || like(rolle, "support")) {
        return Err(PlattformFeil::UkjentPlattformrolle);
    }
    if !er_for(idag, valid_to) {
        return Err(PlattformFeil::SluttIkkeIFremtiden);
    }
    if er_blank(notat) {
        return Err(PlattformFeil::ManglerNotat);
    }
    if kind.unicode_len() == 0 {
        return Err(PlattformFeil::UkjentPerson);
    }
    if !like(kind, "menneske") {
        return Err(PlattformFeil::IkkeMenneske);
    }
    Ok(trim(notat))
}

/// The end day an ended membership gets: today, but never before its
/// first day and never after the end it already had.
pub open spec fn ny_slutt(valid_from: Dato, valid_to: Dato, idag: Dato) -> Dato {
    let nedre = if for_(valid_from, idag) { idag } else { valid_from };
    if for_(nedre, valid_to) { nedre } else { valid_to }
}

pub fn avslutt_medlemskap(valid_from: Dato, valid_to: Dato, idag: Dato) -> (r: Dato)
    ensures
        r == ny_slutt(valid_from, valid_to, idag),
{
    let nedre = if er_for(valid_from, idag) {
        idag
    } else {
        valid_from
    };
    if er_for(nedre, valid_to) {
        nedre
    } else {
        valid_to
    }
}

/// Ending a platform membership revokes it at once: from the day it is
/// ended it is not active.
pub proof fn lov_avsluttet_plattformrolle_er_inaktiv(valid_from: Dato, valid_to: Dato, idag: Dato)
    ensures
        !aktiv_medlem(valid_from, ny_slutt(valid_from, valid_to, idag), idag),
{
}

/// Ending a membership exactly one row, else it is unknown.
pub fn sjekk_avsluttet(rader: u64) -> (r: Result<(), PlattformFeil>)
    ensures
        r is Ok <==> rader == 1,
        r matches Err(e) ==> e == PlattformFeil::UkjentMedlemskap,
{
    if rader == 1 {
        Ok(())
    } else {
        Err(PlattformFeil::UkjentMedlemskap)
    }
}

/// The form an e-mail address is looked up in: trimmed and lowercased.
pub fn normalisert_epost(epost: &str) -> (r: String)
    ensures
        r@ == smaa_bokstaver(trimmet(epost@)),
{
    let t = trim(epost);
    til_smaa(t.as_str())
}

/// The person an e-mail address names: none, the one, or an error when
/// several share it. `treff` are the people found.
pub fn person_fra_epost(treff: &Vec<u128>, norm: &str) -> (r: Result<Option<u128>, PlattformFeil>)
    ensures
        treff@.len() == 0 ==> r == Ok::<Option<u128>, PlattformFeil>(None),
        treff@.len() == 1 ==> r == Ok::<Option<u128>, PlattformFeil>(Some(treff@[0])),
        treff@.len() > 1 ==> (r matches Err(PlattformFeil::FlerePersoner { antall, epost }) && antall == treff@.len()
            && epost@ == norm@),
{
    if treff.len() == 0 {
        Ok(None)
    } else if treff.len() == 1 {
        Ok(Some(treff[0]))
    } else {
        Err(PlattformFeil::FlerePersoner { antall: treff.len(), epost: norm.to_string() })
    }
}

/// A membership goes only to a known person who is a human (`kind`,
/// `None` for an unknown person).
pub fn krev_menneske(kind: Option<&str>) -> (r: Result<(), PlattformFeil>)
    ensures
        kind is None ==> r == Err::<(), PlattformFeil>(PlattformFeil::UkjentPerson),
        kind matches Some(k) ==> r == (if k@ == "menneske"@ { Ok(()) } else { Err(PlattformFeil::IkkeMenneske) }),
{
    match kind {
        None => Err(PlattformFeil::UkjentPerson),
        Some(k) => if like(k, "menneske") {
            Ok(())
        } else {
            Err(PlattformFeil::IkkeMenneske)
        },
    }
}

/// Whether a role is one the platform gives in a company (`selskap`) or
/// a firm.
pub fn sjekk_tildelt_rolle(rolle: &str, selskap: bool) -> (r: Result<(), PlattformFeil>)
    ensures
        r is Ok <==> (if selskap { selskapsrolle(rolle@) } else { byrarolle(rolle@) }),
        r matches Err(e) ==> e == PlattformFeil::UkjentRolle,
{
    let ok = if selskap {
        like(rolle, "admin") || like(rolle, "bokforing") || like(rolle, "les") || like(rolle, "ansatt")
    } else {
        like(rolle, "admin") || like(rolle, "ansatt")
    };
    if ok {
        Ok(())
    } else {
        Err(PlattformFeil::UkjentRolle)
    }
}

/// What an assignment does to a membership, given the existing one
/// (role and whether it is active): a new membership is added by support
/// or a system administrator alike; changing one is for a system
/// administrator, and is a role change or a reactivation. The result is
/// the logged change and the role it came from.
pub fn medlemskapsendring(eksisterende: &Option<(String, bool)>, systemadmin: bool) -> (r: Result<(String, Option<String>), PlattformFeil>)
    ensures
        match *eksisterende {
            None => r matches Ok((e, fra)) && e@ == "lagt_til"@ && fra is None,
            Some((rolle, aktiv)) => if !systemadmin {
                r == Err::<(String, Option<String>), PlattformFeil>(PlattformFeil::KreverSystemadmin)
            } else {
                r matches Ok((e, fra)) && e@ == (if aktiv { "rolle_endret"@ } else { "reaktivert"@ }) && fra
                    == Some(rolle)
            },
        },
{
    match eksisterende {
        None => Ok((String::from_str("lagt_til"), None)),
        Some((rolle, aktiv)) => if !systemadmin {
            Err(PlattformFeil::KreverSystemadmin)
        } else {
            let e = if *aktiv {
                String::from_str("rolle_endret")
            } else {
                String::from_str("reaktivert")
            };
            Ok((e, Some(rolle.clone())))
        },
    }
}

/// A new membership is inserted only into an existing company or firm:
/// exactly one row.
pub fn sjekk_innsatt(rader: u64) -> (r: Result<(), PlattformFeil>)
    ensures
        r is Ok <==> rader == 1,
        r matches Err(e) ==> e == PlattformFeil::UkjentEnhet,
{
    if rader == 1 {
        Ok(())
    } else {
        Err(PlattformFeil::UkjentEnhet)
    }
}

/// A copy of a membership line.
pub fn kopi_tilknytning(t: &PlattformTilknytning) -> (r: PlattformTilknytning)
    ensures
        r == *t,
{
    PlattformTilknytning {
        slag: t.slag.clone(),
        id: t.id,
        navn: t.navn.clone(),
        orgnr: t.orgnr.clone(),
        rolle: t.rolle.clone(),
        aktiv: t.aktiv,
    }
}

/// The memberships among the first `n` that belong to a person, in
/// order.
pub open spec fn tilknytninger_til(person_id: u128, t: Seq<(u128, PlattformTilknytning)>, n: int) -> Seq<PlattformTilknytning>
    decreases n,
{
    if n <= 0 {
        Seq::empty()
    } else if t[n - 1].0 == person_id {
        tilknytninger_til(person_id, t, n - 1).push(t[n - 1].1)
    } else {
        tilknytninger_til(person_id, t, n - 1)
    }
}

/// Each listed person with their memberships (each membership tagged
/// with its person's id), in the order they were listed.
pub fn brukere_med_tilknytninger(personer: &Vec<PlattformBruker>, t: &Vec<(u128, PlattformTilknytning)>) -> (r: Vec<PlattformBruker>)
    ensures
        r@.len() == personer@.len(),
        forall|k: int| #![trigger r@[k]] 0 <= k < personer@.len() ==> {
            &&& r@[k].person_id == personer@[k].person_id
            &&& r@[k].navn@ == personer@[k].navn@
            &&& r@[k].epost == personer@[k].epost
            &&& r@[k].kind@ == personer@[k].kind@
            &&& r@[k].tilknytninger@ == tilknytninger_til(personer@[k].person_id, t@, t@.len() as int)
        },
{
    let mut ut: Vec<PlattformBruker> = Vec::new();
    let mut k: usize = 0;
    while k < personer.len()
        invariant
            k <= personer@.len(),
            ut@.len() == k,
            forall|j: int| #![trigger ut@[j]] 0 <= j < k ==> {
                &&& ut@[j].person_id == personer@[j].person_id
                &&& ut@[j].navn@ == personer@[j].navn@
                &&& ut@[j].epost == personer@[j].epost
                &&& ut@[j].kind@ == personer@[j].kind@
                &&& ut@[j].tilknytninger@ == tilknytninger_til(personer@[j].person_id, t@, t@.len() as int)
            },
        decreases personer@.len() - k,
    {
        let p = &personer[k];
        let mut liste: Vec<PlattformTilknytning> = Vec::new();
        let mut m: usize = 0;
        while m < t.len()
            invariant
                p == personer@[k as int],
                m <= t@.len(),
                liste@ == tilknytninger_til(p.person_id, t@, m as int),
            decreases t@.len() - m,
        {
            if t[m].0 == p.person_id {
                let c = kopi_tilknytning(&t[m].1);
                liste.push(c);
            }
            m = m + 1;
        }
        ut.push(PlattformBruker {
            person_id: p.person_id,
            navn: p.navn.clone(),
            epost: kopi_valg(&p.epost),
            kind: p.kind.clone(),
            tilknytninger: liste,
        });
        k = k + 1;
    }
    ut
}

} // verus!
