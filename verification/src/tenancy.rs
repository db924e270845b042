//! Who may act for which company: direct memberships, firm memberships
//! routed through engagements active on the day, and machine grants. An
//! engagement ended today grants nothing today; the roles of one person
//! in one company are reported once each, in order.

use crate::dato::{Dato, for_, senest, er_for, er_senest};
use crate::tekst::{er_leks_mindre, leks_mindre, like, lemma_leks_total, lemma_leks_transitiv};
use vstd::prelude::*;
use vstd::string::*;

verus! {

/// One company a person may act for, and with what access.
#[derive(Clone, Debug)]
pub struct CompanyAccess {
    pub company_id: u128,
    pub orgnr: String,
    pub name: String,
    /// "admin", "bokforing", "revisor", "les", "ansatt" or a custom role.
    pub access: String,
    /// How the access is granted: "direkte", "integrasjon" or the
    /// granting firm's name.
    pub via: String,
}

/// A grant (engagement or integration grant) is active on a day from its
/// first day until, and not including, its end day.
pub open spec fn aktiv_paa(valid_from: Dato, valid_to: Option<Dato>, dag: Dato) -> bool {
    &&& senest(valid_from, dag)
    &&& match valid_to {
        None => true,
        Some(t) => for_(dag, t),
    }
}

/// Whether a grant is active on a day.
pub fn er_aktiv_paa(valid_from: Dato, valid_to: Option<Dato>, dag: Dato) -> (r: bool)
    ensures
        r == aktiv_paa(valid_from, valid_to, dag),
{
    er_senest(valid_from, dag) && match valid_to {
        None => true,
        Some(t) => er_for(dag, t),
    }
}

/// Ending a grant revokes it at once: on its end day, and on every day
/// after, it grants nothing.
pub proof fn lov_avsluttet_oppdrag_gir_ingen_tilgang(valid_from: Dato, slutt: Dato, dag: Dato)
    requires
        senest(slutt, dag),
    ensures
        !aktiv_paa(valid_from, Some(slutt), dag),
{
}

/// The access an engagement of a kind grants: bookkeeping for an
/// accounting engagement, the auditor's read access otherwise.
pub open spec fn oppdragstilgang(kind: Seq<char>) -> Seq<char> {
    if kind == "regnskap"@ { "bokforing"@ } else { "revisor"@ }
}

pub fn tilgang_for_oppdrag(kind: &str) -> (r: String)
    ensures
        r@ == oppdragstilgang(kind@),
{
    if like(kind, "regnskap") {
        String::from_str("bokforing")
    } else {
        String::from_str("revisor")
    }
}

/// The rank used to pick one access name for display.
pub open spec fn rang(a: Seq<char>) -> int {
    if a == "admin"@ {
        4
    } else if a == "bokforing"@ {
        3
    } else if a == "revisor"@ {
        2
    } else if a == "les"@ {
        1
    } else {
        0
    }
}

fn rang_av(a: &str) -> (r: u8)
    ensures
        r == rang(a@),
{
    if like(a, "admin") {
        4
    } else if like(a, "bokforing") {
        3
    } else if like(a, "revisor") {
        2
    } else if like(a, "les") {
        1
    } else {
        0
    }
}

/// Among the first `n` routes, the index of the one picked for the
/// company: the highest rank, and the last of equals.
pub open spec fn valgt_til(v: Seq<CompanyAccess>, company_id: u128, n: int) -> Option<int>
    decreases n,
{
    if n <= 0 {
        None
    } else {
        let tidligere = valgt_til(v, company_id, n - 1);
        if v[n - 1].company_id == company_id && match tidligere {
            None => true,
            Some(b) => rang(v[n - 1].access@) >= rang(v[b].access@),
        } {
            Some(n - 1)
        } else {
            tidligere
        }
    }
}

proof fn lemma_valgt(v: Seq<CompanyAccess>, company_id: u128, n: int)
    requires
        0 <= n <= v.len(),
    ensures
        match valgt_til(v, company_id, n) {
            None => forall|k: int| 0 <= k < n ==> #[trigger] v[k].company_id != company_id,
            Some(b) => {
                &&& 0 <= b < n
                &&& v[b].company_id == company_id
                &&& forall|k: int| 0 <= k < n && #[trigger] v[k].company_id == company_id ==> rang(v[k].access@) <= rang(
                    v[b].access@,
                )
            },
        },
    decreases n,
{
    if n > 0 {
        lemma_valgt(v, company_id, n - 1);
    }
}

/// The single access name shown for a person in one company: the
/// highest-ranked of their routes in (admin, bokforing, revisor, les,
/// then anything else), the last of equals; `None` without any route.
pub fn company_access(tilganger: &Vec<CompanyAccess>, company_id: u128) -> (r: Option<String>)
    ensures
        match valgt_til(tilganger@, company_id, tilganger@.len() as int) {
            None => r is None,
            Some(b) => r matches Some(a) && a@ == tilganger@[b].access@,
        },
        r is None <==> forall|k: int| 0 <= k < tilganger@.len() ==> #[trigger] tilganger@[k].company_id != company_id,
        r matches Some(a) ==> forall|k: int| 0 <= k < tilganger@.len() && #[trigger] tilganger@[k].company_id == company_id
            ==> rang(tilganger@[k].access@) <= rang(a@),
{
    let mut best: Option<usize> = None;
    let mut best_rang: u8 = 0;
    let mut i: usize = 0;
    while i < tilganger.len()
        invariant
            i <= tilganger@.len(),
            match valgt_til(tilganger@, company_id, i as int) {
                None => best is None,
                Some(b) => best == Some(b as usize) && best_rang == rang(tilganger@[b].access@),
            },
        decreases tilganger@.len() - i,
    {
        if tilganger[i].company_id == company_id {
            let r = rang_av(tilganger[i].access.as_str());
            let ta = match best {
                None => true,
                Some(_) => r >= best_rang,
            };
            if ta {
                best = Some(i);
                best_rang = r;
            }
        }
        i = i + 1;
    }
    proof {
        lemma_valgt(tilganger@, company_id, tilganger@.len() as int);
    }
    match best {
        None => None,
        Some(b) => Some(tilganger[b].access.clone()),
    }
}

/// Strictly increasing in string order: sorted, with no repeats.
pub open spec fn stigende(s: Seq<String>) -> bool {
    forall|i: int, j: int| 0 <= i < j < s.len() ==> leks_mindre(#[trigger] s[i]@, #[trigger] s[j]@)
}

/// A role the person has in the company through one of the first `n`
/// routes.
pub open spec fn rolle_blant(v: Seq<CompanyAccess>, company_id: u128, rolle: Seq<char>, n: int) -> bool {
    exists|k: int| 0 <= k < n && #[trigger] v[k].company_id == company_id && v[k].access@ == rolle
}

/// A role the person has in the company through one of the routes.
pub open spec fn har_rolle(v: Seq<CompanyAccess>, company_id: u128, rolle: Seq<char>) -> bool {
    rolle_blant(v, company_id, rolle, v.len() as int)
}

/// The list holds the name.
pub open spec fn holder(s: Seq<String>, x: Seq<char>) -> bool {
    exists|j: int| 0 <= j < s.len() && #[trigger] s[j]@ == x
}

/// Every role a person has in one company, one per name, in string
/// order: the union of the routes in, not the strongest of them.
pub fn company_roles(tilganger: &Vec<CompanyAccess>, company_id: u128) -> (r: Vec<String>)
    ensures
        stigende(r@),
        forall|x: Seq<char>| har_rolle(tilganger@, company_id, x) <==> holder(r@, x),
{
    let mut ut: Vec<String> = Vec::new();
    let mut i: usize = 0;
    while i < tilganger.len()
        invariant
            i <= tilganger@.len(),
            stigende(ut@),
            forall|x: Seq<char>| rolle_blant(tilganger@, company_id, x, i as int) <==> holder(ut@, x),
        decreases tilganger@.len() - i,
    {
        let ghost forrige = ut@;
        let treff = tilganger[i].company_id == company_id;
        if treff {
            let a = &tilganger[i].access;
            let mut p: usize = 0;
            while p < ut.len() && er_leks_mindre(ut[p].as_str(), a.as_str())
                invariant
                    p <= ut@.len(),
                    ut@ == forrige,
                    forall|k: int| 0 <= k < p ==> leks_mindre(#[trigger] ut@[k]@, a@),
                decreases ut@.len() - p,
            {
                p = p + 1;
            }
            let finnes = p < ut.len() && like(ut[p].as_str(), a.as_str());
            if !finnes {
                proof {
                    assert forall|k: int| p <= k < ut@.len() implies leks_mindre(a@, #[trigger] ut@[k]@) by {
                        assert(!leks_mindre(ut@[p as int]@, a@));
                        if !leks_mindre(a@, ut@[p as int]@) {
                            lemma_leks_total(ut@[p as int]@, a@, 0);
                            assert(ut@[p as int]@ =~= a@);
                        }
                        if k > p {
                            lemma_leks_transitiv(a@, ut@[p as int]@, ut@[k]@, 0);
                        }
                    }
                }
                let c = a.clone();
                ut.insert(p, c);
                proof {
                    assert(ut@ == forrige.insert(p as int, c));
                    assert forall|x: int, y: int| 0 <= x < y < ut@.len() implies leks_mindre(#[trigger] ut@[x]@, #[trigger] ut@[y]@) by {
                        if y < p {
                        } else if y == p {
                        } else if x < p {
                            lemma_leks_transitiv(ut@[x]@, a@, ut@[y]@, 0);
                        } else if x == p {
                        } else {
                            assert(ut@[x] == forrige[x - 1] && ut@[y] == forrige[y - 1]);
                        }
                    }
                    assert forall|x: Seq<char>| holder(ut@, x) <==> (holder(forrige, x) || x == a@) by {
                        if holder(ut@, x) {
                            let j = choose|j: int| 0 <= j < ut@.len() && #[trigger] ut@[j]@ == x;
                            if j < p {
                                assert(forrige[j]@ == x);
                            } else if j > p {
                                assert(forrige[j - 1]@ == x);
                            }
                        }
                        if holder(forrige, x) {
                            let j = choose|j: int| 0 <= j < forrige.len() && #[trigger] forrige[j]@ == x;
                            if j < p {
                                assert(ut@[j]@ == x);
                            } else {
                                assert(ut@[j + 1]@ == x);
                            }
                        }
                        if x == a@ {
                            assert(ut@[p as int]@ == x);
                        }
                    }
                }
            } else {
                proof {
                    assert(forrige[p as int]@ == a@);
                    assert(holder(forrige, a@));
                }
            }
        }
        proof {
            let v = tilganger@;
            assert forall|x: Seq<char>| rolle_blant(v, company_id, x, i + 1) <==> holder(ut@, x) by {
                if rolle_blant(v, company_id, x, i + 1) {
                    let k = choose|k: int| 0 <= k < i + 1 && #[trigger] v[k].company_id == company_id && v[k].access@ == x;
                    if k < i {
                        assert(rolle_blant(v, company_id, x, i as int));
                    }
                }
                if holder(ut@, x) && !holder(forrige, x) {
                    assert(v[i as int].company_id == company_id && v[i as int].access@ == x);
                }
                if holder(forrige, x) {
                    let k = choose|k: int| 0 <= k < i && #[trigger] v[k].company_id == company_id && v[k].access@ == x;
                    assert(v[k].company_id == company_id);
                }
            }
        }
        i = i + 1;
    }
    ut
}

/// The access shown for a company is always one of the person's roles
/// there: whatever `company_access` picks, `company_roles` lists.
pub proof fn lov_vist_tilgang_er_en_av_rollene(v: Seq<CompanyAccess>, company_id: u128)
    requires
        valgt_til(v, company_id, v.len() as int) is Some,
    ensures
        har_rolle(v, company_id, v[valgt_til(v, company_id, v.len() as int)->0].access@),
{
    lemma_valgt(v, company_id, v.len() as int);
    let b = valgt_til(v, company_id, v.len() as int)->0;
    assert(v[b].company_id == company_id);
}

} // verus!
