//! Attestering: optional internal control that separates who approves
//! from who posts and pays. The policy says when a voucher needs an
//! approval and who may give it; a decision on an inbox document is
//! recorded only under those rules.

use crate::bilag::EntryDraft;
use crate::tekst::{like, trim, er_blank, trimmet};
use vstd::prelude::*;
use vstd::string::*;

verus! {

/// The policy in force (the newest one recorded).
#[derive(Clone, Debug)]
pub struct AttestationPolicy {
    pub aktiv: bool,
    /// Vouchers with a debit sum at or over the limit need approval;
    /// `None`: every voucher while the policy is active.
    pub belopsgrense_ore: Option<i64>,
    /// The designated approver; `None`: anyone with posting access.
    pub attestant_person_id: Option<u128>,
    pub created_by: String,
    /// Microseconds since the Unix epoch, UTC.
    pub created_at: i64,
}

/// A direct, active member of a company.
#[derive(Clone, Debug)]
pub struct CompanyMemberRow {
    pub person_id: u128,
    pub name: String,
    pub role: String,
}

/// One recorded decision.
#[derive(Clone, Debug)]
pub struct AttestationRow {
    pub decision: String,
    pub note: Option<String>,
    pub decided_by_person: u128,
    pub decided_by: String,
    /// Microseconds since the Unix epoch, UTC.
    pub created_at: i64,
}

/// Why a policy or a decision is refused.
#[derive(Clone, Copy, Debug, PartialEq, Eq, Structural)]
pub enum AttestFeil {
    NegativGrense,
    /// The designated approver has no posting access to the company.
    AttestantUtenTilgang,
    /// A rejection needs a note.
    AvvisningUtenNotat,
    /// The policy names another approver.
    AnnenAttestant,
    UkjentBilag,
    /// The document is already decided.
    AlleredeAvgjort,
    /// The voucher needs approval and cannot be posted by hand.
    KreverAttestering,
}

/// A new policy: the limit is not negative, and a designated approver
/// has access to the company other than read-only. `tilgang` is the
/// approver's access role (`None` without access); it is only looked at
/// when an approver is designated.
pub fn sjekk_policy(belopsgrense_ore: Option<i64>, attestant: Option<u128>, tilgang: &Option<String>) -> (r: Result<(), AttestFeil>)
    ensures
        (belopsgrense_ore matches Some(g) && g < 0) ==> r == Err::<(), AttestFeil>(AttestFeil::NegativGrense),
        !(belopsgrense_ore matches Some(g) && g < 0) ==> r == (if attestant is Some && !(tilgang matches Some(t)
            && t@ != "les"@) {
            Err(AttestFeil::AttestantUtenTilgang)
        } else {
            Ok(())
        }),
{
    match belopsgrense_ore {
        Some(g) => if g < 0 {
            return Err(AttestFeil::NegativGrense);
        },
        None => {},
    }
    if attestant.is_some() {
        let ok = match tilgang {
            Some(t) => !like(t.as_str(), "les"),
            None => false,
        };
        if !ok {
            return Err(AttestFeil::AttestantUtenTilgang);
        }
    }
    Ok(())
}

/// The debit sum of the first `n` lines: the positive amounts.
pub open spec fn debet_til(e: Seq<EntryDraft>, n: int) -> int
    decreases n,
{
    if n <= 0 {
        0
    } else {
        debet_til(e, n - 1) + (if e[n - 1].amount_ore > 0 { e[n - 1].amount_ore as int } else { 0 })
    }
}

/// The debit sum of a voucher's lines.
pub open spec fn debetsum(e: Seq<EntryDraft>) -> int {
    debet_til(e, e.len() as int)
}

proof fn lemma_debet_grense(e: Seq<EntryDraft>, n: int)
    requires
        0 <= n <= e.len(),
    ensures
        0 <= debet_til(e, n) <= n * 0x8000_0000_0000_0000,
    decreases n,
{
    if n > 0 {
        lemma_debet_grense(e, n - 1);
    }
}

/// The debit sum of a voucher's lines.
pub fn beregn_debetsum(entries: &Vec<EntryDraft>) -> (r: i64)
    requires
        debetsum(entries@) <= i64::MAX,
    ensures
        r == debetsum(entries@),
{
    let mut sum: i128 = 0;
    let mut i: usize = 0;
    while i < entries.len()
        invariant
            i <= entries@.len(),
            sum == debet_til(entries@, i as int),
        decreases entries@.len() - i,
    {
        proof {
            lemma_debet_grense(entries@, i as int);
            assert((i as int) * 0x8000_0000_0000_0000 <= 0x1_0000_0000_0000_0000 * 0x8000_0000_0000_0000)
                by (nonlinear_arith)
                requires
                    0 <= i < 0x1_0000_0000_0000_0000,
            ;
        }
        let a = entries[i].amount_ore;
        if a > 0 {
            sum = sum + a as i128;
        }
        i = i + 1;
    }
    proof {
        lemma_debet_grense(entries@, entries@.len() as int);
    }
    sum as i64
}

/// Whether a voucher with this debit sum needs approval under the policy
/// in force: the policy is active and either has no limit or the sum is
/// at or over it.
pub open spec fn krever(policy: Option<AttestationPolicy>, debet: int) -> bool {
    match policy {
        Some(p) => p.aktiv && match p.belopsgrense_ore {
            None => true,
            Some(g) => debet >= g,
        },
        None => false,
    }
}

/// Whether a voucher with this debit sum needs approval.
pub fn krever_attestering(policy: &Option<AttestationPolicy>, debet: i64) -> (r: bool)
    ensures
        r == krever(*policy, debet as int),
{
    match policy {
        Some(p) => p.aktiv && match p.belopsgrense_ore {
            None => true,
            Some(g) => debet >= g,
        },
        None => false,
    }
}

/// A posting by hand is refused when the voucher would need approval:
/// approval targets inbox documents, and a manual voucher would bypass
/// it.
pub fn sjekk_manuelt_bilag(policy: &Option<AttestationPolicy>, entries: &Vec<EntryDraft>) -> (r: Result<(), AttestFeil>)
    requires
        debetsum(entries@) <= i64::MAX,
    ensures
        r is Ok <==> !krever(*policy, debetsum(entries@)),
        r matches Err(e) ==> e == AttestFeil::KreverAttestering,
{
    let d = beregn_debetsum(entries);
    if krever_attestering(policy, d) {
        Err(AttestFeil::KreverAttestering)
    } else {
        Ok(())
    }
}

/// A higher debit sum never needs less approval: under a fixed policy,
/// if a sum needs approval, so does every larger one.
pub proof fn lov_storre_belop_krever_minst_like_mye(policy: Option<AttestationPolicy>, a: int, b: int)
    requires
        a <= b,
        krever(policy, a),
    ensures
        krever(policy, b),
{
}

/// The note of a decision, trimmed; an empty one counts as none.
pub open spec fn notat(note: Option<Seq<char>>) -> Option<Seq<char>> {
    match note {
        Some(n) => if trimmet(n).len() == 0 { None } else { Some(trimmet(n)) },
        None => None,
    }
}

/// A decision on an inbox document: a rejection needs a note, a
/// designated approver under an active policy must be the one deciding,
/// and the document must exist and still be undecided (`status`, `None`
/// when there is no such document). The result is the decision word and
/// the trimmed note.
pub fn sjekk_beslutning(
    godkjent: bool,
    note: Option<&str>,
    policy: &Option<AttestationPolicy>,
    person_id: u128,
    status: Option<&str>,
) -> (r: Result<(String, Option<String>), AttestFeil>)
    ensures
        ({
            let n = match note {
                Some(s) => notat(Some(s@)),
                None => None,
            };
            let annen = match *policy {
                Some(p) => p.aktiv && (p.attestant_person_id matches Some(a) && a != person_id),
                None => false,
            };
            if !godkjent && n is None {
                r == Err::<(String, Option<String>), AttestFeil>(AttestFeil::AvvisningUtenNotat)
            } else if annen {
                r == Err::<(String, Option<String>), AttestFeil>(AttestFeil::AnnenAttestant)
            } else if status is None {
                r == Err::<(String, Option<String>), AttestFeil>(AttestFeil::UkjentBilag)
            } else if !(status matches Some(s) && s@ == "ny"@) {
                r == Err::<(String, Option<String>), AttestFeil>(AttestFeil::AlleredeAvgjort)
            } else {
                r matches Ok(ut) && ut.0@ == (if godkjent { "godkjent"@ } else { "avvist"@ }) && opt_tekst(ut.1) == n
            }
        }),
{
    let n: Option<String> = match note {
        Some(s) => if er_blank(s) {
            None
        } else {
            Some(trim(s))
        },
        None => None,
    };
    if !godkjent && n.is_none() {
        return Err(AttestFeil::AvvisningUtenNotat);
    }
    let annen = match policy {
        Some(p) => p.aktiv && match p.attestant_person_id {
            Some(a) => a != person_id,
            None => false,
        },
        None => false,
    };
    if annen {
        return Err(AttestFeil::AnnenAttestant);
    }
    match status {
        None => Err(AttestFeil::UkjentBilag),
        Some(s) => if !like(s, "ny") {
            Err(AttestFeil::AlleredeAvgjort)
        } else {
            let d = if godkjent {
                String::from_str("godkjent")
            } else {
                String::from_str("avvist")
            };
            Ok((d, n))
        },
    }
}

/// An optional text as plain characters.
pub open spec fn opt_tekst(o: Option<String>) -> Option<Seq<char>> {
    crate::tekst::opt_syn(o)
}

} // verus!
