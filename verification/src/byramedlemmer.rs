//! Firm (byrå) membership rules: the two firm roles.

use crate::medlemmer::MedlemFeil;
use crate::epost::uten_hale;
use crate::tekst::{like, tegn_i, del_av, streng_av};
use vstd::prelude::*;
use vstd::string::*;

verus! {

/// A firm role: `admin` runs the byrå, `ansatt` works in it.
pub open spec fn byrarolle(rolle: Seq<char>) -> bool {
    rolle == "admin"@ || rolle == "ansatt"@
}

/// Only the firm roles can be given in a byrå.
pub fn krev_rolle(rolle: &str) -> (r: Result<(), MedlemFeil>)
    ensures
        r is Ok <==> byrarolle(rolle@),
        r matches Err(e) ==> e == MedlemFeil::IkkeEnByrarolle,
{
    if like(rolle, "admin") || like(rolle, "ansatt") {
        Ok(())
    } else {
        Err(MedlemFeil::IkkeEnByrarolle)
    }
}

/// What a firm role change does, given the member's current role (`None`
/// when not an active member): `Ok(true)` when the role is written.
pub fn byrarolleendring(fra: Option<&str>, ny_rolle: &str) -> (r: Result<bool, MedlemFeil>)
    ensures
        !byrarolle(ny_rolle@) ==> r == Err::<bool, MedlemFeil>(MedlemFeil::IkkeEnByrarolle),
        byrarolle(ny_rolle@) ==> match fra {
            None => r == Err::<bool, MedlemFeil>(MedlemFeil::IkkeDirekteMedlem),
            Some(f) => r == Ok::<bool, MedlemFeil>(f@ != ny_rolle@),
        },
{
    match krev_rolle(ny_rolle) {
        Err(e) => {
            return Err(e);
        },
        Ok(()) => {},
    }
    match fra {
        None => Err(MedlemFeil::IkkeDirekteMedlem),
        Some(f) => Ok(!like(f, ny_rolle)),
    }
}

/// The subject of a firm invitation mail.
pub open spec fn invitasjonsemne(firm_name: Seq<char>) -> Seq<char> {
    "Du er invitert inn i "@ + firm_name + " i regnmed"@
}

/// The text of a firm invitation mail: who invited whom into which firm
/// with which role, where to sign in (the portal address without trailing
/// '/', when known), and that access follows the address, not the mail.
pub open spec fn invitasjonstekst(rolle: Seq<char>, firm_name: Seq<char>, invited_by: Seq<char>, portal_base: Option<Seq<char>>) -> Seq<char> {
    let start = "Hei,\n\n"@ + invited_by + " har invitert deg inn i byrået "@ + firm_name + " i regnmed, med rollen «"@ + rolle
        + "».\n\n"@;
    let logg_inn = match portal_base {
        Some(b) => "Logg inn her, så er tilgangen på plass:\n"@ + uten_hale(b, '/') + "\n\n"@,
        None => "Logg inn i regnmed, så er tilgangen på plass.\n\n"@,
    };
    start + logg_inn
        + "Bruk denne e-postadressen når du logger inn — tilgangen henger på adressen, ikke på denne meldingen, så det hjelper ingen å videresende den.\n"@
}

/// The text without trailing `c`.
fn uten_avsluttende(s: &str, c: char) -> (r: String)
    ensures
        r@ == uten_hale(s@, c),
{
    let v = tegn_i(s);
    let mut j: usize = v.len();
    assert(v@.take(v@.len() as int) =~= v@);
    while j > 0 && v[j - 1] == c
        invariant
            j <= v@.len(),
            uten_hale(v@, c) == uten_hale(v@.take(j as int), c),
        decreases j,
    {
        assert(v@.take(j as int).drop_last() =~= v@.take(j - 1));
        j = j - 1;
    }
    let w = del_av(&v, 0, j);
    assert(w@ =~= v@.take(j as int));
    streng_av(&w)
}

/// The subject and text of the mail inviting someone into a firm.
pub fn invitasjonsepost(rolle: &str, firm_name: &str, invited_by: &str, portal_base: Option<&str>) -> (r: (String, String))
    ensures
        r.0@ == invitasjonsemne(firm_name@),
        r.1@ == invitasjonstekst(rolle@, firm_name@, invited_by@, match portal_base {
            Some(b) => Some(b@),
            None => None,
        }),
{
    let mut text = String::from_str("Hei,\n\n");
    text.append(invited_by);
    text.append(" har invitert deg inn i byrået ");
    text.append(firm_name);
    text.append(" i regnmed, med rollen «");
    text.append(rolle);
    text.append("».\n\n");
    match portal_base {
        Some(base) => {
            text.append("Logg inn her, så er tilgangen på plass:\n");
            let b = uten_avsluttende(base, '/');
            text.append(b.as_str());
            text.append("\n\n");
        },
        None => {
            text.append("Logg inn i regnmed, så er tilgangen på plass.\n\n");
        },
    }
    text.append(
        "Bruk denne e-postadressen når du logger inn — tilgangen henger på adressen, ikke på denne meldingen, så det hjelper ingen å videresende den.\n",
    );
    let mut subject = String::from_str("Du er invitert inn i ");
    subject.append(firm_name);
    subject.append(" i regnmed");
    (subject, text)
}

} // verus!
