//! Onboarding: a company from the business register gets its onboarding
//! person as admin, the general journal and a starter chart of accounts
//! with the receivable and payable accounts flagged; a firm is created
//! once, by the first person to register it.

use crate::tekst::like;
use vstd::prelude::*;

verus! {

/// A company just onboarded.
#[derive(Clone, Debug)]
pub struct OnboardedCompany {
    pub company_id: u128,
    pub name: String,
    pub seeded_accounts: usize,
}

/// Why onboarding is refused.
#[derive(Clone, Debug, PartialEq, Eq)]
pub enum OnboardingFeil {
    /// The company with this organisation number is already onboarded.
    AlleredeOnboardet { orgnr: String },
    /// A firm is an accounting or an auditing firm.
    UgyldigType,
    /// The firm is already registered; its admins must invite.
    AlleredeRegistrert,
}

/// The starter chart of accounts every onboarded company gets.
pub open spec fn startkontoer() -> Seq<(Seq<char>, Seq<char>)> {
    seq![
        ("1500"@, "Kundefordringer"@),
        ("1920"@, "Bankinnskudd"@),
        ("2400"@, "Leverandørgjeld"@),
        ("2700"@, "Utgående merverdiavgift"@),
        ("2710"@, "Inngående merverdiavgift"@),
        ("3000"@, "Salgsinntekt, avgiftspliktig"@),
        ("4300"@, "Innkjøp av varer for videresalg"@),
        ("6300"@, "Leie lokale"@),
        ("6800"@, "Kontorkostnad"@),
        ("7770"@, "Bank- og kortgebyr"@),
    ]
}

/// The starter chart of accounts as (number, name) pairs.
pub fn starter_accounts() -> (r: Vec<(&'static str, &'static str)>)
    ensures
        r@.len() == startkontoer().len(),
        forall|i: int| 0 <= i < r@.len() ==> (#[trigger] r@[i]).0@ == startkontoer()[i].0 && r@[i].1@ == startkontoer()[i].1,
{
    let v = vec![
        ("1500", "Kundefordringer"),
        ("1920", "Bankinnskudd"),
        ("2400", "Leverandørgjeld"),
        ("2700", "Utgående merverdiavgift"),
        ("2710", "Inngående merverdiavgift"),
        ("3000", "Salgsinntekt, avgiftspliktig"),
        ("4300", "Innkjøp av varer for videresalg"),
        ("6300", "Leie lokale"),
        ("6800", "Kontorkostnad"),
        ("7770", "Bank- og kortgebyr"),
    ];
    v
}

/// The accounts flagged for the subledgers at onboarding: 1500 for
/// customers, 2400 for suppliers.
pub fn reskontroflagg() -> (r: Vec<(&'static str, &'static str)>)
    ensures
        r@.len() == 2,
        r@[0].0@ == "1500"@ && r@[0].1@ == "kunde"@,
        r@[1].0@ == "2400"@ && r@[1].1@ == "leverandor"@,
{
    vec![("1500", "kunde"), ("2400", "leverandor")]
}

/// A company is onboarded once (`finnes`: a company with the number
/// exists already).
pub fn sjekk_onboarding(finnes: bool, orgnr: &str) -> (r: Result<(), OnboardingFeil>)
    ensures
        r is Ok <==> !finnes,
        r matches Err(e) ==> e matches OnboardingFeil::AlleredeOnboardet { orgnr: o } && o@ == orgnr@,
{
    if finnes {
        Err(OnboardingFeil::AlleredeOnboardet { orgnr: orgnr.to_string() })
    } else {
        Ok(())
    }
}

/// What onboarding reports.
pub fn onboardet(company_id: u128, name: String) -> (r: OnboardedCompany)
    ensures
        r.company_id == company_id,
        r.name == name,
        r.seeded_accounts == startkontoer().len(),
{
    OnboardedCompany { company_id, name, seeded_accounts: 10 }
}

/// A new firm: an accounting or an auditing firm, not registered before
/// (`finnes`), and not lost to a simultaneous registration (`unik_brudd`,
/// the insert hit the unique organisation number).
pub fn sjekk_nytt_byra(kind: &str, finnes: bool, unik_brudd: bool) -> (r: Result<(), OnboardingFeil>)
    ensures
        !(kind@ == "regnskap"@ || kind@ == "revisjon"@) ==> r == Err::<(), OnboardingFeil>(OnboardingFeil::UgyldigType),
        (kind@ == "regnskap"@ || kind@ == "revisjon"@) && (finnes || unik_brudd) ==> r == Err::<(), OnboardingFeil>(
            OnboardingFeil::AlleredeRegistrert,
        ),
        r is Ok <==> (kind@ == "regnskap"@ || kind@ == "revisjon"@) && !finnes && !unik_brudd,
{
    if !(like(kind, "regnskap") || like(kind, "revisjon")) {
        return Err(OnboardingFeil::UgyldigType);
    }
    if finnes || unik_brudd {
        return Err(OnboardingFeil::AlleredeRegistrert);
    }
    Ok(())
}

} // verus!
