use regnmed_db::byramedlemmer::invitasjonsepost;
use regnmed_db::attestering::{
    AttestFeil, AttestationPolicy, beregn_debetsum, krever_attestering, sjekk_beslutning,
    sjekk_manuelt_bilag, sjekk_policy,
};
use regnmed_db::bilag::EntryDraft;
use regnmed_db::dato::Dato;
use regnmed_db::engagement::{FirmaOppslag, OppdragFeil, beslutningsstatus, sjekk_foresporsel};
use regnmed_db::integrasjon::{IntegrasjonFeil, Personhandling, kallspor, person_for_klient, sjekk_tildeling};
use regnmed_db::plattform::{
    PlattformFeil, aktiv_plattformrolle, avslutt_medlemskap, krev_menneske, medlemskapsendring,
    person_fra_epost, sjekk_plattformrolle, sjekk_tildelt_rolle,
};
use regnmed_db::roller::{RolleFeil, aktivendring, er_unik_krenkelse, rettighetslogg, sjekk_rollenavn};
use regnmed_db::tenancy::{CompanyAccess, company_access, company_roles, er_aktiv_paa, tilgang_for_oppdrag};

fn d(ar: i32, maned: u32, dag: u32) -> Dato {
    Dato { ar, maned, dag }
}

fn tilgang(company_id: u128, access: &str, via: &str) -> CompanyAccess {
    CompanyAccess {
        company_id,
        orgnr: "999999999".to_string(),
        name: "Selskap".to_string(),
        access: access.to_string(),
        via: via.to_string(),
    }
}

fn linje(belop: i64) -> EntryDraft {
    EntryDraft {
        account_number: "6800".to_string(),
        amount_ore: belop,
        vat_code: None,
        description: None,
        party_no: None,
        avdeling: None,
        prosjekt: None,
        valuta: None,
    }
}

fn policy(aktiv: bool, grense: Option<i64>, attestant: Option<u128>) -> AttestationPolicy {
    AttestationPolicy {
        aktiv,
        belopsgrense_ore: grense,
        attestant_person_id: attestant,
        created_by: "admin".to_string(),
        created_at: 0,
    }
}

#[test]
fn an_engagement_ended_today_grants_nothing_today() {
    let fra = d(2024, 1, 1);
    assert!(er_aktiv_paa(fra, None, d(2025, 6, 1)));
    assert!(er_aktiv_paa(fra, Some(d(2025, 6, 2)), d(2025, 6, 1)));
    assert!(!er_aktiv_paa(fra, Some(d(2025, 6, 1)), d(2025, 6, 1)));
    assert!(!er_aktiv_paa(fra, Some(d(2025, 6, 1)), d(2025, 7, 1)));
    assert!(!er_aktiv_paa(d(2025, 6, 2), None, d(2025, 6, 1)));
}

#[test]
fn an_accounting_engagement_grants_bookkeeping_and_an_audit_the_auditor_role() {
    assert_eq!(tilgang_for_oppdrag("regnskap"), "bokforing");
    assert_eq!(tilgang_for_oppdrag("revisjon"), "revisor");
}

#[test]
fn the_displayed_access_is_the_strongest_route_in() {
    let v = vec![
        tilgang(1, "les", "direkte"),
        tilgang(2, "admin", "direkte"),
        tilgang(1, "bokforing", "Byrå AS"),
        tilgang(1, "ansatt", "direkte"),
    ];
    assert_eq!(company_access(&v, 1), Some("bokforing".to_string()));
    assert_eq!(company_access(&v, 2), Some("admin".to_string()));
    assert_eq!(company_access(&v, 3), None);
}

#[test]
fn every_role_in_a_company_is_listed_once_in_order() {
    let v = vec![
        tilgang(1, "les", "direkte"),
        tilgang(1, "ansatt", "direkte"),
        tilgang(2, "admin", "direkte"),
        tilgang(1, "bokforing", "Byrå AS"),
        tilgang(1, "les", "integrasjon"),
    ];
    assert_eq!(
        company_roles(&v, 1),
        vec!["ansatt".to_string(), "bokforing".to_string(), "les".to_string()]
    );
    assert!(company_roles(&v, 9).is_empty());
}

#[test]
fn a_custom_role_cannot_take_a_built_in_name() {
    assert_eq!(sjekk_rollenavn("  Innkjøper "), Ok("Innkjøper".to_string()));
    assert_eq!(sjekk_rollenavn("   "), Err(RolleFeil::ManglerNavn));
    assert_eq!(sjekk_rollenavn(" Admin"), Err(RolleFeil::Reservert));
    assert_eq!(sjekk_rollenavn("REVISOR"), Err(RolleFeil::Reservert));
    assert!(er_unik_krenkelse(Some("23505")));
    assert!(!er_unik_krenkelse(Some("23503")));
    assert!(!er_unik_krenkelse(None));
    assert_eq!(
        rettighetslogg(&vec!["faktura.les".to_string(), "bilag.skriv".to_string()]),
        "faktura.les bilag.skriv"
    );
    assert_eq!(aktivendring(true), "reaktivert");
    assert_eq!(aktivendring(false), "deaktivert");
}

#[test]
fn a_manual_voucher_over_the_limit_needs_attestation() {
    let entries = vec![linje(50_000), linje(-50_000), linje(20_000), linje(-20_000)];
    assert_eq!(beregn_debetsum(&entries), 70_000);
    let p = Some(policy(true, Some(70_000), None));
    assert!(krever_attestering(&p, 70_000));
    assert!(!krever_attestering(&p, 69_999));
    assert_eq!(sjekk_manuelt_bilag(&p, &entries), Err(AttestFeil::KreverAttestering));
    assert_eq!(sjekk_manuelt_bilag(&Some(policy(true, Some(70_001), None)), &entries), Ok(()));
    assert_eq!(sjekk_manuelt_bilag(&Some(policy(false, None, None)), &entries), Ok(()));
    assert_eq!(sjekk_manuelt_bilag(&None, &entries), Ok(()));
    assert!(krever_attestering(&Some(policy(true, None, None)), 0));
}

#[test]
fn a_policy_needs_a_limit_that_is_not_negative_and_an_approver_with_access() {
    assert_eq!(sjekk_policy(Some(-1), None, &None), Err(AttestFeil::NegativGrense));
    assert_eq!(sjekk_policy(Some(0), Some(7), &Some("les".to_string())), Err(AttestFeil::AttestantUtenTilgang));
    assert_eq!(sjekk_policy(None, Some(7), &None), Err(AttestFeil::AttestantUtenTilgang));
    assert_eq!(sjekk_policy(None, Some(7), &Some("bokforing".to_string())), Ok(()));
    assert_eq!(sjekk_policy(Some(10_000), None, &None), Ok(()));
}

#[test]
fn an_attestation_decision_follows_the_policy() {
    let p = Some(policy(true, None, Some(5)));
    assert_eq!(
        sjekk_beslutning(false, Some("   "), &p, 5, Some("ny")),
        Err(AttestFeil::AvvisningUtenNotat)
    );
    assert_eq!(sjekk_beslutning(true, None, &p, 6, Some("ny")), Err(AttestFeil::AnnenAttestant));
    assert_eq!(sjekk_beslutning(true, None, &p, 5, None), Err(AttestFeil::UkjentBilag));
    assert_eq!(sjekk_beslutning(true, None, &p, 5, Some("bokfort")), Err(AttestFeil::AlleredeAvgjort));
    assert_eq!(
        sjekk_beslutning(false, Some(" feil beløp "), &p, 5, Some("ny")),
        Ok(("avvist".to_string(), Some("feil beløp".to_string())))
    );
    assert_eq!(
        sjekk_beslutning(true, Some(""), &None, 9, Some("ny")),
        Ok(("godkjent".to_string(), None))
    );
}

#[test]
fn a_request_goes_only_to_a_verified_firm_without_an_open_engagement() {
    let firma = Some(FirmaOppslag { kind: "regnskap".to_string(), verified: true });
    assert_eq!(sjekk_foresporsel(&firma, false), Ok("regnskap".to_string()));
    assert_eq!(sjekk_foresporsel(&firma, true), Err(OppdragFeil::AlleredeAktivt));
    assert_eq!(
        sjekk_foresporsel(&Some(FirmaOppslag { kind: "revisjon".to_string(), verified: false }), false),
        Err(OppdragFeil::IkkeVerifisert)
    );
    assert_eq!(sjekk_foresporsel(&None, false), Err(OppdragFeil::UkjentFirma));
    assert_eq!(beslutningsstatus(true), "accepted");
    assert_eq!(beslutningsstatus(false), "declined");
}

#[test]
fn a_client_id_of_a_signed_in_user_never_becomes_an_integration() {
    assert_eq!(
        sjekk_tildeling("  klient-1 ", " Regnskapsrobot ", "les"),
        Ok(("klient-1".to_string(), "Regnskapsrobot".to_string()))
    );
    assert_eq!(sjekk_tildeling("  ", "Robot", "les"), Err(IntegrasjonFeil::ManglerKlientId));
    assert_eq!(sjekk_tildeling("k", " ", "les"), Err(IntegrasjonFeil::ManglerNavn));
    assert_eq!(sjekk_tildeling("k", "Robot", "admin"), Err(IntegrasjonFeil::UgyldigTilgang));
    assert_eq!(person_for_klient(&None, "k"), Ok(Personhandling::Opprett));
    assert_eq!(
        person_for_klient(&Some(("integrasjon".to_string(), true)), "k"),
        Ok(Personhandling::Bruk)
    );
    assert_eq!(
        person_for_klient(&Some(("menneske".to_string(), false)), "k"),
        Ok(Personhandling::Gjor)
    );
    assert_eq!(
        person_for_klient(&Some(("menneske".to_string(), true)), "k"),
        Err(IntegrasjonFeil::TilhorerBruker { client_id: "k".to_string() })
    );
    assert_eq!(kallspor("GET", Some(1)), (false, true));
    assert_eq!(kallspor("POST", None), (true, false));
}

#[test]
fn the_platform_role_in_force_prefers_systemadmin_then_the_latest_end() {
    let idag = d(2025, 6, 1);
    let rader = vec![
        ("support".to_string(), d(2025, 1, 1), d(2026, 1, 1)),
        ("systemadmin".to_string(), d(2025, 1, 1), d(2025, 7, 1)),
        ("systemadmin".to_string(), d(2025, 1, 1), d(2025, 6, 1)),
        ("systemadmin".to_string(), d(2025, 1, 1), d(2025, 9, 1)),
    ];
    let r = aktiv_plattformrolle(&rader, idag).unwrap();
    assert_eq!(r.rolle, "systemadmin");
    assert_eq!(r.valid_to, d(2025, 9, 1));
    assert!(aktiv_plattformrolle(&vec![("support".to_string(), d(2025, 1, 1), d(2025, 6, 1))], idag).is_none());
}

#[test]
fn ending_a_platform_membership_takes_effect_at_once() {
    let idag = d(2025, 6, 1);
    assert_eq!(avslutt_medlemskap(d(2025, 1, 1), d(2026, 1, 1), idag), idag);
    assert_eq!(avslutt_medlemskap(d(2025, 7, 1), d(2026, 1, 1), idag), d(2025, 7, 1));
    assert_eq!(avslutt_medlemskap(d(2025, 1, 1), d(2025, 3, 1), idag), d(2025, 3, 1));
}

#[test]
fn platform_roles_are_time_limited_explained_and_for_people() {
    let idag = d(2025, 6, 1);
    let ok = sjekk_plattformrolle("support", d(2025, 6, 2), idag, " hjelp kunde ", "menneske");
    assert_eq!(ok, Ok("hjelp kunde".to_string()));
    assert_eq!(
        sjekk_plattformrolle("eier", d(2025, 6, 2), idag, "x", "menneske"),
        Err(PlattformFeil::UkjentPlattformrolle)
    );
    assert_eq!(
        sjekk_plattformrolle("support", idag, idag, "x", "menneske"),
        Err(PlattformFeil::SluttIkkeIFremtiden)
    );
    assert_eq!(
        sjekk_plattformrolle("support", d(2025, 6, 2), idag, " ", "menneske"),
        Err(PlattformFeil::ManglerNotat)
    );
    assert_eq!(
        sjekk_plattformrolle("support", d(2025, 6, 2), idag, "x", ""),
        Err(PlattformFeil::UkjentPerson)
    );
    assert_eq!(
        sjekk_plattformrolle("support", d(2025, 6, 2), idag, "x", "integrasjon"),
        Err(PlattformFeil::IkkeMenneske)
    );
    assert_eq!(krev_menneske(Some("menneske")), Ok(()));
    assert_eq!(krev_menneske(None), Err(PlattformFeil::UkjentPerson));
}

#[test]
fn the_platform_assigns_only_built_in_roles_and_only_systemadmin_changes_them() {
    assert_eq!(sjekk_tildelt_rolle("bokforing", true), Ok(()));
    assert_eq!(sjekk_tildelt_rolle("bokforing", false), Err(PlattformFeil::UkjentRolle));
    assert_eq!(sjekk_tildelt_rolle("revisor", true), Err(PlattformFeil::UkjentRolle));
    assert_eq!(medlemskapsendring(&None, false), Ok(("lagt_til".to_string(), None)));
    assert_eq!(
        medlemskapsendring(&Some(("les".to_string(), true)), false),
        Err(PlattformFeil::KreverSystemadmin)
    );
    assert_eq!(
        medlemskapsendring(&Some(("les".to_string(), true)), true),
        Ok(("rolle_endret".to_string(), Some("les".to_string())))
    );
    assert_eq!(
        medlemskapsendring(&Some(("les".to_string(), false)), true),
        Ok(("reaktivert".to_string(), Some("les".to_string())))
    );
    assert_eq!(person_fra_epost(&vec![], "a@b.no"), Ok(None));
    assert_eq!(person_fra_epost(&vec![4], "a@b.no"), Ok(Some(4)));
    assert_eq!(
        person_fra_epost(&vec![4, 5], "a@b.no"),
        Err(PlattformFeil::FlerePersoner { antall: 2, epost: "a@b.no".to_string() })
    );
}

#[test]
fn a_firm_invitation_mail_names_the_firm_role_and_sign_in_address() {
    let (emne, tekst) = invitasjonsepost("ansatt", "Byrå AS", "Kari", Some("https://portal.example//"));
    assert_eq!(emne, "Du er invitert inn i Byrå AS i regnmed");
    assert!(tekst.starts_with("Hei,\n\nKari har invitert deg inn i byrået Byrå AS i regnmed, med rollen «ansatt».\n\n"));
    assert!(tekst.contains("Logg inn her, så er tilgangen på plass:\nhttps://portal.example\n\n"));
    assert!(tekst.ends_with("videresende den.\n"));
    let (_, uten) = invitasjonsepost("admin", "Byrå AS", "Kari", None);
    assert!(uten.contains("Logg inn i regnmed, så er tilgangen på plass.\n\n"));
}

#[test]
fn the_shown_access_is_one_of_the_roles() {
    let v = vec![
        tilgang(1, "ansatt", "direkte"),
        tilgang(1, "revisor", "Revisjon AS"),
        tilgang(1, "kasserer", "direkte"),
    ];
    let vist = company_access(&v, 1).unwrap();
    assert_eq!(vist, "revisor");
    assert!(company_roles(&v, 1).contains(&vist));
}
