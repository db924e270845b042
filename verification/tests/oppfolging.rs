use regnmed_db::abonnement_oppfolging::{
    AbonnementFaktura, OppfolgingFeil, auto_sperrede, gjenopprettingsdetalj, purregebyr, purreutkast,
    skal_gjenopprettes, skal_sperres, sperredetalj,
};
use regnmed_db::balansedok::{Avstemming, AvstemmingFeil, BalanseLinje, sjekk_avstemming, vedlegg_ut};
use regnmed_db::bank::{BankFeil, MATCH_WINDOW_DAYS, sjekk_kontoutskrift, sjekk_ny_kontoutskrift, umatchet_post};
use regnmed_db::dato::Dato;
use regnmed_db::innboks::{InnboksFeil, sha256_hex, sjekk_avvisning, sjekk_bokforing, sjekk_nedlasting, sjekk_opplasting};
use regnmed_db::marketplace::{OnboardingFeil, reskontroflagg, sjekk_nytt_byra, starter_accounts};
use regnmed_db::mva::{MvaFeil, spesifikasjonslinje};
use regnmed_db::period::{LaasFeil, sjekk_ny_laas};
use regnmed_db::purring::{
    PurreFeil, bucket_for, forfalt_faktura, gebyrdomene, krav_skal_bokfores, purrebilag, purreresultat,
    sjekk_restbelop,
};
use regnmed_db::settings::{
    InnstillingFeil, Registrering, feltendring, registrering_eller_ingen, sjekk_epost, sjekk_kilde,
    sjekk_kontonummer,
};

fn d(ar: i32, maned: u32, dag: u32) -> Dato {
    Dato { ar, maned, dag }
}

#[test]
fn an_inbox_document_is_decided_once_and_handed_out_only_intact() {
    assert_eq!(sjekk_opplasting(0), Err(InnboksFeil::TomtDokument));
    assert_eq!(sjekk_opplasting(10), Ok(()));
    assert_eq!(sjekk_nedlasting(&[1, 2, 3], &[1, 2, 3]), Ok(()));
    assert_eq!(sjekk_nedlasting(&[1, 2, 3], &[1, 2, 4]), Err(InnboksFeil::HashAvvik));
    assert_eq!(sjekk_bokforing(Some("ny")), Ok(()));
    assert_eq!(sjekk_bokforing(Some("bokfort")), Err(InnboksFeil::AlleredeAvgjort));
    assert_eq!(sjekk_bokforing(None), Err(InnboksFeil::UkjentDokument));
    assert_eq!(sjekk_avvisning("  feil leverandør "), Ok("feil leverandør".to_string()));
    assert_eq!(sjekk_avvisning(" "), Err(InnboksFeil::AvvisningUtenNotat));
    assert_eq!(sha256_hex(&vec![0x00, 0xab, 0x10]), "00ab10");
}

fn avstemming(saldo: i64) -> Avstemming {
    Avstemming {
        id: 1,
        saldo_ore: saldo,
        forklaring: "Bankutskrift".to_string(),
        avstemt_dato: d(2025, 1, 10),
        avstemt_av: "Kari".to_string(),
        har_vedlegg: false,
        vedlegg_navn: None,
    }
}

#[test]
fn a_balance_that_moved_after_reconciliation_shows_the_difference() {
    let mut l = BalanseLinje {
        konto: "1920".to_string(),
        kontonavn: "Bank".to_string(),
        saldo_ore: 150_000,
        avstemt: Some(avstemming(100_000)),
    };
    assert_eq!(l.avvik_ore(), Some(50_000));
    l.avstemt = Some(avstemming(150_000));
    assert_eq!(l.avvik_ore(), None);
    l.avstemt = None;
    assert_eq!(l.avvik_ore(), None);
}

#[test]
fn a_reconciliation_explains_a_balance_account() {
    assert_eq!(sjekk_avstemming(" Bankutskrift per 31.12 ", "1920", true, None), Ok("Bankutskrift per 31.12".to_string()));
    assert_eq!(sjekk_avstemming(" ", "1920", true, None), Err(AvstemmingFeil::ManglerForklaring));
    assert_eq!(sjekk_avstemming("x", "1920", false, None), Err(AvstemmingFeil::UkjentKonto));
    assert_eq!(sjekk_avstemming("x", "3000", true, None), Err(AvstemmingFeil::IkkeBalansekonto));
    assert_eq!(sjekk_avstemming("x", "2400", true, Some(0)), Err(AvstemmingFeil::TomtVedlegg));
    assert_eq!(
        vedlegg_ut(true, true, &[9], &[9], None, None),
        Ok((String::new(), "application/octet-stream".to_string()))
    );
    assert_eq!(vedlegg_ut(true, true, &[9], &[8], None, None), Err(AvstemmingFeil::HashAvvik));
    assert_eq!(vedlegg_ut(true, false, &[9], &[9], None, None), Err(AvstemmingFeil::UtenVedlegg));
    assert_eq!(vedlegg_ut(false, true, &[9], &[9], None, None), Err(AvstemmingFeil::UkjentAvstemming));
}

#[test]
fn a_bank_statement_is_imported_once() {
    assert_eq!(MATCH_WINDOW_DAYS, 5);
    assert_eq!(sjekk_kontoutskrift("", true), Err(BankFeil::UtenId));
    assert_eq!(sjekk_kontoutskrift("STMT-1", false), Err(BankFeil::UkjentKonto));
    assert_eq!(sjekk_kontoutskrift("STMT-1", true), Ok(()));
    assert_eq!(
        sjekk_ny_kontoutskrift(0, "STMT-1"),
        Err(BankFeil::AlleredeImportert { statement_ref: "STMT-1".to_string() })
    );
    let p = umatchet_post(5, d(2025, 2, 2), 2025, 17, -300, None);
    assert_eq!(p.voucher_label, "2025-17");
}

#[test]
fn overdue_invoices_fall_into_age_buckets() {
    assert_eq!(bucket_for(1), "1-14");
    assert_eq!(bucket_for(14), "1-14");
    assert_eq!(bucket_for(15), "15-30");
    assert_eq!(bucket_for(30), "15-30");
    assert_eq!(bucket_for(31), "30+");
    let o = forfalt_faktura(1, 77, "10001".to_string(), "Kunde".to_string(), d(2025, 1, 31), d(2025, 3, 3), 5_000, None, None)
        .unwrap();
    assert_eq!(o.days_overdue, 31);
    assert_eq!(o.bucket, "30+");
    assert!(forfalt_faktura(1, 77, "10001".to_string(), "Kunde".to_string(), d(2025, 1, 31), d(2025, 3, 3), 0, None, None)
        .is_none());
}

#[test]
fn a_reminder_total_is_the_rest_plus_fee_and_interest() {
    assert_eq!(sjekk_restbelop(0), Err(PurreFeil::Oppgjort));
    assert_eq!(sjekk_restbelop(1), Ok(()));
    assert_eq!(gebyrdomene(true), "standardkompensasjon");
    assert_eq!(gebyrdomene(false), "purregebyr_maks");
    assert!(krav_skal_bokfores(7_000, 0));
    assert!(!krav_skal_bokfores(0, 0));
    let r = purreresultat(
        "purring".to_string(),
        d(2025, 3, 1),
        d(2025, 3, 15),
        100_000,
        7_000,
        7_000,
        1_234,
        "0001".to_string(),
        "doc".to_string(),
    );
    assert_eq!(r.total_ore, 108_234);
    assert_eq!(purrebilag(Some(2025), Some(4)), Some((2025, 4)));
    assert_eq!(purrebilag(Some(2025), None), None);
}

#[test]
fn a_vat_line_needs_a_rate_and_a_code() {
    let l = spesifikasjonslinje("3".to_string(), "Utgående".to_string(), Some(2500), 100_000, 25_000).unwrap();
    assert_eq!((l.rate_bp, l.grunnlag_ore, l.avgift_ore), (2500, 100_000, 25_000));
    assert_eq!(
        spesifikasjonslinje("3".to_string(), "x".to_string(), None, 1, 1).err(),
        Some(MvaFeil::IngenSats)
    );
    assert_eq!(
        spesifikasjonslinje(String::new(), "x".to_string(), Some(2500), 1, 1).err(),
        Some(MvaFeil::TomKode)
    );
}

#[test]
fn a_period_lock_moves_back_only_when_reopening_is_allowed() {
    let g = d(2025, 3, 31);
    assert_eq!(sjekk_ny_laas(None, d(2025, 1, 31), false), Ok(()));
    assert_eq!(sjekk_ny_laas(Some(g), d(2025, 4, 30), false), Ok(()));
    assert_eq!(
        sjekk_ny_laas(Some(g), d(2025, 2, 28), false),
        Err(LaasFeil::GjenapningKreverAdmin { gjeldende: g })
    );
    assert_eq!(sjekk_ny_laas(Some(g), d(2025, 2, 28), true), Ok(()));
    assert_eq!(sjekk_ny_laas(Some(g), g, true), Err(LaasFeil::AlleredeLast { gjeldende: g }));
}

#[test]
fn company_settings_validate_what_is_stored() {
    let ingen = registrering_eller_ingen(None);
    assert!(!ingen.mva_registrert && !ingen.foretaksregistrert);
    let r = Registrering { mva_registrert: true, foretaksregistrert: false };
    assert_eq!(registrering_eller_ingen(Some(r)), r);
    assert_eq!(sjekk_kilde("brreg"), Ok(()));
    assert_eq!(sjekk_kilde("gjett"), Err(InnstillingFeil::UkjentKilde { kilde: "gjett".to_string() }));
    assert_eq!(sjekk_epost(Some(" post@firma.no ")), Ok(()));
    assert_eq!(sjekk_epost(Some("   ")), Ok(()));
    assert_eq!(sjekk_epost(None), Ok(()));
    assert_eq!(sjekk_epost(Some("post.firma.no")), Err(InnstillingFeil::UgyldigEpost));
    assert_eq!(feltendring(None), (false, None));
    assert_eq!(feltendring(Some("  ")), (true, None));
    assert_eq!(feltendring(Some(" Storgata 1 ")), (true, Some("Storgata 1".to_string())));
    assert_eq!(sjekk_kontonummer(None), Ok(None));
    assert_eq!(
        sjekk_kontonummer(Some(("12345678903".to_string(), true))),
        Ok(Some("12345678903".to_string()))
    );
    assert_eq!(
        sjekk_kontonummer(Some(("12345678900".to_string(), false))),
        Err(InnstillingFeil::UgyldigKontonummer)
    );
}

#[test]
fn onboarding_seeds_the_starter_chart_and_refuses_a_second_firm() {
    let k = starter_accounts();
    assert_eq!(k.len(), 10);
    assert_eq!(k[0], ("1500", "Kundefordringer"));
    assert_eq!(k[9], ("7770", "Bank- og kortgebyr"));
    assert_eq!(reskontroflagg(), vec![("1500", "kunde"), ("2400", "leverandor")]);
    assert_eq!(sjekk_nytt_byra("regnskap", false, false), Ok(()));
    assert_eq!(sjekk_nytt_byra("advokat", false, false), Err(OnboardingFeil::UgyldigType));
    assert_eq!(sjekk_nytt_byra("revisjon", true, false), Err(OnboardingFeil::AlleredeRegistrert));
    assert_eq!(sjekk_nytt_byra("revisjon", false, true), Err(OnboardingFeil::AlleredeRegistrert));
}

fn faktura(company_id: u128) -> AbonnementFaktura {
    AbonnementFaktura {
        company_id,
        company_navn: "Kunde AS".to_string(),
        epost: None,
        invoice_id: 1,
        invoice_no: 42,
        due_date: d(2025, 1, 31),
        remaining_ore: 29_900,
        sendt: true,
        last_steg: Some("purring".to_string()),
        last_sent: Some(d(2025, 2, 14)),
    }
}

#[test]
fn subscription_follow_up_ends_and_restores_coverage_by_its_own_memory() {
    let due = d(2025, 1, 31);
    assert!(skal_sperres(true, due, d(2025, 3, 2), 30, true));
    assert!(!skal_sperres(true, due, d(2025, 3, 1), 31, true));
    assert!(!skal_sperres(false, due, d(2025, 6, 1), 30, true));
    assert!(!skal_sperres(true, due, d(2025, 6, 1), 30, false));
    assert_eq!(
        sperredetalj(42, due, d(2025, 3, 2)),
        "faktura 42 ubetalt 30 dager etter forfall (2025-01-31) — dekningen avsluttet"
    );
    let apne = vec![faktura(7)];
    assert!(!skal_gjenopprettes(Some("sperret"), &apne, 7));
    assert!(skal_gjenopprettes(Some("sperret"), &apne, 8));
    assert!(!skal_gjenopprettes(Some("gjenopprettet"), &apne, 8));
    assert!(!skal_gjenopprettes(None, &vec![], 8));
    assert_eq!(
        auto_sperrede(&vec![(1, "sperret".to_string()), (2, "gjenopprettet".to_string()), (3, "sperret".to_string())]),
        vec![1, 3]
    );
    assert_eq!(
        gjenopprettingsdetalj(d(2025, 4, 1), "basis"),
        "alle abonnementsfakturaer betalt — dekning fra 2025-04-01, plan basis"
    );
}

#[test]
fn a_follow_up_reminder_is_due_days_later_with_its_fee() {
    assert_eq!(purregebyr(false, None), Ok(0));
    assert_eq!(purregebyr(true, Some(7_000)), Ok(7_000));
    assert_eq!(purregebyr(true, None), Err(OppfolgingFeil::ManglerStandardkompensasjon));
    let u = purreutkast("purring", d(2025, 2, 20), 14, 7_000, true).unwrap();
    assert_eq!(u.frist_date, d(2025, 3, 6));
    assert_eq!(u.gebyr_account, "3950");
    assert_eq!(u.rente_account, "8050");
    assert!(u.naeringsdrivende);
}
