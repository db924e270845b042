use regnmed_db::bilag::er_balansert;
use regnmed_db::dato::Dato;
use regnmed_db::kassa::{DagsoppgjorInn, KassaFeil, kassadifferanse, salgssats, sjekk_dagsoppgjor};
use regnmed_db::kontoplan::{
    BilagLinje, BilagMedLinjer, KontoFeil, en_rad, samle_linjer, sjekk_kontoendring, sjekk_ny_konto,
    sokefilter,
};
use regnmed_db::migrering::{
    ApenPostRad, ContactsReport, Kontaktutfall, MigreringFeil, PartKind, bygg_apne_poster,
    lag_postekst, line_amount, numerisk_nummer, partsnummer, planlegg_apne_poster,
    registrer_kontakt, sjekk_apne_poster,
};
use regnmed_db::ocr::{OcrAssignment, OcrFeil, OcrFile, OcrPayment, oppsummer_ocr, sjekk_oppdrag};
use regnmed_db::opening::{AapningFeil, aapningsbilag, sjekk_aapning, utsatt_flagg};
use regnmed_db::periodisering::{
    PeriodiseringDraft, PeriodiseringFeil, dimensjon, forfalne_maneder, periodiseringsbilag,
    sjekk_plan,
};

fn d(ar: i32, maned: u32, dag: u32) -> Dato {
    Dato { ar, maned, dag }
}

#[test]
fn the_till_difference_is_counted_minus_registered_cash() {
    let betaling = vec![
        ("1900".to_string(), 12_000),
        ("1920".to_string(), 30_000),
        ("1900".to_string(), 3_000),
    ];
    assert_eq!(kassadifferanse(&betaling, "1900", 14_500), (15_000, -500));
    assert_eq!(kassadifferanse(&betaling, "1950", 0), (0, 0));
}

#[test]
fn a_counted_amount_needs_a_cash_account_and_a_vat_code_needs_a_rate() {
    let mut inn = DagsoppgjorInn {
        dato: d(2025, 5, 2),
        z_nummer: "Z-17".to_string(),
        salg: vec![("3000".to_string(), Some("3".to_string()), 12_500)],
        betaling: vec![("1900".to_string(), 12_500)],
        mva_konto: "2700".to_string(),
        kontantkonto: Some("1900".to_string()),
        opptalt_kontant_ore: None,
        differansekonto: "7790".to_string(),
    };
    assert_eq!(sjekk_dagsoppgjor(&inn), Err(KassaFeil::KontantkontoOgOpptaltHverForSeg));
    inn.opptalt_kontant_ore = Some(12_500);
    assert_eq!(sjekk_dagsoppgjor(&inn), Ok(()));
    assert_eq!(salgssats(&None, None), Ok(0));
    assert_eq!(salgssats(&Some("3".to_string()), Some(2500)), Ok(2500));
    assert_eq!(salgssats(&Some("3".to_string()), None), Err(KassaFeil::IngenSats));
}

#[test]
fn an_opening_balance_sums_to_zero_and_goes_into_an_empty_ledger() {
    let lines = vec![("1920".to_string(), 100_000), ("2050".to_string(), -100_000)];
    assert_eq!(sjekk_aapning(&lines, Some(0)), Ok(()));
    assert_eq!(sjekk_aapning(&lines, Some(3)), Err(AapningFeil::IkkeTom { bilag: 3 }));
    assert_eq!(sjekk_aapning(&lines, None), Err(AapningFeil::IngenKjede));
    assert_eq!(sjekk_aapning(&vec![("1920".to_string(), 0)], Some(0)), Err(AapningFeil::ForFaLinjer));
    let skjev = vec![("1920".to_string(), 100_000), ("2050".to_string(), -90_000)];
    assert_eq!(sjekk_aapning(&skjev, Some(0)), Err(AapningFeil::IkkeINull { sum_ore: 10_000 }));
    let v = aapningsbilag(d(2025, 1, 1), &lines);
    assert_eq!(v.description, "Åpningsbalanse");
    assert_eq!(v.entries.len(), 2);
    assert_eq!(v.entries[1].account_number, "2050");
    assert!(er_balansert(&v));
    assert_eq!(
        utsatt_flagg("1500"),
        "konto 1500: reskontro-flagg utsatt — åpningsbalansen har ingen partfordeling"
    );
}

fn post(part: &str, navn: Option<&str>, belop: i64) -> ApenPostRad {
    ApenPostRad {
        part: part.to_string(),
        part_navn: navn.map(|s| s.to_string()),
        belop_ore: belop,
        dokument: None,
        kid: None,
        forfall: None,
    }
}

#[test]
fn open_items_become_one_balanced_voucher_on_the_control_account() {
    let rader = vec![post("10001", Some("Kunde A"), 50_000), post("10002", None, -5_000)];
    let partsnr = vec!["10001".to_string(), "10002".to_string()];
    let v = bygg_apne_poster(PartKind::Kunde, "1500", "2050", d(2025, 1, 1), &rader, &partsnr);
    assert!(er_balansert(&v));
    assert_eq!(v.description, "Åpne poster kunder ved migrering");
    assert_eq!(v.entries.len(), 3);
    assert_eq!(v.entries[0].amount_ore + v.entries[1].amount_ore, 45_000);
    assert_eq!(v.entries[2].account_number, "2050");
    assert_eq!(v.entries[2].amount_ore, -45_000);
    assert_eq!(v.entries[0].party_no.as_deref(), Some("10001"));
    let lev = bygg_apne_poster(PartKind::Leverandor, "2400", "2050", d(2025, 1, 1), &rader, &partsnr);
    assert_eq!(lev.entries[0].amount_ore, -50_000);
    assert_eq!(lev.entries[2].amount_ore, 45_000);
    assert_eq!(line_amount(PartKind::Leverandor, 300), -300);
}

#[test]
fn an_open_item_text_carries_kid_and_due_date() {
    let mut r = post("1", None, 1);
    assert_eq!(lag_postekst(&r), "Åpen post");
    r.dokument = Some("Faktura 77".to_string());
    r.kid = Some("0000770".to_string());
    r.forfall = Some(d(2025, 2, 3));
    assert_eq!(lag_postekst(&r), "Faktura 77 (KID 0000770) forfall 2025-02-03");
}

#[test]
fn the_plan_lists_each_new_party_once_and_warns() {
    let rader = vec![
        post("S-1", Some("Ny AS"), 100),
        post("10001", None, 200),
        post("S-1", Some("Ny AS"), 300),
        post("S-2", None, 400),
    ];
    let funnet = vec![false, true, false, false];
    let plan = planlegg_apne_poster(PartKind::Kunde, &rader, &funnet, 0);
    assert_eq!(plan.antall, 4);
    assert_eq!(plan.sum_ore, 1000);
    assert_eq!(plan.nye_parter, vec!["Ny AS".to_string(), "S-2".to_string()]);
    assert_eq!(plan.advarsler.len(), 1);
    assert!(plan.advarsler[0].starts_with("2 part(er) finnes ikke"));
    let alle = planlegg_apne_poster(PartKind::Kunde, &rader, &vec![true; 4], 5);
    assert!(alle.advarsler.is_empty());
    assert_eq!(alle.konto_saldo_ore, 5);
}

#[test]
fn an_open_items_import_needs_an_empty_distinct_control_account() {
    assert_eq!(sjekk_apne_poster(0, "1500", "2050", Some(0)), Err(MigreringFeil::IngenPoster));
    assert_eq!(sjekk_apne_poster(2, "1500", "1500", Some(0)), Err(MigreringFeil::SammeKonto));
    assert_eq!(sjekk_apne_poster(2, "1500", "2050", None), Err(MigreringFeil::UkjentKonto));
    assert_eq!(
        sjekk_apne_poster(2, "1500", "2050", Some(99)),
        Err(MigreringFeil::KontoHarSaldo { saldo_ore: 99 })
    );
    assert_eq!(sjekk_apne_poster(2, "1500", "2050", Some(0)), Ok(()));
}

#[test]
fn a_numeric_old_number_is_kept_and_others_are_numbered_from_the_kind() {
    assert_eq!(numerisk_nummer(Some("10001")), Some("10001".to_string()));
    assert_eq!(numerisk_nummer(Some("S-1")), None);
    assert_eq!(numerisk_nummer(Some("")), None);
    assert_eq!(partsnummer("kunde", "10077", Some(10_005)), "10077");
    assert_eq!(partsnummer("kunde", "S-1", Some(10_005)), "10006");
    assert_eq!(partsnummer("kunde", "S-1", None), "10000");
    assert_eq!(partsnummer("leverandor", "L-9", None), "20000");
}

#[test]
fn contact_rows_are_counted_and_failures_become_warnings() {
    let mut r = ContactsReport { opprettet: 0, oppdatert: 0, advarsler: vec![] };
    registrer_kontakt(&mut r, "Kunde A", &Kontaktutfall::Funnet);
    registrer_kontakt(&mut r, "Kunde B", &Kontaktutfall::Opprettet);
    registrer_kontakt(&mut r, "Kunde C", &Kontaktutfall::Feilet("ugyldig orgnr".to_string()));
    assert_eq!((r.opprettet, r.oppdatert), (1, 1));
    assert_eq!(r.advarsler, vec!["Kunde C: kunne ikke opprettes (ugyldig orgnr)".to_string()]);
}

fn betaling(belop: i64, kid_valid: bool) -> OcrPayment {
    OcrPayment {
        transaction_number: "1".to_string(),
        date: d(2025, 3, 3),
        amount_ore: belop,
        kid: "123".to_string(),
        kid_valid,
        transaction_type: "10".to_string(),
        bank_reference: None,
        debit_account: None,
    }
}

#[test]
fn an_ocr_import_reports_batches_payments_sum_and_invalid_kids() {
    let file = OcrFile {
        transmission_number: "1000001".to_string(),
        assignments: vec![
            OcrAssignment {
                assignment_number: "1".to_string(),
                agreement_id: "a".to_string(),
                bank_account: "12345678903".to_string(),
                payments: vec![betaling(10_000, true), betaling(2_500, false)],
            },
            OcrAssignment {
                assignment_number: "2".to_string(),
                agreement_id: "a".to_string(),
                bank_account: "12345678903".to_string(),
                payments: vec![betaling(700, false)],
            },
        ],
    };
    let s = oppsummer_ocr(&file);
    assert_eq!((s.batches, s.payments, s.sum_ore, s.kid_invalid), (2, 3, 13_200, 2));
    assert_eq!(sjekk_oppdrag(1, "1", "1000001"), Ok(()));
    assert_eq!(
        sjekk_oppdrag(0, "1", "1000001"),
        Err(OcrFeil::AlleredeImportert { oppdrag: "1".to_string(), forsendelse: "1000001".to_string() })
    );
}

#[test]
fn an_account_number_is_four_digits_and_a_name_is_not_blank() {
    assert_eq!(sjekk_ny_konto("1921", "  Bank 2 "), Ok("Bank 2".to_string()));
    assert_eq!(sjekk_ny_konto("192", "Bank"), Err(KontoFeil::UgyldigNummer));
    assert_eq!(sjekk_ny_konto("19a1", "Bank"), Err(KontoFeil::UgyldigNummer));
    assert_eq!(sjekk_ny_konto("1921", "  "), Err(KontoFeil::ManglerNavn));
    assert_eq!(sjekk_kontoendring(None), Ok(None));
    assert_eq!(sjekk_kontoendring(Some(" Ny ")), Ok(Some("Ny".to_string())));
    assert_eq!(sjekk_kontoendring(Some("")), Err(KontoFeil::ManglerNavn));
    assert_eq!(en_rad(1, true), Ok(()));
    assert_eq!(en_rad(0, true), Err(KontoFeil::Finnes));
    assert_eq!(en_rad(0, false), Err(KontoFeil::Ukjent));
    assert_eq!(sokefilter(Some("  2025-1 ")), Some("2025-1".to_string()));
    assert_eq!(sokefilter(Some("   ")), None);
    assert_eq!(sokefilter(None), None);
}

fn bilaglinje(konto: &str, belop: i64) -> BilagLinje {
    BilagLinje {
        account: konto.to_string(),
        account_name: "Konto".to_string(),
        amount_ore: belop,
        vat_code: None,
        description: None,
        party_no: None,
        avdeling: None,
        prosjekt: None,
    }
}

fn hode(id: u128, nr: i64) -> BilagMedLinjer {
    BilagMedLinjer {
        voucher_id: id,
        journal_code: "GL".to_string(),
        fiscal_year: 2025,
        voucher_number: nr,
        voucher_date: d(2025, 1, 2),
        description: "Bilag".to_string(),
        lines: vec![],
    }
}

#[test]
fn listed_lines_are_gathered_under_their_vouchers_in_order() {
    let hoder = vec![hode(7, 2), hode(3, 1)];
    let linjer = vec![
        (3, bilaglinje("1920", 100)),
        (7, bilaglinje("3000", -500)),
        (9, bilaglinje("9999", 1)),
        (3, bilaglinje("3000", -100)),
        (7, bilaglinje("1500", 500)),
    ];
    let r = samle_linjer(&hoder, &linjer);
    assert_eq!(r.len(), 2);
    assert_eq!(r[0].voucher_number, 2);
    let k0: Vec<&str> = r[0].lines.iter().map(|l| l.account.as_str()).collect();
    let k1: Vec<&str> = r[1].lines.iter().map(|l| l.account.as_str()).collect();
    assert_eq!(k0, vec!["3000", "1500"]);
    assert_eq!(k1, vec!["1920", "3000"]);
}

fn plan(total: i64, fra: (i32, u32), til: (i32, u32)) -> PeriodiseringDraft {
    PeriodiseringDraft {
        kilde_voucher: None,
        beskrivelse: " Forsikring ".to_string(),
        resultatkonto: "6400".to_string(),
        balansekonto: "1700".to_string(),
        total_ore: total,
        fra,
        til,
        avdeling: None,
        prosjekt: None,
        notat: None,
    }
}

#[test]
fn an_accrual_plan_needs_an_amount_months_and_one_ore_a_month() {
    assert_eq!(
        sjekk_plan(&plan(120_000, (2025, 1), (2025, 12)), 12),
        Ok((d(2025, 1, 1), d(2025, 12, 1), "Forsikring".to_string()))
    );
    assert_eq!(sjekk_plan(&plan(0, (2025, 1), (2025, 12)), 12), Err(PeriodiseringFeil::NullBelop));
    assert_eq!(sjekk_plan(&plan(100, (2025, 13), (2025, 12)), 12), Err(PeriodiseringFeil::UgyldigManed));
    assert_eq!(sjekk_plan(&plan(100, (2025, 6), (2025, 1)), 0), Err(PeriodiseringFeil::TilForFra));
    assert_eq!(
        sjekk_plan(&plan(-11, (2025, 1), (2025, 12)), 12),
        Err(PeriodiseringFeil::UnderEttOre { belop: 11, maneder: 12 })
    );
    assert_eq!(dimensjon(None, "avdeling", None), Ok(None));
    assert_eq!(dimensjon(Some("A1"), "avdeling", Some(4)), Ok(Some(4)));
    assert_eq!(
        dimensjon(Some("A9"), "avdeling", None),
        Err(PeriodiseringFeil::UkjentDimensjon { kind: "avdeling".to_string(), kode: "A9".to_string() })
    );
}

#[test]
fn the_run_posts_ended_unposted_months_of_a_running_plan() {
    let rader = vec![
        (d(2025, 1, 1), d(2025, 1, 31), 10_000),
        (d(2025, 2, 1), d(2025, 2, 28), 10_000),
        (d(2025, 3, 1), d(2025, 3, 31), 10_000),
        (d(2025, 4, 1), d(2025, 4, 30), 10_000),
    ];
    let ferdige = vec![d(2025, 1, 1)];
    assert_eq!(forfalne_maneder(&rader, &ferdige, None, d(2025, 3, 31)), vec![1, 2]);
    assert_eq!(forfalne_maneder(&rader, &ferdige, Some(d(2025, 3, 31)), d(2025, 4, 30)), vec![1]);
    assert_eq!(forfalne_maneder(&rader, &vec![], None, d(2024, 12, 31)), Vec::<usize>::new());
}

#[test]
fn a_month_of_an_accrual_moves_the_part_without_vat() {
    let v = periodiseringsbilag(
        d(2025, 3, 31),
        d(2025, 3, 1),
        10_000,
        "Forsikring",
        "6400",
        "1700",
        &Some("A1".to_string()),
        &None,
        3,
        12,
    );
    assert!(er_balansert(&v));
    assert_eq!(v.description, "Periodisering Forsikring 2025-03");
    assert_eq!(v.entries[0].account_number, "6400");
    assert_eq!(v.entries[0].amount_ore, 10_000);
    assert_eq!(v.entries[0].avdeling.as_deref(), Some("A1"));
    assert_eq!(v.entries[0].description.as_deref(), Some("Periodisering måned 3/12"));
    assert_eq!(v.entries[1].amount_ore, -10_000);
    assert_eq!(v.entries[1].avdeling, None);
    assert!(v.entries.iter().all(|e| e.vat_code.is_none()));
}
