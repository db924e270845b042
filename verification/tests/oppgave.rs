use regnmed_db::aksjebok::{
    Aarsbeholdning, AksjeFeil, Aksjehendelse, Hendelsestype, Nyutstedelse, Utbyttegrunnlag, Utbyttelinje,
    aksjonaeroppgave,
};
use regnmed_db::bilag::{EntryDraft, VoucherDraft};
use regnmed_db::dato::Dato;
use regnmed_db::ledger::{
    KjedeHode, Linjeoppslag, PosteringFeil, hashgrunnlag, kontroller_kjede, neste_kjedeledd, planlegg_postering,
};
use regnmed_db::lonn::avgiftsgrunnlag;
use regnmed_db::regnskap::er_resultatkonto;
use regnmed_db::saft_import::nummerer_parter;

fn d(ar: i32, maned: u32, dag: u32) -> Dato {
    Dato { ar, maned, dag }
}

fn hendelse(dato: Dato, type_: Hendelsestype, antall: i64, antall_etter: i64) -> Aksjehendelse {
    Aksjehendelse { dato, type_, antall, antall_etter }
}

#[test]
fn parter_uten_tallid_nummereres_fra_90000() {
    let ids = vec!["10001".to_string(), "K-1".to_string(), "K-2".to_string(), "".to_string()];
    let (numre, omnummerert) = nummerer_parter(&ids);
    assert_eq!(numre, vec!["10001", "90000", "90001", "90002"]);
    assert_eq!(omnummerert, vec![false, true, true, true]);
}

#[test]
fn tallid_beholdes_uten_omnummerering() {
    let ids = vec!["5".to_string(), "007".to_string()];
    let (numre, omnummerert) = nummerer_parter(&ids);
    assert_eq!(numre, vec!["5", "007"]);
    assert_eq!(omnummerert, vec![false, false]);
}

#[test]
fn oppgaven_summerer_beholdning_og_aksjekapital() {
    let beholdning = vec![
        Aarsbeholdning { inngaende: 60, utgaende: 60 },
        Aarsbeholdning { inngaende: 40, utgaende: 90 },
    ];
    let o = aksjonaeroppgave(2025, &beholdning, &vec![], &vec![], 1_000).unwrap();
    assert_eq!(o.antall_i_fjor, 100);
    assert_eq!(o.antall_i_ar, 150);
    assert_eq!(o.aksjekapital_i_fjor, 100_000);
    assert_eq!(o.aksjekapital_i_ar, 150_000);
    assert_eq!(o.palydende_ore, 1_000);
    assert!(o.nyutstedelser.is_empty());
    assert!(o.utbytte.is_empty());
}

#[test]
fn tom_aksjeeierbok_gir_ingen_oppgave() {
    let r = aksjonaeroppgave(2025, &vec![], &vec![], &vec![], 1_000);
    assert!(matches!(r, Err(AksjeFeil::TomAksjeeierbok)));
}

#[test]
fn nyutstedelser_ordnes_etter_dato_med_antall_pa_datoen() {
    let beholdning = vec![Aarsbeholdning { inngaende: 0, utgaende: 150 }];
    let hendelser = vec![
        hendelse(d(2025, 9, 1), Hendelsestype::Nyemisjon, 50, 150),
        hendelse(d(2025, 3, 1), Hendelsestype::Annen, 10, 100),
        hendelse(d(2024, 12, 1), Hendelsestype::Nyemisjon, 7, 7),
        hendelse(d(2025, 1, 10), Hendelsestype::Stiftelse, 100, 100),
        hendelse(d(2025, 9, 1), Hendelsestype::Nyemisjon, 5, 150),
    ];
    let o = aksjonaeroppgave(2025, &beholdning, &hendelser, &vec![], 100).unwrap();
    let ny = |dato, type_, antall_nye, antall_etter| Nyutstedelse {
        dato,
        type_,
        antall_nye,
        antall_etter,
        palydende_ore: 100,
        overkurs_ore: 0,
    };
    assert_eq!(
        o.nyutstedelser,
        vec![
            ny(d(2025, 1, 10), Hendelsestype::Stiftelse, 100, 100),
            ny(d(2025, 9, 1), Hendelsestype::Nyemisjon, 50, 150),
            ny(d(2025, 9, 1), Hendelsestype::Nyemisjon, 5, 150),
        ]
    );
}

#[test]
fn utbyttelinjer_bare_for_eiere_pa_vedtaksdatoen() {
    let beholdning = vec![Aarsbeholdning { inngaende: 100, utgaende: 100 }];
    let utbytte = vec![
        Utbyttegrunnlag { aksjonaer: 1, dato: d(2025, 5, 1), per_aksje_ore: 250, eid: 40 },
        Utbyttegrunnlag { aksjonaer: 2, dato: d(2025, 5, 1), per_aksje_ore: 250, eid: 0 },
        Utbyttegrunnlag { aksjonaer: 3, dato: d(2025, 5, 1), per_aksje_ore: 250, eid: 60 },
    ];
    let o = aksjonaeroppgave(2025, &beholdning, &vec![], &utbytte, 100).unwrap();
    assert_eq!(
        o.utbytte,
        vec![
            Utbyttelinje { aksjonaer: 1, dato: d(2025, 5, 1), belop_ore: 10_000, antall_aksjer: 40 },
            Utbyttelinje { aksjonaer: 3, dato: d(2025, 5, 1), belop_ore: 15_000, antall_aksjer: 60 },
        ]
    );
}

fn linje(konto: &str, belop: i64, mva: Option<&str>, tekst: Option<&str>, part: Option<&str>) -> EntryDraft {
    EntryDraft {
        account_number: konto.to_string(),
        amount_ore: belop,
        vat_code: mva.map(|s| s.to_string()),
        description: tekst.map(|s| s.to_string()),
        party_no: part.map(|s| s.to_string()),
        avdeling: Some("A1".to_string()),
        prosjekt: None,
        valuta: None,
    }
}

#[test]
fn hashgrunnlaget_nummererer_linjer_og_lagrer_tom_tekst_som_ingen() {
    let draft = VoucherDraft {
        journal_code: "GL".to_string(),
        voucher_date: d(2025, 3, 14),
        description: "Husleie".to_string(),
        reverses: Some(7),
        entries: vec![
            linje("6300", 10_000, Some(""), Some("Mars"), None),
            linje("2400", -10_000, None, Some(""), Some("20001")),
        ],
    };
    let hode = KjedeHode { last_seq: 41, last_hash: vec![9u8; 32] };
    let g = hashgrunnlag(&draft, 5, &hode, 12, "ola", 1_700_000_000_000_000, 2);
    assert_eq!(g.hash_version, 2);
    assert_eq!(g.company_id, 5);
    assert_eq!(g.chain_seq, 42);
    assert_eq!(g.journal_code, "GL");
    assert_eq!(g.fiscal_year, 2025);
    assert_eq!(g.voucher_number, 12);
    assert_eq!(g.voucher_date, d(2025, 3, 14));
    assert_eq!(g.description, "Husleie");
    assert_eq!(g.reverses, Some(7));
    assert_eq!(g.created_by, "ola");
    assert_eq!(g.created_at, 1_700_000_000_000_000);
    assert_eq!(g.entries.len(), 2);
    assert_eq!(g.entries[0].line_no, 1);
    assert_eq!(g.entries[0].account_number, "6300");
    assert_eq!(g.entries[0].amount, 10_000);
    assert_eq!(g.entries[0].vat_code, None);
    assert_eq!(g.entries[0].description, Some("Mars".to_string()));
    assert_eq!(g.entries[0].party_no, None);
    assert_eq!(g.entries[1].line_no, 2);
    assert_eq!(g.entries[1].amount, -10_000);
    assert_eq!(g.entries[1].description, None);
    assert_eq!(g.entries[1].party_no, Some("20001".to_string()));
}

#[test]
fn tre_posteringer_gir_en_kjede_som_teller_tre() {
    let genesis = vec![0u8; 32];
    let mut hode = KjedeHode { last_seq: 0, last_hash: genesis.clone() };
    let mut rader = Vec::new();
    for (i, b) in [11u8, 22, 33].iter().enumerate() {
        let (rad, ny) = neste_kjedeledd(&hode, i as u128 + 1, &vec![*b; 32]).unwrap();
        rader.push(rad);
        hode = ny;
    }
    let rep = kontroller_kjede(&rader, &genesis, &hode).unwrap();
    assert_eq!(rep.vouchers_checked, 3);
    assert_eq!(hode.last_seq, 3);
}

#[test]
fn avgift_pa_utbetalt_avsetning_pa_brutto() {
    assert_eq!(avgiftsgrunnlag(50_000_00, 12_000_00), (62_000_00, 50_000_00));
    assert_eq!(avgiftsgrunnlag(30_000_00, 0), (30_000_00, 30_000_00));
}

#[test]
fn resultatkonto_i_nokkeltallene_er_3000_til_8999() {
    assert!(er_resultatkonto("3000"));
    assert!(er_resultatkonto("6300"));
    assert!(er_resultatkonto("8999"));
    assert!(!er_resultatkonto("9000"));
    assert!(!er_resultatkonto("9100"));
    assert!(!er_resultatkonto("2999"));
    assert!(!er_resultatkonto("30000"));
    assert!(!er_resultatkonto("300"));
    assert!(!er_resultatkonto("3a00"));
    assert!(!er_resultatkonto(""));
}

fn husleie() -> VoucherDraft {
    VoucherDraft {
        journal_code: "GL".to_string(),
        voucher_date: d(2025, 3, 14),
        description: "Husleie".to_string(),
        reverses: None,
        entries: vec![
            linje("6300", 10_000, None, Some("Mars"), None),
            linje("1920", -10_000, None, None, None),
        ],
    }
}

fn oppslag(kind: Option<Option<&str>>) -> Linjeoppslag {
    Linjeoppslag { konto: kind.map(|k| k.map(|s| s.to_string())), party_no: None, part_kind: None }
}

#[test]
fn postering_avvises_i_bestemt_rekkefolge() {
    let hode = KjedeHode { last_seq: 3, last_hash: vec![1u8; 32] };
    let ok = vec![oppslag(Some(None)), oppslag(Some(None))];
    let mut en_linje = husleie();
    en_linje.entries.truncate(1);
    let r = planlegg_postering(&en_linje, None, &ok, 1, &hode, 1, "ola", 0, 1);
    assert!(matches!(r, Err(PosteringFeil::ForFaLinjer)));
    let mut skjev = husleie();
    skjev.entries[1].amount_ore = -9_000;
    let r = planlegg_postering(&skjev, Some(d(2025, 12, 31)), &ok, 1, &hode, 1, "ola", 0, 1);
    assert!(matches!(r, Err(PosteringFeil::Ubalansert)));
    let r = planlegg_postering(&husleie(), Some(d(2025, 3, 14)), &ok, 1, &hode, 1, "ola", 0, 1);
    assert_eq!(r.unwrap_err(), PosteringFeil::Last { las: d(2025, 3, 14) });
    let ukjent = vec![oppslag(Some(None)), oppslag(None)];
    let r = planlegg_postering(&husleie(), Some(d(2025, 3, 13)), &ukjent, 1, &hode, 1, "ola", 0, 1);
    assert_eq!(r.unwrap_err(), PosteringFeil::UkjentKonto { linje: 2 });
}

#[test]
fn godtatt_postering_gir_hashgrunnlaget() {
    let hode = KjedeHode { last_seq: 3, last_hash: vec![1u8; 32] };
    let ok = vec![oppslag(Some(None)), oppslag(Some(None))];
    let g = planlegg_postering(&husleie(), Some(d(2025, 2, 28)), &ok, 9, &hode, 4, "kari", 17, 1).unwrap();
    assert_eq!(g.chain_seq, 4);
    assert_eq!(g.fiscal_year, 2025);
    assert_eq!(g.voucher_number, 4);
    assert_eq!(g.company_id, 9);
    assert_eq!(g.created_by, "kari");
    assert_eq!(g.entries.len(), 2);
    assert_eq!(g.entries[1].line_no, 2);
    assert_eq!(g.entries[1].account_number, "1920");
}
