use regnmed_db::dato::{Dato, antall_dager, dager_mellom, dagnr, dato_fra, dato_tekst, forrige_dag, fra_dagnr, pluss_dager};
use regnmed_db::ledger::{KjedeFeil, KjedeHode, KjedeRad, kontroller_kjede, neste_kjedeledd, none_if_empty, sjekk_periodelas, to_hash32};
use regnmed_db::reskontro::{MatchFeil, first_party_no, sjekk_match};
use regnmed_db::tekst::{antall_tekst, heltall_tekst};

fn d(ar: i32, maned: u32, dag: u32) -> Dato {
    Dato { ar, maned, dag }
}

fn hash(b: u8) -> Vec<u8> {
    vec![b; 32]
}

#[test]
fn posting_keeps_the_chain_valid_and_a_changed_voucher_is_detected() {
    let genesis = hash(0);
    let mut hode = KjedeHode { last_seq: 0, last_hash: genesis.clone() };
    let mut rader = Vec::new();
    for i in 1..=3u8 {
        let (rad, ny) = neste_kjedeledd(&hode, i as u128, &hash(i)).unwrap();
        assert_eq!(rad.chain_seq, i as i64);
        rader.push(rad);
        hode = ny;
    }
    assert_eq!(kontroller_kjede(&rader, &genesis, &hode).unwrap().vouchers_checked, 3);

    let mut endret = rader.clone();
    endret[1].beregnet = hash(99);
    assert_eq!(
        kontroller_kjede(&endret, &genesis, &hode).err(),
        Some(KjedeFeil::Endret { indeks: 1, chain_seq: 2, id: 2 })
    );

    let mut brutt = rader.clone();
    brutt[2].prev_hash = hash(7);
    assert_eq!(
        kontroller_kjede(&brutt, &genesis, &hode).err(),
        Some(KjedeFeil::Brutt { indeks: 2, chain_seq: 3, id: 3 })
    );

    let feil_hode = KjedeHode { last_seq: 2, last_hash: hash(3) };
    assert_eq!(
        kontroller_kjede(&rader, &genesis, &feil_hode).err(),
        Some(KjedeFeil::HodeSeq { last_seq: 2, antall: 3 })
    );
    assert_eq!(
        neste_kjedeledd(&KjedeHode { last_seq: 0, last_hash: vec![1, 2] }, 1, &hash(1)).err(),
        Some(KjedeFeil::UgyldigHodeHash)
    );
}

#[test]
fn an_empty_chain_with_a_genesis_head_is_valid() {
    let genesis = hash(0);
    let rader: Vec<KjedeRad> = Vec::new();
    let hode = KjedeHode { last_seq: 0, last_hash: genesis.clone() };
    assert_eq!(kontroller_kjede(&rader, &genesis, &hode).unwrap().vouchers_checked, 0);
}

#[test]
fn small_helpers_of_the_posting_path() {
    assert_eq!(to_hash32(hash(5)), Some([5u8; 32]));
    assert_eq!(to_hash32(vec![1, 2, 3]), None);
    assert_eq!(none_if_empty(&Some(String::new())), None);
    assert_eq!(none_if_empty(&Some("x".to_string())), Some("x".to_string()));
    assert_eq!(sjekk_periodelas(Some(d(2025, 3, 31)), d(2025, 3, 31)), Err(d(2025, 3, 31)));
    assert_eq!(sjekk_periodelas(Some(d(2025, 3, 31)), d(2025, 4, 1)), Ok(()));
    assert_eq!(sjekk_periodelas(None, d(2000, 1, 1)), Ok(()));
    assert_eq!(first_party_no("kunde"), 10_000);
    assert_eq!(first_party_no("leverandor"), 50_000);
}

#[test]
fn a_match_never_takes_more_than_is_open_on_either_side() {
    assert_eq!(sjekk_match(1_000, true, Some(1_000), Some(-1_000)), Ok(()));
    assert_eq!(sjekk_match(0, true, Some(1_000), Some(-1_000)), Err(MatchFeil::IkkePositiv));
    assert_eq!(sjekk_match(100, false, Some(1_000), Some(-1_000)), Err(MatchFeil::UlikPart));
    assert_eq!(sjekk_match(100, true, None, Some(-1_000)), Err(MatchFeil::UkjentA));
    assert_eq!(sjekk_match(100, true, Some(50), Some(-1_000)), Err(MatchFeil::ForLiteApentA { apent: 50 }));
    assert_eq!(sjekk_match(100, true, Some(500), Some(-60)), Err(MatchFeil::ForLiteApentB { apent: 60 }));
}

#[test]
fn dates_print_and_move_as_chrono_does() {
    assert_eq!(dato_tekst(d(2025, 2, 3)), "2025-02-03");
    assert_eq!(dato_tekst(d(987, 12, 31)), "0987-12-31");
    assert_eq!(pluss_dager(d(2024, 2, 28), 1), Some(d(2024, 2, 29)));
    assert_eq!(pluss_dager(d(2025, 2, 28), 1), Some(d(2025, 3, 1)));
    assert_eq!(pluss_dager(d(2025, 1, 1), -1), Some(d(2024, 12, 31)));
    assert_eq!(dager_mellom(d(2024, 1, 1), d(2025, 1, 1)), 366);
    assert_eq!(forrige_dag(d(2025, 3, 1)), Some(d(2025, 2, 28)));
    assert_eq!(antall_dager(2100, 2), 28);
    assert_eq!(antall_dager(2000, 2), 29);
    assert_eq!(dato_fra(2025, 2, 29), None);
    assert_eq!(heltall_tekst(-405), "-405");
    assert_eq!(antall_tekst(0), "0");
}

#[test]
fn day_numbers_count_from_the_first_of_january_of_year_one() {
    assert_eq!(dagnr(d(1, 1, 1)), 1);
    assert_eq!(dagnr(d(1970, 1, 1)), 719_163);
    assert_eq!(dagnr(d(2000, 3, 1)), 730_180);
    assert_eq!(dagnr(d(2024, 1, 1)), 738_886);
    assert_eq!(dagnr(d(0, 1, 1)), -365);
    assert_eq!(dagnr(d(-262143, 1, 1)), -95_746_129);
    assert_eq!(fra_dagnr(738_886), Some(d(2024, 1, 1)));
    assert_eq!(fra_dagnr(-95_746_130), None);
}
