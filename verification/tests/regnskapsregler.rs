use regnmed_db::abonnement::kortbilag;
use regnmed_db::aksjebok::{AksjeFeil, andeler, utbytte};
use regnmed_db::arsavslutning::{ArsFeil, arsavslutning};
use regnmed_db::asset::{AnleggFeil, avhending, avskrivningsbilag};
use regnmed_db::bilag::{er_balansert, sum_av};
use regnmed_db::dato::Dato;
use regnmed_db::invoice::nok_ore;
use regnmed_db::product::{TellingKonti, tellingsbilag};
use regnmed_db::regnskap::{BokforingLine, BokforingRad, bokforingsspesifikasjon};
use regnmed_db::saft_import::{ImportAccount, ImportFeil, SaftFil, apningsbilag};

fn d(ar: i32, maned: u32, dag: u32) -> Dato {
    Dato { ar, maned, dag }
}

#[test]
fn ownership_shares_never_exceed_the_whole() {
    let a = andeler(&vec![1, 1, 1]);
    assert_eq!(a, vec![3333, 3333, 3333]);
    assert!(a.iter().sum::<i64>() <= 10_000);
    assert_eq!(andeler(&vec![3, 1]), vec![7500, 2500]);
    assert_eq!(andeler(&vec![0, 0]), vec![0, 0]);
}

#[test]
fn a_dividend_voucher_balances() {
    let (totalt, v) = utbytte(d(2025, 6, 20), 150, 1_000).unwrap();
    assert_eq!(totalt, 150_000);
    assert!(er_balansert(&v));
    assert_eq!(v.entries[0].account_number, "2050");
    assert_eq!(utbytte(d(2025, 6, 20), 0, 1_000).err(), Some(AksjeFeil::IkkePositivtUtbytte));
    assert_eq!(utbytte(d(2025, 6, 20), 10, 0).err(), Some(AksjeFeil::TomAksjeeierbok));
}

#[test]
fn the_year_end_voucher_disposes_of_the_result_after_tax() {
    let (disponert, v) = arsavslutning(2024, 22_000, 100_000, false, None).unwrap();
    assert_eq!(disponert, 78_000);
    assert!(er_balansert(&v));
    assert_eq!(v.voucher_date, d(2024, 12, 31));
    assert_eq!(v.description, "Årsavslutning 2024");
    let (tap, v2) = arsavslutning(2024, 0, -40_000, false, None).unwrap();
    assert_eq!(tap, -40_000);
    assert!(er_balansert(&v2));
    assert_eq!(arsavslutning(2024, -1, 0, false, None).err(), Some(ArsFeil::NegativSkatt));
    assert_eq!(arsavslutning(2024, 0, 5, true, None).err(), Some(ArsFeil::AlleredeAvsluttet));
    assert_eq!(
        arsavslutning(2024, 0, 5, false, Some(d(2024, 12, 31))).err(),
        Some(ArsFeil::Last { las: d(2024, 12, 31) })
    );
    assert_eq!(arsavslutning(2024, 0, 0, false, None).err(), Some(ArsFeil::IngentingADisponere));
}

#[test]
fn a_card_payment_voucher_moves_the_gross_to_the_clearing_account() {
    let v = kortbilag("Kortbetaling faktura 12".to_string(), d(2025, 1, 5), 29_900, "10001");
    assert!(er_balansert(&v));
    assert_eq!(v.entries[0].account_number, "1570");
    assert_eq!(v.entries[1].account_number, "1500");
    assert_eq!(v.entries[1].amount_ore, -29_900);
    assert_eq!(v.entries[1].party_no.as_deref(), Some("10001"));
}

#[test]
fn depreciation_and_disposal_vouchers_balance() {
    let v = avskrivningsbilag("Varebil", d(2025, 3, 1), 3, 60, 10_000, "6010", "1230");
    assert!(er_balansert(&v));
    assert_eq!(sum_av(&v.entries), 0);
    let (bokfort, gevinst, b) =
        avhending("Varebil", d(2025, 6, 30), 600_000, 250_000, false, 400_000, "1920", "1230", "3800", "7800").unwrap();
    assert_eq!(bokfort, 350_000);
    assert_eq!(gevinst, 50_000);
    assert!(er_balansert(&b.unwrap()));
    assert_eq!(
        avhending("Varebil", d(2025, 6, 30), 600_000, 250_000, false, -1, "1920", "1230", "3800", "7800").err(),
        Some(AnleggFeil::NegativtVederlag)
    );
    assert_eq!(
        avhending("Varebil", d(2025, 6, 30), 600_000, 250_000, true, 0, "1920", "1230", "3800", "7800").err(),
        Some(AnleggFeil::AlleredeAvhendet)
    );
}

#[test]
fn a_stock_count_posts_only_a_difference() {
    let konti = TellingKonti {
        journal_code: "GL".to_string(),
        lager_konto: "1460".to_string(),
        endring_konto: "4290".to_string(),
    };
    assert!(tellingsbilag(d(2025, 12, 31), &konti, 5_000, 5_000).is_none());
    let v = tellingsbilag(d(2025, 12, 31), &konti, 4_000, 5_000).unwrap();
    assert!(er_balansert(&v));
    assert_eq!(v.entries[0].amount_ore, -1_000);
    assert_eq!(v.description, "Varetelling 2025-12-31");
}

#[test]
fn foreign_amounts_convert_to_ore_rounding_half_away_from_zero() {
    assert_eq!(nok_ore(10_000, 11_500_000), 115_000);
    assert_eq!(nok_ore(1, 500_000), 1);
    assert_eq!(nok_ore(-1, 500_000), -1);
    assert_eq!(nok_ore(1, 499_999), 0);
}

fn rad(seq: i64, nr: i64, line_no: i32, konto: &str, belop: i64) -> BokforingRad {
    BokforingRad {
        chain_seq: seq,
        journal_code: "GL".to_string(),
        fiscal_year: 2025,
        voucher_number: nr,
        voucher_date: d(2025, 1, 1),
        voucher_description: format!("Bilag {nr}"),
        line: BokforingLine {
            line_no,
            account_number: konto.to_string(),
            account_name: "Konto".to_string(),
            amount_ore: belop,
            vat_code: None,
            description: None,
            party_no: None,
        },
    }
}

#[test]
fn the_posting_specification_gathers_each_voucher_with_all_its_lines() {
    let rader = vec![
        rad(1, 1, 1, "1920", 100),
        rad(1, 1, 2, "3000", -100),
        rad(2, 2, 1, "6800", 50),
        rad(2, 2, 2, "2400", -50),
        rad(3, 3, 1, "1920", 7),
    ];
    let v = bokforingsspesifikasjon(&rader);
    assert_eq!(v.len(), 3);
    assert_eq!(v[0].description, "Bilag 1");
    assert_eq!(v[0].lines.len(), 2);
    assert_eq!(v[1].voucher_number, 2);
    assert_eq!(v[1].lines[1].account_number, "2400");
    assert_eq!(v[2].lines.len(), 1);
    assert!(bokforingsspesifikasjon(&vec![]).is_empty());
}

fn konto(id: &str, opening: i64) -> ImportAccount {
    ImportAccount { account_id: id.to_string(), name: "Konto".to_string(), opening_ore: opening }
}

#[test]
fn the_saft_opening_voucher_balances_and_is_dated_the_day_before() {
    let fil = SaftFil {
        selection_start: Some(d(2025, 1, 1)),
        accounts: vec![konto("1920", 50_000), konto("3000", 0), konto("2050", -50_000)],
        customers: vec![],
        suppliers: vec![],
        transactions: vec![],
    };
    let v = apningsbilag(&fil).unwrap().unwrap();
    assert!(er_balansert(&v));
    assert_eq!(v.voucher_date, d(2024, 12, 31));
    assert_eq!(v.entries.len(), 2);
    assert_eq!(v.journal_code, "IMP");
    let skjev = SaftFil { accounts: vec![konto("1920", 50_000), konto("2050", -40_000)], ..fil };
    assert!(matches!(apningsbilag(&skjev), Err(ImportFeil::ApningIkkeNull { sum: 10_000 })));
}
