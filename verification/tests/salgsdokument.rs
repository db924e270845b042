use regnmed_db::dato::Dato;
use regnmed_db::salgsdokument::{
    Dokumenttype, SalgsFeil, SalgsLineDraft, dokumenttype, foretaksregistrert, ny_salgsdokument,
    ordrefaktura, pdf_filnavn, sjekk_til_faktura, sjekk_til_ordre, sjekk_tilbudsendring,
    tilbud_editable, tilbudsovergang,
};

#[test]
fn a_tilbud_is_editable_only_as_draft_or_sent() {
    assert!(tilbud_editable("utkast"));
    assert!(tilbud_editable("sendt"));
    assert!(!tilbud_editable("akseptert"));
    assert!(!tilbud_editable("avslatt"));
    assert!(!tilbud_editable("Utkast"));
}

#[test]
fn a_new_document_starts_as_draft_or_confirmed() {
    assert_eq!(ny_salgsdokument("tilbud", 1), Ok("utkast".to_string()));
    assert_eq!(ny_salgsdokument("ordre", 2), Ok("bekreftet".to_string()));
    assert_eq!(ny_salgsdokument("faktura", 1), Err(SalgsFeil::UkjentType));
    assert_eq!(ny_salgsdokument("tilbud", 0), Err(SalgsFeil::IngenLinjer));
}

#[test]
fn an_accepted_tilbud_can_no_longer_be_edited() {
    assert_eq!(sjekk_tilbudsendring("sendt", None), Ok(()));
    assert_eq!(sjekk_tilbudsendring("utkast", Some(0)), Err(SalgsFeil::IngenLinjer));
    assert_eq!(sjekk_tilbudsendring("akseptert", Some(3)), Err(SalgsFeil::IkkeRedigerbar));
}

#[test]
fn tilbud_status_only_moves_forward() {
    assert_eq!(tilbudsovergang("utkast", "sendt"), Ok(()));
    assert_eq!(tilbudsovergang("utkast", "akseptert"), Ok(()));
    assert_eq!(tilbudsovergang("sendt", "avslatt"), Ok(()));
    assert_eq!(tilbudsovergang("sendt", "sendt"), Err(SalgsFeil::UlovligOvergang));
    assert_eq!(tilbudsovergang("akseptert", "avslatt"), Err(SalgsFeil::UlovligOvergang));
    assert_eq!(tilbudsovergang("avslatt", "sendt"), Err(SalgsFeil::UlovligOvergang));
    assert_eq!(tilbudsovergang("sendt", "utkast"), Err(SalgsFeil::UkjentStatus));
}

#[test]
fn only_an_accepted_tilbud_becomes_an_ordre_and_only_a_confirmed_ordre_is_invoiced() {
    assert_eq!(sjekk_til_ordre("akseptert"), Ok(()));
    assert_eq!(sjekk_til_ordre("sendt"), Err(SalgsFeil::IkkeAkseptert));
    assert_eq!(sjekk_til_faktura("bekreftet", 2), Ok(()));
    assert_eq!(sjekk_til_faktura("fakturert", 2), Err(SalgsFeil::AlleredeFakturert));
    assert_eq!(sjekk_til_faktura("bekreftet", 0), Err(SalgsFeil::IngenLinjer));
}

#[test]
fn an_ordre_becomes_an_invoice_with_its_lines_unchanged() {
    let d = Dato { ar: 2025, maned: 3, dag: 1 };
    let f = Dato { ar: 2025, maned: 3, dag: 15 };
    let linjer = vec![SalgsLineDraft {
        description: "Konsulenttimer".to_string(),
        account_number: "3000".to_string(),
        quantity_milli: 2500,
        unit_price_ore: 100_000,
        vat_code: Some("3".to_string()),
        avdeling: None,
        prosjekt: Some("P1".to_string()),
    }];
    let inv = ordrefaktura("10001", d, f, &linjer);
    assert_eq!(inv.party_no, "10001");
    assert_eq!(inv.invoice_date, d);
    assert_eq!(inv.due_date, f);
    assert_eq!(inv.delivery_date, d);
    assert_eq!(inv.journal_code, "GL");
    assert_eq!(inv.receivable_account, "1500");
    assert_eq!(inv.vat_account, "2700");
    assert_eq!(inv.lines.len(), 1);
    assert_eq!(inv.lines[0].description, "Konsulenttimer");
    assert_eq!(inv.lines[0].quantity_milli, 2500);
    assert_eq!(inv.lines[0].vat_code.as_deref(), Some("3"));
    assert_eq!(inv.lines[0].prosjekt.as_deref(), Some("P1"));
}

#[test]
fn the_printed_document_is_named_by_kind_and_number() {
    assert_eq!(pdf_filnavn("tilbud", 12), "tilbud-12.pdf");
    assert_eq!(pdf_filnavn("ordre", 7), "ordre-7.pdf");
    assert_eq!(dokumenttype("tilbud"), Dokumenttype::Tilbud);
    assert_eq!(dokumenttype("ordre"), Dokumenttype::Ordrebekreftelse);
    assert!(foretaksregistrert(&Some("AS".to_string())));
    assert!(foretaksregistrert(&Some("ASA".to_string())));
    assert!(!foretaksregistrert(&Some("ENK".to_string())));
    assert!(!foretaksregistrert(&None));
}
