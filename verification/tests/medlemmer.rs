use regnmed_db::medlemmer::{MedlemFeil, invitasjonsadresse, krev_tildelbar, normaliser_epost};

#[test]
fn the_email_is_normalised_before_comparison() {
    assert_eq!(normaliser_epost("  Ola@Firma.NO "), "ola@firma.no");
    assert_eq!(normaliser_epost("ola@firma.no"), "ola@firma.no");
}

#[test]
fn revisor_is_not_granted_directly() {
    assert_eq!(krev_tildelbar("revisor"), Err(MedlemFeil::RevisorTildelesIkke));
    assert_eq!(krev_tildelbar("admin"), Ok(()));
}

#[test]
fn an_invitation_needs_an_address_with_an_at_sign_inside() {
    assert_eq!(invitasjonsadresse(" Kari@Eksempel.no"), Ok("kari@eksempel.no".to_string()));
    assert_eq!(
        invitasjonsadresse("@eksempel.no"),
        Err(MedlemFeil::UgyldigEpost { epost: "@eksempel.no".to_string() })
    );
    assert_eq!(
        invitasjonsadresse("kari@"),
        Err(MedlemFeil::UgyldigEpost { epost: "kari@".to_string() })
    );
    assert_eq!(
        invitasjonsadresse("kari"),
        Err(MedlemFeil::UgyldigEpost { epost: "kari".to_string() })
    );
}
