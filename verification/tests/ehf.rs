use regnmed_db::ehf::split_adresse;

#[test]
fn the_address_is_split_when_its_shape_is_recognisable() {
    assert_eq!(
        split_adresse(Some("Storgata 1, 0155 Oslo".into())),
        (
            Some("Storgata 1".into()),
            Some("0155".into()),
            Some("Oslo".into())
        )
    );
    // Unknown shape: the whole address goes out as the street line, never misfiled.
    assert_eq!(
        split_adresse(Some("Postboks 42 Sentrum".into())),
        (Some("Postboks 42 Sentrum".into()), None, None)
    );
    assert_eq!(
        split_adresse(Some("Storgata 1, Oslo".into())),
        (Some("Storgata 1, Oslo".into()), None, None)
    );
    assert_eq!(split_adresse(None), (None, None, None));
}

#[test]
fn a_four_character_rest_without_a_space_is_not_a_postnr() {
    assert_eq!(
        split_adresse(Some("Gate 2, 0155".into())),
        (Some("Gate 2, 0155".into()), None, None)
    );
}

#[test]
fn surrounding_whitespace_is_trimmed_from_every_part() {
    assert_eq!(
        split_adresse(Some("  Kongens gate 5 ,  7011   Trondheim  ".into())),
        (
            Some("Kongens gate 5".into()),
            Some("7011".into()),
            Some("Trondheim".into())
        )
    );
    assert_eq!(split_adresse(Some("   ".into())), (None, None, None));
}
