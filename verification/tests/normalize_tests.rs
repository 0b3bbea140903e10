use oui_lookup::errors::OuiError;
use oui_lookup::normalize::parse_mac;

#[test]
fn colon_separated_uppercase() {
    assert_eq!(parse_mac("AA:BB:CC:DD:EE:FF"), Ok(String::from("AABBCC")));
}

#[test]
fn hyphen_separated_lowercase() {
    assert_eq!(parse_mac("aa-bb-cc-dd-ee-ff"), Ok(String::from("AABBCC")));
}

#[test]
fn dot_separated() {
    assert_eq!(parse_mac("aabb.ccdd.eeff"), Ok(String::from("AABBCC")));
}

#[test]
fn space_separated() {
    assert_eq!(parse_mac("aa bb cc dd ee ff"), Ok(String::from("AABBCC")));
}

#[test]
fn no_separators() {
    assert_eq!(parse_mac("aabbccddeeff"), Ok(String::from("AABBCC")));
}

#[test]
fn mixed_separators() {
    assert_eq!(parse_mac("aa:bb-cc.dd ee:ff"), Ok(String::from("AABBCC")));
}

#[test]
fn length_eleven_rejected() {
    assert_eq!(parse_mac("aabbccddeef"), Err(OuiError::InvalidLength));
}

#[test]
fn length_eighteen_rejected() {
    assert_eq!(parse_mac("AA:BB:CC:DD:EE:FF:"), Err(OuiError::InvalidLength));
}

#[test]
fn empty_rejected() {
    assert_eq!(parse_mac(""), Err(OuiError::InvalidLength));
}

#[test]
fn non_hex_characters_accepted() {
    assert_eq!(parse_mac("gg:hh:ii:jj:kk:ll"), Ok(String::from("GGHHII")));
}

#[test]
fn renormalizing_extracted_oui_is_stable() {
    let oui = parse_mac("aa-bb-cc-dd-ee-ff").unwrap();
    // Feed the OUI back through normalization, padded to a full
    // twelve-character address: the extracted prefix is unchanged.
    let padded = format!("{}{}", oui, oui);
    assert_eq!(parse_mac(&padded), Ok(oui));
}
