use oui_lookup::cli::mac_argument;
use oui_lookup::config::get_csv_path;
use oui_lookup::errors::OuiError;

#[test]
fn one_positional_argument_accepted() {
    let args = vec![String::from("oui"), String::from("AA:BB:CC:DD:EE:FF")];
    assert_eq!(mac_argument(&args), Ok(&args[1]));
}

#[test]
fn zero_positional_arguments_rejected() {
    let args = vec![String::from("oui")];
    assert_eq!(mac_argument(&args), Err(OuiError::UsageError));
}

#[test]
fn two_positional_arguments_rejected() {
    let args = vec![
        String::from("oui"),
        String::from("AA:BB:CC:DD:EE:FF"),
        String::from("extra"),
    ];
    assert_eq!(mac_argument(&args), Err(OuiError::UsageError));
}

#[test]
fn csv_path_under_home() {
    let home = String::from("/home/user");
    assert_eq!(
        get_csv_path(Some(&home)),
        Ok(String::from("/home/user/.local/share/oui/IEEE_OUI.csv"))
    );
}

#[test]
fn csv_path_without_home_fails() {
    assert_eq!(get_csv_path(None), Err(OuiError::EnvError));
}

#[test]
fn each_error_has_a_message() {
    assert_eq!(OuiError::UsageError.message(), "OUI takes a single argument.");
    assert_eq!(OuiError::InvalidLength.message(), "Invalid MAC Address.");
    assert_eq!(
        OuiError::TableUnavailable.message(),
        "The OUI table could not be opened."
    );
    assert_eq!(
        OuiError::ParseError.message(),
        "The OUI table holds a malformed row."
    );
    assert_eq!(OuiError::EnvError.message(), "HOME is not set.");
}

#[test]
fn full_pipeline_from_raw_mac_to_vendor() {
    let args = vec![String::from("oui"), String::from("aa-bb-cc-dd-ee-ff")];
    let raw = mac_argument(&args).unwrap();
    let oui = oui_lookup::normalize::parse_mac(raw).unwrap();
    let table = "112233;First Vendor\nAABBCC;Acme Corp";
    let outcome = oui_lookup::lookup::lookup_vendor(Some(table), &oui).unwrap();
    assert_eq!(
        oui_lookup::lookup::outcome_line(&outcome),
        "Acme Corp"
    );
}
