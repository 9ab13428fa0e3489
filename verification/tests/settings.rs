use image_resize::config::{
    age_setting, development_setting, mount_path_setting, origins_setting, port_setting,
    DEFAULT_MAX_AGE, DEFAULT_S_MAX_AGE,
};
use image_resize::text::{parse_u32, split};

#[test]
fn default_lifetimes() {
    assert_eq!(DEFAULT_MAX_AGE, 60 * 60 * 24);
    assert_eq!(DEFAULT_S_MAX_AGE, 60 * 60 * 24 * 30);
}

#[test]
fn port_must_be_set_and_a_number() {
    assert_eq!(port_setting(None), Err(String::from("PORT must be set")));
    assert_eq!(port_setting(Some("8080")), Ok(8080));
    assert_eq!(port_setting(Some("0")), Ok(0));
    assert_eq!(port_setting(Some("65535")), Ok(65535));
    assert_eq!(port_setting(Some("+80")), Ok(80));
    for raw in ["65536", "", "http", "-1", "80 ", "4294967296"] {
        assert_eq!(port_setting(Some(raw)), Err(String::from("PORT must be a number")));
    }
}

#[test]
fn lifetime_defaults_and_parses() {
    assert_eq!(age_setting("MAX_AGE", None, 86400), Ok(86400));
    assert_eq!(age_setting("MAX_AGE", Some("60"), 86400), Ok(60));
    assert_eq!(age_setting("S_MAX_AGE", Some("4294967295"), 1), Ok(4294967295));
    assert_eq!(
        age_setting("MAX_AGE", Some("4294967296"), 1),
        Err(String::from("MAX_AGE must be a number"))
    );
    assert_eq!(
        age_setting("S_MAX_AGE", Some("1d"), 1),
        Err(String::from("S_MAX_AGE must be a number"))
    );
    assert_eq!(age_setting("MAX_AGE", Some(""), 1), Err(String::from("MAX_AGE must be a number")));
}

#[test]
fn development_is_the_default_environment() {
    assert!(development_setting(None));
    assert!(development_setting(Some("dev")));
    assert!(!development_setting(Some("prod")));
    assert!(!development_setting(Some("")));
    assert!(!development_setting(Some("DEV")));
    assert!(!development_setting(Some("dev ")));
}

#[test]
fn origins_are_cut_at_commas() {
    assert_eq!(
        origins_setting(Some("https://a.example,https://b.example"), false),
        Ok(vec![String::from("https://a.example"), String::from("https://b.example")])
    );
    assert_eq!(origins_setting(Some(""), false), Ok(vec![String::new()]));
    assert_eq!(origins_setting(Some("a,"), true), Ok(vec![String::from("a"), String::new()]));
    assert_eq!(origins_setting(None, true), Ok(Vec::new()));
    assert_eq!(origins_setting(None, false), Err(String::from("ALLOWED_ORIGINS must be set")));
}

#[test]
fn mount_path_defaults_to_empty() {
    assert_eq!(mount_path_setting(None), "");
    assert_eq!(mount_path_setting(Some("/mnt/")), "/mnt/");
}

#[test]
fn split_agrees_with_the_standard_split() {
    for raw in ["", ",", "a", "a,b", ",a", "a,", "a,,b", ",,", "é,ü", "a b, c"] {
        let expected: Vec<String> = raw.split(',').map(|s| s.to_string()).collect();
        assert_eq!(split(raw, ','), expected);
    }
}

#[test]
fn parse_u32_agrees_with_the_standard_parser() {
    for raw in ["", "0", "+0", "-0", "7", "007", "4294967295", "4294967296", "+4294967295", "+",
        "-", "1a", "a1", "٣", "99999999999999999999999"]
    {
        assert_eq!(parse_u32(raw), raw.parse::<u32>().ok());
    }
}
