use ini::Ini;
use voidinvestor::config::{
    create_configuration, find_config_key, get_config_key, set_config_key, Credentials,
};

#[test]
fn set_then_get_reads_the_value_back() {
    let mut conf = Ini::new();
    set_config_key(&mut conf, "spacetraders", "token", "abc");
    assert_eq!(get_config_key(&conf, "spacetraders", "token"), "abc");
}

#[test]
fn set_replaces_the_old_value_and_nothing_else() {
    let text = "[spacetraders]\ntoken=old\nurl=https://api.example/v2\n[other]\ntoken=kept\n";
    let mut conf = Ini::load_from_str(text).unwrap();
    set_config_key(&mut conf, "spacetraders", "token", "new");
    assert_eq!(get_config_key(&conf, "spacetraders", "token"), "new");
    assert_eq!(get_config_key(&conf, "spacetraders", "url"), "https://api.example/v2");
    assert_eq!(get_config_key(&conf, "other", "token"), "kept");
}

#[test]
fn set_makes_the_section_where_there_is_none() {
    let mut conf = Ini::load_from_str("[a]\nk=v\n").unwrap();
    set_config_key(&mut conf, "b", "k", "w");
    assert_eq!(get_config_key(&conf, "a", "k"), "v");
    assert_eq!(get_config_key(&conf, "b", "k"), "w");
}

#[test]
fn find_tells_what_is_absent() {
    let conf = Ini::load_from_str("[spacetraders]\ntoken=abc\n").unwrap();
    assert_eq!(find_config_key(&conf, "spacetraders", "token"), Some("abc".to_string()));
    assert_eq!(find_config_key(&conf, "spacetraders", "url"), None);
    assert_eq!(find_config_key(&conf, "nowhere", "token"), None);
    assert_eq!(find_config_key(&conf, "token", "spacetraders"), None);
}

#[test]
fn first_section_and_first_value_are_read() {
    let conf = Ini::load_from_str("[s]\nk=1\n[t]\nk=2\n[s]\nk=3\nj=4\n").unwrap();
    assert_eq!(find_config_key(&conf, "s", "k"), Some("1".to_string()));
    assert_eq!(find_config_key(&conf, "t", "k"), Some("2".to_string()));
}

#[test]
fn credentials_need_token_and_address() {
    let text = "[spacetraders]\ntoken=abc\nurl=https://api.example/v2\n";
    let conf = Ini::load_from_str(text).unwrap();
    assert_eq!(
        create_configuration(&conf),
        Some(Credentials { token: "abc".to_string(), url: "https://api.example/v2".to_string() })
    );
    let conf = Ini::load_from_str("[spacetraders]\ntoken=abc\n").unwrap();
    assert_eq!(create_configuration(&conf), None);
    let conf = Ini::load_from_str("[spacetraders]\nurl=u\n").unwrap();
    assert_eq!(create_configuration(&conf), None);
    assert_eq!(create_configuration(&Ini::new()), None);
}

#[test]
fn new_token_keeps_the_address() {
    let mut conf = Ini::load_from_str("[spacetraders]\ntoken=old\nurl=u\n").unwrap();
    set_config_key(&mut conf, "spacetraders", "token", "new");
    assert_eq!(
        create_configuration(&conf),
        Some(Credentials { token: "new".to_string(), url: "u".to_string() })
    );
}
