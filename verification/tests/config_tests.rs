use activity_relay::config::{parse_user_ids, Config};
use activity_relay::hex::parse_hex_color;

#[test]
fn parses_simple_id_list() {
    assert_eq!(parse_user_ids("1,2,3"), vec![1, 2, 3]);
}

#[test]
fn single_id_without_comma() {
    assert_eq!(parse_user_ids("424242"), vec![424242]);
}

#[test]
fn invalid_fields_are_dropped() {
    assert_eq!(parse_user_ids("1,x,3"), vec![1, 3]);
}

#[test]
fn empty_string_yields_no_ids() {
    assert_eq!(parse_user_ids(""), Vec::<u32>::new());
}

#[test]
fn empty_fields_are_dropped() {
    assert_eq!(parse_user_ids("1,,2,"), vec![1, 2]);
}

#[test]
fn ids_wider_than_the_identifier_are_dropped() {
    assert_eq!(parse_user_ids("4294967295,4294967296"), vec![4294967295]);
}

#[test]
fn fields_with_spaces_are_dropped() {
    assert_eq!(parse_user_ids(" 1,2 "), vec![]);
}

#[test]
fn config_holds_parsed_ids() {
    let config = Config {
        user_ids: parse_user_ids("11,22"),
        webhook_url: String::from("https://hooks.example/abc"),
    };
    assert_eq!(config.user_ids, vec![11, 22]);
    assert_eq!(config.webhook_url, "https://hooks.example/abc");
}

#[test]
fn hex_color_parses_classic_shapes() {
    assert_eq!(parse_hex_color("#ff0000"), Some(0xff0000));
    assert_eq!(parse_hex_color("#FFFFFF"), Some(0xffffff));
    assert_eq!(parse_hex_color("0"), Some(0));
    assert_eq!(parse_hex_color("#ffffff"), Some(0xffffff));
}

#[test]
fn hex_color_rejects_bad_shapes() {
    assert_eq!(parse_hex_color(""), None);
    assert_eq!(parse_hex_color("#"), None);
    assert_eq!(parse_hex_color("#12345g"), None);
    assert_eq!(parse_hex_color("#1000000"), None);
    assert_eq!(parse_hex_color("-1"), None);
}

#[test]
fn hex_color_allows_leading_zeros() {
    assert_eq!(parse_hex_color("#0000001"), Some(1));
}
