use auction_bot::config::parse_admins;
use auction_bot::config::Config;
use auction_bot::context::AppContext;

#[test]
fn parses_valid_admins() {
    let admins = parse_admins("1, 2 ,3");
    assert_eq!(admins, vec![1, 2, 3]);
}

#[test]
fn skips_invalid_entries() {
    let admins = parse_admins("42,abc,  7");
    assert_eq!(admins, vec![42, 7]);
}

#[test]
fn empty_input_yields_empty_list() {
    let admins = parse_admins("");
    assert!(admins.is_empty());
}

#[test]
fn admin_lists_keep_order_signs_and_repeats() {
    assert_eq!(parse_admins(",,1,,"), vec![1]);
    assert_eq!(parse_admins("-5,+6, 7 ,7"), vec![-5, 6, 7, 7]);
    assert_eq!(parse_admins("1;2"), Vec::<i64>::new());
    assert_eq!(parse_admins("9223372036854775808,3"), vec![3]);
    assert_eq!(parse_admins(" 12 "), vec![12]);
    assert_eq!(parse_admins("1 2,3"), vec![3]);
}

#[test]
fn config_holds_what_it_is_given() {
    let config = Config {
        bot_token: "token".to_string(),
        database_url: "postgres://localhost/auction".to_string(),
        admins: parse_admins("10,20"),
    };
    assert_eq!(config.admins, vec![10, 20]);
    assert_eq!(config.clone().bot_token, "token");
}

#[test]
fn admins_are_exactly_those_listed() {
    let ctx = AppContext::new(vec![1, 5, 5, -3]);
    assert!(ctx.is_admin(1));
    assert!(ctx.is_admin(5));
    assert!(ctx.is_admin(-3));
    assert!(!ctx.is_admin(2));
    assert!(!ctx.is_admin(0));
    let nobody = AppContext::new(Vec::new());
    assert!(!nobody.is_admin(1));
}
