use resize_proxy::query::{parse_param, parse_positive, parse_query, query_value, requested_dimension};

#[test]
fn query_value_finds_the_first_binding() {
    assert_eq!(query_value("width=400", "width"), Some(String::from("400")));
    assert_eq!(query_value("w=1&w=2", "w"), Some(String::from("1")));
    assert_eq!(query_value("foo=bar&h=10", "h"), Some(String::from("10")));
    assert_eq!(query_value("h=", "h"), Some(String::new()));
    assert_eq!(parse_query("h="), (None, None));
    assert_eq!(query_value("width", "width"), None);
    assert_eq!(query_value("widthx=4", "width"), None);
    assert_eq!(query_value("w=400", "width"), None);
    assert_eq!(query_value("", "w"), None);
}

#[test]
fn parse_query_resolves_both_dimensions() {
    assert_eq!(parse_query("width=400"), (Some(400), None));
    assert_eq!(parse_query("w=400&h=300"), (Some(400), Some(300)));
    assert_eq!(parse_query(""), (None, None));
    assert_eq!(parse_query("foo=bar"), (None, None));
}

#[test]
fn parse_query_prefers_the_long_names() {
    assert_eq!(parse_query("width=400&w=200&height=9&h=1"), (Some(400), Some(9)));
    assert_eq!(parse_query("w=200&width=400"), (Some(400), None));
}

#[test]
fn parse_query_treats_bad_values_as_absent() {
    assert_eq!(parse_query("width=abc&w=7"), (Some(7), None));
    assert_eq!(parse_query("width=0&height=4294967296"), (None, None));
}

#[test]
fn plain_decimal_parses() {
    assert_eq!(parse_positive("400"), Some(400));
    assert_eq!(parse_positive("1"), Some(1));
    assert_eq!(parse_positive("4294967295"), Some(u32::MAX));
}

#[test]
fn leading_zeros_are_accepted() {
    assert_eq!(parse_positive("007"), Some(7));
}

#[test]
fn zero_is_not_a_valid_dimension() {
    assert_eq!(parse_positive("0"), None);
    assert_eq!(parse_positive("000"), None);
}

#[test]
fn non_numerals_are_rejected() {
    assert_eq!(parse_positive(""), None);
    assert_eq!(parse_positive("abc"), None);
    assert_eq!(parse_positive("12x"), None);
    assert_eq!(parse_positive("-4"), None);
    assert_eq!(parse_positive("+4"), None);
    assert_eq!(parse_positive("4.5"), None);
}

#[test]
fn values_beyond_u32_are_rejected() {
    assert_eq!(parse_positive("4294967296"), None);
    assert_eq!(parse_positive("99999999999999999999"), None);
}

#[test]
fn absent_parameter_is_nothing() {
    assert_eq!(parse_param(&None), None);
    assert_eq!(parse_param(&Some(String::from("32"))), Some(32));
}

#[test]
fn long_name_wins_over_short_alias() {
    assert_eq!(requested_dimension(Some(1), Some(2)), Some(1));
    assert_eq!(requested_dimension(None, Some(2)), Some(2));
    assert_eq!(requested_dimension(Some(1), None), Some(1));
    assert_eq!(requested_dimension(None, None), None);
}
