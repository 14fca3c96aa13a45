use auction_bot::money::format_cents;
use auction_bot::money::parse_money_to_cents;
use auction_bot::money::parse_trimmed_money;
use auction_bot::money::MoneyError;

#[test]
fn parses_valid_amounts() {
    assert_eq!(parse_money_to_cents("10"), Ok(1000));
    assert_eq!(parse_money_to_cents("10.5"), Ok(1050));
    assert_eq!(parse_money_to_cents("10.55"), Ok(1055));
}

#[test]
fn rejects_invalid_formats() {
    assert_eq!(parse_money_to_cents("abc"), Err(MoneyError::InvalidFormat));
    assert_eq!(parse_money_to_cents("10.555"), Err(MoneyError::InvalidFormat));
}

#[test]
fn formats_currency() {
    assert_eq!(format_cents(1234), "AED 12.34");
}

#[test]
fn rejects_empty_and_blank_amounts() {
    assert_eq!(parse_money_to_cents(""), Err(MoneyError::InvalidFormat));
    assert_eq!(parse_money_to_cents("   "), Err(MoneyError::InvalidFormat));
    assert_eq!(parse_money_to_cents("\t\n"), Err(MoneyError::InvalidFormat));
}

#[test]
fn ignores_white_space_around_an_amount() {
    assert_eq!(parse_money_to_cents("  10.5 "), Ok(1050));
    assert_eq!(parse_money_to_cents("\u{a0}7\u{3000}"), Ok(700));
    assert_eq!(parse_money_to_cents("1 0"), Err(MoneyError::InvalidFormat));
}

#[test]
fn trimmed_parser_does_not_trim() {
    assert_eq!(parse_trimmed_money("10"), Ok(1000));
    assert_eq!(parse_trimmed_money(" 10"), Err(MoneyError::InvalidFormat));
    assert_eq!(parse_trimmed_money("10 "), Err(MoneyError::InvalidFormat));
}

#[test]
fn rejects_malformed_amounts() {
    for text in [".5", "5.", "1.2.3", "-1", "+1", "1,5", "1e3", "0x10", "٣", "1.٣", "10.5a", "a10"] {
        assert_eq!(parse_money_to_cents(text), Err(MoneyError::InvalidFormat), "{}", text);
    }
}

#[test]
fn reads_zero_and_leading_zeros() {
    assert_eq!(parse_money_to_cents("0"), Ok(0));
    assert_eq!(parse_money_to_cents("0.0"), Ok(0));
    assert_eq!(parse_money_to_cents("0.05"), Ok(5));
    assert_eq!(parse_money_to_cents("0.5"), Ok(50));
    assert_eq!(parse_money_to_cents("007.07"), Ok(707));
    assert_eq!(parse_money_to_cents("000000000000000000000000000001"), Ok(100));
}

#[test]
fn reads_the_largest_amount_and_refuses_the_next() {
    assert_eq!(parse_money_to_cents("92233720368547758.07"), Ok(i64::MAX));
    assert_eq!(parse_money_to_cents("92233720368547758.08"), Err(MoneyError::OutOfRange));
    assert_eq!(parse_money_to_cents("92233720368547758.1"), Err(MoneyError::OutOfRange));
    assert_eq!(parse_money_to_cents("92233720368547758"), Ok(9223372036854775800));
    assert_eq!(parse_money_to_cents("92233720368547759"), Err(MoneyError::OutOfRange));
    assert_eq!(
        parse_money_to_cents("99999999999999999999999999999999"),
        Err(MoneyError::OutOfRange)
    );
}

#[test]
fn formats_small_negative_and_extreme_amounts() {
    assert_eq!(format_cents(0), "AED 0.00");
    assert_eq!(format_cents(5), "AED 0.05");
    assert_eq!(format_cents(50), "AED 0.50");
    assert_eq!(format_cents(100), "AED 1.00");
    assert_eq!(format_cents(7500), "AED 75.00");
    assert_eq!(format_cents(-5), "AED -0.05");
    assert_eq!(format_cents(-1234), "AED -12.34");
    assert_eq!(format_cents(i64::MAX), "AED 92233720368547758.07");
    assert_eq!(format_cents(i64::MIN), "AED -92233720368547758.08");
}

#[test]
fn formatted_amounts_read_back() {
    for cents in [0i64, 1, 9, 10, 99, 100, 101, 5000, 123456789, i64::MAX] {
        let text = format_cents(cents);
        let number = text.strip_prefix("AED ").unwrap();
        assert_eq!(parse_money_to_cents(number), Ok(cents));
    }
}

#[test]
fn money_errors_have_their_sentences() {
    assert_eq!(MoneyError::InvalidFormat.message(), "amount must match 0.00 format");
    assert_eq!(MoneyError::OutOfRange.message(), "amount exceeds supported range");
}

fn texts_over(alphabet: &[char], longest: usize) -> Vec<String> {
    let mut all = vec![String::new()];
    let mut last = vec![String::new()];
    for _ in 0..longest {
        let mut next = Vec::new();
        for text in &last {
            for c in alphabet {
                let mut longer = text.clone();
                longer.push(*c);
                next.push(longer);
            }
        }
        all.extend(next.iter().cloned());
        last = next;
    }
    all
}

#[test]
fn the_price_pattern_and_the_parser_agree() {
    let pattern = regex::Regex::new(r"^\d+(?:\.\d{1,2})?$").unwrap();
    let alphabet = ['0', '1', '7', '9', '.', ' ', 'a', '-'];
    for text in texts_over(&alphabet, 5) {
        let parsed = parse_money_to_cents(&text);
        let trimmed = text.trim();
        assert_eq!(
            pattern.is_match(trimmed),
            parsed != Err(MoneyError::InvalidFormat),
            "{:?}",
            text
        );
        if let Ok(cents) = parsed {
            let (major, minor) = match trimmed.split_once('.') {
                Some((major, minor)) => (major, minor),
                None => (trimmed, ""),
            };
            let major: i64 = major.parse().unwrap();
            let minor: i64 = match minor.len() {
                0 => 0,
                1 => minor.parse::<i64>().unwrap() * 10,
                _ => minor.parse().unwrap(),
            };
            assert_eq!(cents, major * 100 + minor, "{:?}", text);
        }
    }
}
