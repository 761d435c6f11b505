use piebot::guilds::parse_guild_ids;
use piebot::text::{chars_of, parse_u64};

fn std_ids(text: &str) -> Option<Vec<u64>> {
    text.lines()
        .map(|l| l.parse::<u64>().ok().filter(|v| *v != 0))
        .collect()
}

#[test]
fn guild_file_is_read_line_by_line() {
    assert_eq!(parse_guild_ids("123\n456\n"), Some(vec![123, 456]));
    assert_eq!(parse_guild_ids("123\r\n456"), Some(vec![123, 456]));
    assert_eq!(parse_guild_ids(""), Some(vec![]));
    assert_eq!(parse_guild_ids("123\n\n456"), None);
    assert_eq!(parse_guild_ids("0"), None);
    assert_eq!(parse_guild_ids("12x"), None);
}

#[test]
fn guild_file_agrees_with_std_lines() {
    let cases = [
        "", "\n", "1", "1\n", "1\n2", "1\r\n2\r\n", "1\r", "1\r\r\n", "\n\n", "a\rb\n", "7\n\r\n", "18446744073709551615",
        "18446744073709551616", "+5\n6", " 5",
    ];
    for c in cases {
        assert_eq!(parse_guild_ids(c), std_ids(c), "input {c:?}");
    }
}

#[test]
fn parse_u64_matches_std() {
    for c in ["", "0", "18446744073709551615", "18446744073709551616", "+1", "-1", "007", "1 "] {
        assert_eq!(parse_u64(&chars_of(c)), c.parse::<u64>().ok(), "input {c:?}");
    }
}
