use gymclub::utils::api_response::ApiResponse;
use gymclub::utils::constants::{parse_port, Config, ConfigError, Setting};
use gymclub::utils::text::{decimal_string, trim, white_space};

fn text(value: &str) -> Option<String> {
    Some(value.to_string())
}

#[test]
fn a_port_is_an_optional_plus_and_digits_up_to_65535() {
    assert_eq!(parse_port("8080"), Some(8080));
    assert_eq!(parse_port("0"), Some(0));
    assert_eq!(parse_port("65535"), Some(65535));
    assert_eq!(parse_port("+443"), Some(443));
    assert_eq!(parse_port("000080"), Some(80));
    assert_eq!(parse_port("65536"), None);
    assert_eq!(parse_port("99999999999999999999"), None);
    assert_eq!(parse_port(""), None);
    assert_eq!(parse_port("+"), None);
    assert_eq!(parse_port("-1"), None);
    assert_eq!(parse_port("80 "), None);
    assert_eq!(parse_port(" 80"), None);
    assert_eq!(parse_port("8o80"), None);
    assert_eq!(parse_port("++80"), None);
    assert_eq!(parse_port("٨٠"), None);
    assert_eq!(parse_port("65536x"), None);
}

#[test]
fn a_port_is_read_as_the_standard_library_reads_it() {
    for sample in ["1", "+1", "65535", "65536", "", "+", "-0", "0x10", "12a", "00000000000000001"] {
        assert_eq!(parse_port(sample), sample.parse::<u16>().ok());
    }
}

#[test]
fn the_settings_need_every_value() {
    assert_eq!(
        Config::load(text("sqlite::memory:"), text("127.0.0.1"), text("8080"), text("key")),
        Ok(Config {
            database_url: "sqlite::memory:".to_string(),
            address: "127.0.0.1".to_string(),
            port: 8080,
            secret: "key".to_string(),
        })
    );
    assert_eq!(
        Config::load(None, None, None, None),
        Err(ConfigError::Missing(Setting::DatabaseUrl))
    );
    assert_eq!(
        Config::load(text("db"), None, text("x"), None),
        Err(ConfigError::Missing(Setting::Address))
    );
    assert_eq!(
        Config::load(text("db"), text("a"), None, None),
        Err(ConfigError::Missing(Setting::Port))
    );
    assert_eq!(
        Config::load(text("db"), text("a"), text("x"), None),
        Err(ConfigError::Missing(Setting::Secret))
    );
    assert_eq!(
        Config::load(text("db"), text("a"), text("x"), text("key")),
        Err(ConfigError::BadPort)
    );
}

#[test]
fn decimal_of_small_and_extreme_numbers() {
    assert_eq!(decimal_string(0), "0");
    assert_eq!(decimal_string(7), "7");
    assert_eq!(decimal_string(10), "10");
    assert_eq!(decimal_string(-12), "-12");
    assert_eq!(decimal_string(2147483647), "2147483647");
    assert_eq!(decimal_string(-2147483648), "-2147483648");
    assert_eq!(decimal_string(i64::MAX), "9223372036854775807");
    assert_eq!(decimal_string(i64::MIN), "-9223372036854775808");
}

#[test]
fn a_response_is_reported_with_its_body_and_status() {
    let response = ApiResponse::new(404, "User not found".to_string());
    assert_eq!(response.status_code, 404);
    assert_eq!(response.body, "User not found");
    assert_eq!(response.to_text(), "Error: User not found \n Status Code: 404");
    assert_eq!(response.clone(), response);
    assert_eq!(ApiResponse::new(200, String::new()).to_text(), "Error:  \n Status Code: 200");
}

#[test]
fn white_space_is_what_the_standard_library_calls_so() {
    let mut count = 0;
    for code in 0..=0x10FFFF_u32 {
        if let Some(c) = char::from_u32(code) {
            assert_eq!(white_space(c), c.is_whitespace(), "U+{:04X}", code);
            if white_space(c) {
                count += 1;
            }
        }
    }
    assert_eq!(count, 25);
}

#[test]
fn trimming_drops_white_space_at_both_ends_only() {
    assert_eq!(trim(" pw2 "), "pw2");
    assert_eq!(trim("pw2"), "pw2");
    assert_eq!(trim("  a b\tc \n"), "a b\tc");
    assert_eq!(trim(""), "");
    assert_eq!(trim(" \t\r\n"), "");
    assert_eq!(trim("\u{3000}\u{e9}t\u{e9}\u{2028}\u{a0}"), "\u{e9}t\u{e9}");
    assert_eq!(trim("\u{200b}x\u{200b}"), "\u{200b}x\u{200b}");
    assert_eq!(trim("x "), "x");
    assert_eq!(trim(" x"), "x");
}

#[test]
fn trimming_is_as_the_standard_library_trims() {
    for sample in ["", " ", "a", " a", "a ", " a b ", "\n\na\u{85}", "\u{1680}\u{2000}z\u{205f}", "\u{feff}a "] {
        assert_eq!(trim(sample), sample.trim());
    }
}
