//! The settings that the service starts with.

use vstd::prelude::*;

verus! {

/// What the service needs to know before it serves: where the store is,
/// where to listen, and the key that tokens are signed with.
#[derive(Debug, PartialEq, Eq)]
pub struct Config {
    pub database_url: String,
    pub address: String,
    pub port: u16,
    pub secret: String,
}

/// One of the settings.
#[derive(Debug, Clone, Copy, PartialEq, Eq, Structural)]
pub enum Setting {
    DatabaseUrl,
    Address,
    Port,
    Secret,
}

/// Why the settings are not usable.
#[derive(Debug, Clone, Copy, PartialEq, Eq, Structural)]
pub enum ConfigError {
    /// The setting has no value.
    Missing(Setting),
    /// The port is not a number from 0 to 65535.
    BadPort,
}

/// Whether a character is a decimal digit.
pub open spec fn is_digit(c: char) -> bool {
    '0' <= c <= '9'
}

/// The number that a sequence of decimal digits stands for.
pub open spec fn number_of(digits: Seq<char>) -> nat
    decreases digits.len(),
{
    if digits.len() == 0 {
        0
    } else {
        number_of(digits.drop_last()) * 10 + (digits.last() as nat - '0' as nat) as nat
    }
}

/// The digits of a port's text: the text itself, without a leading plus
/// sign.
pub open spec fn port_digits(text: Seq<char>) -> Seq<char> {
    if text.len() > 0 && text[0] == '+' {
        text.subrange(1, text.len() as int)
    } else {
        text
    }
}

/// The port that a text stands for: an optional plus sign, then one or
/// more decimal digits that make a number up to 65535.
pub open spec fn port_of(text: Seq<char>) -> Option<u16> {
    let digits = port_digits(text);
    if digits.len() > 0 && (forall|i: int| 0 <= i < digits.len() ==> is_digit(#[trigger] digits[i]))
        && number_of(digits) <= u16::MAX {
        Some(number_of(digits) as u16)
    } else {
        None
    }
}

/// A number does not shrink when digits follow it.
proof fn lemma_number_grows(digits: Seq<char>, upto: int)
    requires
        0 <= upto <= digits.len(),
        forall|i: int| 0 <= i < digits.len() ==> is_digit(#[trigger] digits[i]),
    ensures
        number_of(digits.take(upto)) <= number_of(digits),
    decreases digits.len() - upto,
{
    if upto < digits.len() {
        let longer = digits.take(upto + 1);
        assert(longer.drop_last() =~= digits.take(upto));
        assert(longer.last() == digits[upto]);
        lemma_number_grows(digits, upto + 1);
    } else {
        assert(digits.take(upto) =~= digits);
    }
}

/// Reads a port from its text.
pub fn parse_port(text: &str) -> (port: Option<u16>)
    ensures
        port == port_of(text@),
{
    let length = text.unicode_len();
    let start: usize = if length > 0 && text.get_char(0) == '+' {
        1
    } else {
        0
    };
    if start >= length {
        return None;
    }
    let ghost digits = port_digits(text@);
    assert(digits.len() == length - start);
    let mut value: u32 = 0;
    let mut at: usize = start;
    assert(digits.take(0) =~= Seq::<char>::empty());
    while at < length
        invariant
            start <= at <= length,
            length == text@.len(),
            digits == port_digits(text@),
            digits.len() == length - start,
            forall|i: int| 0 <= i < digits.len() ==> digits[i] == text@[i + start],
            forall|i: int| 0 <= i < at - start ==> is_digit(#[trigger] digits[i]),
            value == number_of(digits.take(at - start)),
            value <= u16::MAX,
        decreases length - at,
    {
        let c = text.get_char(at);
        if c < '0' || c > '9' {
            assert(!is_digit(digits[at - start]));
            return None;
        }
        let digit: u32 = c as u32 - '0' as u32;
        proof {
            let longer = digits.take(at - start + 1);
            assert(longer.drop_last() =~= digits.take(at - start));
            assert(longer.last() == c);
        }
        value = value * 10 + digit;
        if value > 65535 {
            proof {
                if forall|i: int| 0 <= i < digits.len() ==> is_digit(#[trigger] digits[i]) {
                    lemma_number_grows(digits, at - start + 1);
                }
            }
            return None;
        }
        at += 1;
    }
    assert(digits.take(at - start) =~= digits);
    Some(value as u16)
}

/// What the settings come to, given the value of each where it has one:
/// the first that is missing is reported, in the order database url,
/// address, port, secret; then a port that is not a port.
pub open spec fn loaded(
    database_url: Option<String>,
    address: Option<String>,
    port: Option<String>,
    secret: Option<String>,
) -> Result<(Seq<char>, Seq<char>, u16, Seq<char>), ConfigError> {
    if database_url is None {
        Err(ConfigError::Missing(Setting::DatabaseUrl))
    } else if address is None {
        Err(ConfigError::Missing(Setting::Address))
    } else if port is None {
        Err(ConfigError::Missing(Setting::Port))
    } else if secret is None {
        Err(ConfigError::Missing(Setting::Secret))
    } else if port_of(port->0@) is None {
        Err(ConfigError::BadPort)
    } else {
        Ok((database_url->0@, address->0@, port_of(port->0@)->0, secret->0@))
    }
}

impl Config {
    /// The settings as a mathematical value.
    pub open spec fn fields(self) -> (Seq<char>, Seq<char>, u16, Seq<char>) {
        (self.database_url@, self.address@, self.port, self.secret@)
    }

    /// Builds the settings from the value of each, where it has one.
    pub fn load(
        database_url: Option<String>,
        address: Option<String>,
        port: Option<String>,
        secret: Option<String>,
    ) -> (config: Result<Config, ConfigError>)
        ensures
            match config {
                Ok(made) => loaded(database_url, address, port, secret) == Ok::<_, ConfigError>(
                    made.fields(),
                ),
                Err(error) => loaded(database_url, address, port, secret) == Err::<
                    (Seq<char>, Seq<char>, u16, Seq<char>),
                    _,
                >(error),
            },
    {
        let database_url = match database_url {
            Some(text) => text,
            None => {
                return Err(ConfigError::Missing(Setting::DatabaseUrl));
            },
        };
        let address = match address {
            Some(text) => text,
            None => {
                return Err(ConfigError::Missing(Setting::Address));
            },
        };
        let port_text = match port {
            Some(text) => text,
            None => {
                return Err(ConfigError::Missing(Setting::Port));
            },
        };
        let secret = match secret {
            Some(text) => text,
            None => {
                return Err(ConfigError::Missing(Setting::Secret));
            },
        };
        match parse_port(port_text.as_str()) {
            Some(port) => Ok(Config { database_url, address, port, secret }),
            None => Err(ConfigError::BadPort),
        }
    }
}

} // verus!
