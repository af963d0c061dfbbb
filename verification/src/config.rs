//! Configuration of the gateway: the HTTP port, the MQTT broker and the
//! upstream cloud endpoint, each with its default.

use vstd::prelude::*;
use crate::mqtt::MqttConfig;

verus! {

/// Port the HTTP server binds to when none (or no valid one) is given.
pub const DEFAULT_HTTP_PORT: u16 = 80;

/// Port of the MQTT broker when none (or no valid one) is given.
pub const DEFAULT_MQTT_PORT: u16 = 1883;

/// An ASCII decimal digit.
pub open spec fn is_digit(c: char) -> bool {
    '0' <= c <= '9'
}

/// The value of a string of decimal digits.
pub open spec fn digits_value(s: Seq<char>) -> nat
    decreases s.len(),
{
    if s.len() == 0 {
        0
    } else {
        digits_value(s.drop_last()) * 10 + (s.last() as nat - '0' as nat) as nat
    }
}

/// The digits of an unsigned integer text: everything after an optional
/// leading `+`.
pub open spec fn unsigned_digits(s: Seq<char>) -> Seq<char> {
    if s.len() > 0 && s[0] == '+' {
        s.drop_first()
    } else {
        s
    }
}

/// The value of `s` read as a 16-bit unsigned integer: an optional `+`
/// followed by at least one decimal digit, with no other character, and a
/// value of at most 65535.
pub open spec fn u16_text_value(s: Seq<char>) -> Option<u16> {
    let digits = unsigned_digits(s);
    if digits.len() > 0 && (forall|i: int| 0 <= i < digits.len() ==> is_digit(#[trigger] digits[i]))
        && digits_value(digits) <= 65535 {
        Some(digits_value(digits) as u16)
    } else {
        None
    }
}

/// The port given by an optional text, or `default` when the text is
/// missing or is no valid port number.
pub open spec fn port_or_default(text: Option<Seq<char>>, default: u16) -> u16 {
    match text {
        Some(t) => match u16_text_value(t) {
            Some(v) => v,
            None => default,
        },
        None => default,
    }
}

/// Appending digits never lowers the value of a digit string.
proof fn lemma_digits_value_prefix(s: Seq<char>, k: int)
    requires
        0 <= k <= s.len(),
        forall|i: int| 0 <= i < s.len() ==> is_digit(#[trigger] s[i]),
    ensures
        digits_value(s.subrange(0, k)) <= digits_value(s),
    decreases s.len(),
{
    if k < s.len() {
        assert(s.drop_last().subrange(0, k) =~= s.subrange(0, k));
        lemma_digits_value_prefix(s.drop_last(), k);
    } else {
        assert(s.subrange(0, k) =~= s);
    }
}

/// Reads a 16-bit unsigned integer from `text`: an optional `+`, then
/// decimal digits only.
pub fn parse_u16(text: &str) -> (v: Option<u16>)
    ensures
        v == u16_text_value(text@),
{
    if !text.is_ascii() {
        proof {
            let digits = unsigned_digits(text@);
            let k = choose|k: int| 0 <= k < text@.len() && !('\0' <= #[trigger] text@[k] <= '\u{7f}');
            if text@.len() > 0 && text@[0] == '+' {
                assert(digits[k - 1] == text@[k]);
            } else {
                assert(digits[k] == text@[k]);
            }
        }
        return None;
    }
    let n = text.unicode_len();
    let mut start: usize = 0;
    if n > 0 && text.get_ascii(0) == 43u8 {
        start = 1;
    }
    let ghost digits = unsigned_digits(text@);
    proof {
        if start == 1 {
            assert(text@[0] as u8 == 43u8);
            assert(text@[0] == '+');
        } else if n > 0 {
            assert(text@[0] != '+');
        }
        assert(digits =~= text@.subrange(start as int, n as int));
    }
    if start >= n {
        return None;
    }
    let mut value: u32 = 0;
    let mut i: usize = start;
    while i < n
        invariant
            text.is_ascii(),
            n == text@.len(),
            start <= i <= n,
            start < n,
            digits == text@.subrange(start as int, n as int),
            digits == unsigned_digits(text@),
            value <= 65535,
            value == digits_value(digits.subrange(0, i - start)),
            forall|j: int| 0 <= j < i - start ==> is_digit(#[trigger] digits[j]),
        decreases n - i,
    {
        let b = text.get_ascii(i);
        if b < 48u8 || b > 57u8 {
            proof {
                assert(digits[i - start] == text@[i as int]);
                assert(!is_digit(digits[i - start]));
            }
            return None;
        }
        proof {
            assert(digits[i - start] == text@[i as int]);
            assert(digits.subrange(0, i - start + 1).drop_last() =~= digits.subrange(0, i - start));
        }
        value = value * 10 + (b - 48u8) as u32;
        i = i + 1;
        if value > 65535 {
            proof {
                if forall|j: int| 0 <= j < digits.len() ==> is_digit(#[trigger] digits[j]) {
                    lemma_digits_value_prefix(digits, i - start);
                }
            }
            return None;
        }
    }
    proof {
        assert(digits.subrange(0, n - start) =~= digits);
    }
    Some(value as u16)
}

/// Reads an optional port text, falling back to `default`.
pub fn port_from(text: Option<&str>, default: u16) -> (port: u16)
    ensures
        port == port_or_default(
            match text {
                Some(t) => Some(t@),
                None => None,
            },
            default,
        ),
{
    match text {
        Some(t) => match parse_u16(t) {
            Some(v) => v,
            None => default,
        },
        None => default,
    }
}

/// The configuration of the gateway.
#[derive(Debug)]
pub struct AppConfig {
    pub port: u16,
    pub mqtt: MqttConfig,
}

impl AppConfig {
    /// Builds the configuration from the values of `PORT`, `MQTT_HOST` and
    /// `MQTT_PORT` (`None` when a variable is not set): a missing or invalid
    /// port falls back to 80 (HTTP) and 1883 (MQTT), a missing host to `::1`.
    pub fn from_values(port: Option<&str>, mqtt_host: Option<&str>, mqtt_port: Option<&str>) -> (config: AppConfig)
        ensures
            config.port == port_or_default(
                match port {
                    Some(t) => Some(t@),
                    None => None,
                },
                DEFAULT_HTTP_PORT,
            ),
            config.mqtt.port == port_or_default(
                match mqtt_port {
                    Some(t) => Some(t@),
                    None => None,
                },
                DEFAULT_MQTT_PORT,
            ),
            config.mqtt.host@ == match mqtt_host {
                Some(h) => h@,
                None => "::1"@,
            },
    {
        let host = match mqtt_host {
            Some(h) => String::from_str(h),
            None => String::from_str("::1"),
        };
        AppConfig {
            port: port_from(port, DEFAULT_HTTP_PORT),
            mqtt: MqttConfig { host, port: port_from(mqtt_port, DEFAULT_MQTT_PORT) },
        }
    }
}

/// Where raw inverter payloads are relayed in dual-delivery mode.
#[derive(Debug, Clone)]
pub struct UpstreamConfig {
    pub url: String,
}

} // verus!

verus! {

/// Reading back the decimal rendering of a number gives that number's value.
proof fn lemma_digits_value_of_decimal_text(n: nat)
    ensures
        digits_value(crate::text::decimal_text(n)) == n,
        forall|i: int|
            0 <= i < crate::text::decimal_text(n).len() ==> is_digit(#[trigger] crate::text::decimal_text(n)[i]),
    decreases n,
{
    let t = crate::text::decimal_text(n);
    if n < 10 {
        crate::text::lemma_digit_char_value(n as int);
        assert(t.drop_last() =~= Seq::<char>::empty());
        assert(digits_value(t) == digits_value(t.drop_last()) * 10 + (t.last() as nat - '0' as nat) as nat);
    } else {
        lemma_digits_value_of_decimal_text(n / 10);
        crate::text::lemma_digit_char_value((n % 10) as int);
        assert(t.drop_last() =~= crate::text::decimal_text(n / 10));
        assert((n / 10) * 10 + n % 10 == n);
        assert(digits_value(t) == digits_value(t.drop_last()) * 10 + (t.last() as nat - '0' as nat) as nat);
        assert forall|i: int| 0 <= i < t.len() implies is_digit(#[trigger] t[i]) by {
            if i < t.len() - 1 {
                assert(t[i] == crate::text::decimal_text(n / 10)[i]);
            }
        }
    }
}

/// A port number written in decimal is read back as itself: the port parser
/// accepts exactly what the decimal renderer writes, for every 16-bit value.
pub proof fn lemma_port_text_round_trip(port: u16)
    ensures
        u16_text_value(crate::text::decimal_text(port as nat)) == Some(port),
{
    let t = crate::text::decimal_text(port as nat);
    lemma_digits_value_of_decimal_text(port as nat);
    assert(t.len() > 0);
    assert(is_digit(t[0]));
    assert(unsigned_digits(t) == t);
}

} // verus!
