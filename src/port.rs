use vstd::prelude::*;

verus! {

/// The port served on when none is configured.
pub const DEFAULT_PORT: u16 = 3000;

/// What the environment holds for the port setting.
pub enum PortSetting {
    /// No port is configured.
    Unset,
    /// A value is configured but is not valid Unicode.
    NotUnicode,
    /// The configured text.
    Value(String),
}

/// Why the port setting was refused.
#[derive(Debug, Clone, Copy, PartialEq, Eq, Structural)]
pub enum ConfigError {
    /// The value is not valid Unicode.
    NotUnicode,
    /// The value is not an unsigned 16-bit integer.
    InvalidPort,
}

/// Whether `c` is an ASCII decimal digit.
pub open spec fn is_digit(c: char) -> bool {
    '0' <= c && c <= '9'
}

/// The number that a sequence of decimal digits writes.
pub open spec fn digits_value(s: Seq<char>) -> nat
    decreases s.len(),
{
    if s.len() == 0 {
        0
    } else {
        digits_value(s.drop_last()) * 10 + (s.last() as nat - '0' as nat) as nat
    }
}

/// The digits of a port text: the text without one leading `+`.
pub open spec fn port_digits(s: Seq<char>) -> Seq<char> {
    if s.len() > 0 && s[0] == '+' {
        s.drop_first()
    } else {
        s
    }
}

/// Whether `s` reads as an unsigned 16-bit integer: an optional `+`, then at
/// least one decimal digit, writing a number of at most 65535.
pub open spec fn is_port_text(s: Seq<char>) -> bool {
    let d = port_digits(s);
    &&& d.len() > 0
    &&& forall|i: int| 0 <= i < d.len() ==> is_digit(#[trigger] d[i])
    &&& digits_value(d) <= u16::MAX
}

/// Reads `s` as an unsigned 16-bit integer, as std's integer parsing does:
/// an optional `+` and decimal digits, with leading zeros allowed.
pub fn parse_port(s: &str) -> (r: Option<u16>)
    ensures
        r is Some <==> is_port_text(s@),
        r is Some ==> r->Some_0 as nat == digits_value(port_digits(s@)),
{
    let n = s.unicode_len();
    let mut start: usize = 0;
    if n > 0 && s.get_char(0) == '+' {
        start = 1;
    }
    let ghost d = port_digits(s@);
    assert(d == s@.subrange(start as int, n as int));
    if start == n {
        return None;
    }
    let mut i: usize = start;
    let mut value: u32 = 0;
    let mut over = false;
    while i < n
        invariant
            start <= i <= n,
            n == s@.len(),
            d == s@.subrange(start as int, n as int),
            d == port_digits(s@),
            forall|j: int| 0 <= j < i - start ==> is_digit(#[trigger] d[j]),
            !over ==> value as nat == digits_value(d.subrange(0, i - start)),
            !over ==> value <= 65535,
            over ==> digits_value(d.subrange(0, i - start)) > 65535,
        decreases n - i,
    {
        let c = s.get_char(i);
        assert(d[i - start] == c);
        if (c as u32) < ('0' as u32) || (c as u32) > ('9' as u32) {
            assert(!is_digit(d[i - start]));
            return None;
        }
        let ghost prefix = d.subrange(0, i - start);
        let ghost next = d.subrange(0, i + 1 - start);
        assert(next.drop_last() == prefix);
        assert(next.last() == c);
        let digit = (c as u32) - ('0' as u32);
        if !over {
            value = value * 10 + digit;
            if value > 65535 {
                over = true;
            }
        }
        i = i + 1;
    }
    assert(d.subrange(0, n - start) == d);
    if over {
        None
    } else {
        Some(value as u16)
    }
}

/// The port to serve on: the default where none is set, the configured
/// value where it reads as an unsigned 16-bit integer, an error otherwise.
pub fn determine_port(setting: PortSetting) -> (r: Result<u16, ConfigError>)
    ensures
        setting is Unset ==> r == Ok::<u16, ConfigError>(DEFAULT_PORT),
        setting is NotUnicode ==> r == Err::<u16, ConfigError>(ConfigError::NotUnicode),
        setting matches PortSetting::Value(s) ==> {
            &&& (r is Ok <==> is_port_text(s@))
            &&& (r is Ok ==> r->Ok_0 as nat == digits_value(port_digits(s@)))
            &&& (r is Err ==> r == Err::<u16, ConfigError>(ConfigError::InvalidPort))
        },
{
    match setting {
        PortSetting::Unset => Ok(DEFAULT_PORT),
        PortSetting::NotUnicode => Err(ConfigError::NotUnicode),
        PortSetting::Value(s) => match parse_port(s.as_str()) {
            Some(p) => Ok(p),
            None => Err(ConfigError::InvalidPort),
        },
    }
}

} // verus!
