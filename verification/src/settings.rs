//! What the process is started with: the private key, and the defaults that
//! commands fall back on.

use vstd::prelude::*;
use vstd::string::*;

use crate::command::Defaults;
use crate::command::DefaultsView;
use crate::command::effective_text;
use crate::text::chars_of;
use crate::text::opt_view;

verus! {

/// Whether `c` is one of the digits `0` to `9`.
pub open spec fn is_digit(c: char) -> bool {
    0x30 <= c as u32 <= 0x39
}

/// The value of a digit; zero for every other character.
pub open spec fn digit_value(c: char) -> nat {
    if is_digit(c) {
        (c as u32 - 0x30) as nat
    } else {
        0
    }
}

/// Whether `s` holds digits only.
pub open spec fn all_digits(s: Seq<char>) -> bool {
    forall|i: int| 0 <= i < s.len() ==> is_digit(#[trigger] s[i])
}

/// The number that the digits of `s` write in base ten.
pub open spec fn digits_value(s: Seq<char>) -> nat
    decreases s.len(),
{
    if s.len() == 0 {
        0
    } else {
        digits_value(s.drop_last()) * 10 + digit_value(s.last())
    }
}

/// `s` without the plus sign that may lead it.
pub open spec fn unsigned_part(s: Seq<char>) -> Seq<char> {
    if s.len() > 0 && s[0] == '+' {
        s.drop_first()
    } else {
        s
    }
}

/// The small number that a text writes: an optional plus sign and then one
/// or more digits, nothing before, between or after them, and a value of at
/// most 255. Every other text writes none.
pub open spec fn parsed_u8(s: Seq<char>) -> Option<u8> {
    let digits = unsigned_part(s);
    if digits.len() > 0 && all_digits(digits) && digits_value(digits) <= 255 {
        Some(digits_value(digits) as u8)
    } else {
        None
    }
}

/// A numeral is worth at least as much as each of its beginnings.
pub proof fn lemma_digits_value_grows(s: Seq<char>, k: int)
    requires
        0 <= k <= s.len(),
    ensures
        digits_value(s.take(k)) <= digits_value(s),
    decreases s.len() - k,
{
    if k == s.len() {
        assert(s.take(k) =~= s);
    } else {
        lemma_digits_value_grows(s.drop_last(), k);
        assert(s.drop_last().take(k) =~= s.take(k));
    }
}

/// Reads a text as a small number.
pub fn parse_u8(s: &str) -> (r: Option<u8>)
    ensures
        r == parsed_u8(s@),
{
    let chars = chars_of(s);
    let n = chars.len();
    let start: usize = if n > 0 && chars[0] == '+' {
        1
    } else {
        0
    };
    let ghost digits = unsigned_part(s@);
    proof {
        assert(digits =~= s@.subrange(start as int, n as int));
    }
    if start == n {
        return None;
    }
    let mut acc: u32 = 0;
    let mut i: usize = start;
    proof {
        assert(digits.take(0) =~= Seq::<char>::empty());
    }
    while i < n
        invariant
            start <= i <= n,
            n == chars@.len(),
            chars@ == s@,
            digits == unsigned_part(s@),
            digits == s@.subrange(start as int, n as int),
            acc <= 255,
            acc == digits_value(digits.take(i - start)),
            forall|j: int| 0 <= j < i - start ==> is_digit(#[trigger] digits[j]),
        decreases n - i,
    {
        let code: u32 = chars[i] as u32;
        if code < 0x30 || code > 0x39 {
            proof {
                assert(!is_digit(digits[i - start]));
            }
            return None;
        }
        let next: u32 = acc * 10 + (code - 0x30);
        proof {
            assert(digits.take(i + 1 - start).drop_last() =~= digits.take(i - start));
            assert(digits.take(i + 1 - start).last() == digits[i - start]);
            assert(next == digits_value(digits.take(i + 1 - start)));
        }
        if next > 255 {
            proof {
                lemma_digits_value_grows(digits, i + 1 - start);
            }
            return None;
        }
        acc = next;
        i += 1;
    }
    proof {
        assert(digits.take(n - start) =~= digits);
    }
    Some(acc as u8)
}

/// The values of the variables that the process reads when it starts, each
/// as it was found: the private key under its two names, the default
/// signature type, and the default funder under its two names.
#[derive(Debug, PartialEq, Eq)]
pub struct Environment {
    pub polymarket_private_key: Option<String>,
    pub private_key: Option<String>,
    pub polymarket_signature_type: Option<String>,
    pub polymarket_proxy_address: Option<String>,
    pub clob_funder_address: Option<String>,
}

/// What the process runs with.
#[derive(Debug, PartialEq, Eq)]
pub struct Settings {
    pub private_key: String,
    pub defaults: Defaults,
}

/// Why the process cannot start.
#[derive(Clone, Copy, Debug, PartialEq, Eq, Structural)]
pub enum StartupError {
    MissingPrivateKey,
}

/// The default signature type that a setting names: the number it writes,
/// or none where it is absent or writes none.
pub open spec fn default_signature_type(setting: Option<Seq<char>>) -> Option<u8> {
    match setting {
        Some(text) => parsed_u8(text),
        None => None,
    }
}

/// The defaults that an environment gives: of two names for one setting the
/// first that is present counts.
pub open spec fn environment_defaults(env: Environment) -> DefaultsView {
    DefaultsView {
        signature_type: default_signature_type(opt_view(env.polymarket_signature_type)),
        funder_address: effective_text(
            opt_view(env.polymarket_proxy_address),
            opt_view(env.clob_funder_address),
        ),
    }
}

/// What to tell the operator of a process that cannot start.
pub fn startup_error_message(error: StartupError) -> (message: &'static str)
    ensures
        message@ == "POLYMARKET_PRIVATE_KEY or PRIVATE_KEY environment variable must be set"@,
{
    match error {
        StartupError::MissingPrivateKey => {
            "POLYMARKET_PRIVATE_KEY or PRIVATE_KEY environment variable must be set"
        },
    }
}

/// Settles what the process runs with. It cannot start without a private
/// key; every other setting may be absent.
pub fn settings_from(env: Environment) -> (r: Result<Settings, StartupError>)
    ensures
        match r {
            Ok(settings) => {
                &&& Some(settings.private_key@) == effective_text(
                    opt_view(env.polymarket_private_key),
                    opt_view(env.private_key),
                )
                &&& settings.defaults@ == environment_defaults(env)
            },
            Err(error) => {
                &&& error == StartupError::MissingPrivateKey
                &&& env.polymarket_private_key is None
                &&& env.private_key is None
            },
        },
{
    let Environment {
        polymarket_private_key,
        private_key,
        polymarket_signature_type,
        polymarket_proxy_address,
        clob_funder_address,
    } = env;
    let key = match polymarket_private_key {
        Some(key) => key,
        None => match private_key {
            Some(key) => key,
            None => {
                return Err(StartupError::MissingPrivateKey);
            },
        },
    };
    let signature_type = match &polymarket_signature_type {
        Some(text) => parse_u8(text.as_str()),
        None => None,
    };
    let funder_address = match polymarket_proxy_address {
        Some(address) => Some(address),
        None => clob_funder_address,
    };
    Ok(Settings { private_key: key, defaults: Defaults { signature_type, funder_address } })
}

} // verus!
