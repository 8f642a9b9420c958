//! How the process obtains its Snowflake node id: leased from the platform
//! registry in production-like environments, a static id elsewhere.

use vstd::prelude::*;
use crate::text::{chars_of, trim, trim_text};

verus! {

/// Static node id escape hatch, honoured only outside production-like environments.
pub const SHOP_SNOWFLAKE_NODE_ID_ENV: &'static str = "SDKWORK_SHOP_SNOWFLAKE_NODE_ID";

/// Logical service name registered in the platform node registry.
pub const SHOP_IDENTITY_SERVICE_NAME: &'static str = "sdkwork-shop";

/// Database module whose connection profile serves the node registry.
pub const SHOP_IDENTITY_DATABASE_SERVICE: &'static str = "SHOP";

/// Node id used when no lease is required and none was configured.
pub const DEVELOPMENT_NODE_ID: u16 = 1;

/// How this process must obtain its Snowflake node id.
#[derive(Debug, Clone, Copy, PartialEq, Eq, Structural)]
pub enum IdentityPosture {
    /// Lease a node id from the platform registry. Required when running more than one instance.
    Leased,
    /// Use a static node id with no lease. Development and test only.
    Static,
}

/// The refusal reported when a static node id `value` is configured in a
/// production-like environment.
pub open spec fn static_id_refusal(value: Seq<char>) -> Seq<char> {
    "static "@ + SHOP_SNOWFLAKE_NODE_ID_ENV@ + "="@ + value
        + " is forbidden in production-like environments; remove it so the node id is leased from the platform node registry"@
}

/// `needle` occurs in `text`.
pub open spec fn contains_text(text: Seq<char>, needle: Seq<char>) -> bool {
    exists|i: int| 0 <= i <= text.len() - needle.len() && #[trigger] text.subrange(i, i + needle.len()) == needle
}

/// Decides the identity posture from the resolved environment and the
/// configured static node id: outside production-like environments a static
/// id is always used; inside them the id is leased, and a configured static
/// id is refused, since every replica would share it.
pub fn identity_posture(production_like: bool, configured_node_id: Option<&str>) -> (r: Result<IdentityPosture, String>)
    ensures
        !production_like ==> r == Ok::<IdentityPosture, String>(IdentityPosture::Static),
        production_like && configured_node_id is None ==> r == Ok::<IdentityPosture, String>(
            IdentityPosture::Leased,
        ),
        production_like && configured_node_id is Some ==> (r matches Err(m) && m@ == static_id_refusal(
            configured_node_id->0@,
        ) && contains_text(m@, SHOP_SNOWFLAKE_NODE_ID_ENV@)),
{
    if !production_like {
        return Ok(IdentityPosture::Static);
    }
    match configured_node_id {
        Some(value) => {
            let mut message = "static ".to_owned();
            message.append(SHOP_SNOWFLAKE_NODE_ID_ENV);
            message.append("=");
            message.append(value);
            message.append(
                " is forbidden in production-like environments; remove it so the node id is leased from the platform node registry",
            );
            proof {
                reveal_strlit("static ");
                let env = SHOP_SNOWFLAKE_NODE_ID_ENV@;
                assert(message@.subrange(7, 7 + env.len() as int) =~= env);
            }
            Err(message)
        },
        None => Ok(IdentityPosture::Leased),
    }
}

/// Why a decimal `u16` could not be read.
#[derive(Debug, Clone, Copy, PartialEq, Eq, Structural)]
pub enum IntParseFailure {
    Empty,
    InvalidDigit,
    PosOverflow,
}

pub open spec fn is_digit(c: char) -> bool {
    '0' <= c && c <= '9'
}

pub open spec fn digit_value(c: char) -> nat {
    (c as int - 48) as nat
}

/// Reads the digits `rest` onto the value `acc` read so far, left to right,
/// as `u16::from_str` does: a non-digit fails, and so does a value above
/// `u16::MAX`.
pub open spec fn scan_digits(rest: Seq<char>, acc: nat) -> Result<nat, IntParseFailure>
    decreases rest.len(),
{
    if rest.len() == 0 {
        Ok(acc)
    } else if !is_digit(rest[0]) {
        Err(IntParseFailure::InvalidDigit)
    } else if acc * 10 + digit_value(rest[0]) > 65535 {
        Err(IntParseFailure::PosOverflow)
    } else {
        scan_digits(rest.drop_first(), acc * 10 + digit_value(rest[0]))
    }
}

/// `u16::from_str`: an optional `+` followed by at least one decimal digit,
/// with a value that fits in a `u16`.
pub open spec fn parse_u16(s: Seq<char>) -> Result<nat, IntParseFailure> {
    if s.len() == 0 {
        Err(IntParseFailure::Empty)
    } else if s[0] == '+' {
        if s.len() == 1 {
            Err(IntParseFailure::InvalidDigit)
        } else {
            scan_digits(s.drop_first(), 0)
        }
    } else {
        scan_digits(s, 0)
    }
}

/// The message a `ParseIntError` of this kind displays.
pub open spec fn parse_failure_message(f: IntParseFailure) -> Seq<char> {
    match f {
        IntParseFailure::Empty => "cannot parse integer from empty string"@,
        IntParseFailure::InvalidDigit => "invalid digit found in string"@,
        IntParseFailure::PosOverflow => "number too large to fit in target type"@,
    }
}

/// Reads a decimal `u16` the way `str::parse::<u16>` does.
pub fn parse_u16_text(s: &str) -> (r: Result<u16, IntParseFailure>)
    ensures
        match r {
            Ok(v) => parse_u16(s@) == Ok::<nat, IntParseFailure>(v as nat),
            Err(f) => parse_u16(s@) == Err::<nat, IntParseFailure>(f),
        },
{
    let v = chars_of(s);
    let n = v.len();
    if n == 0 {
        return Err(IntParseFailure::Empty);
    }
    let mut i: usize = 0;
    if v[0] == '+' {
        if n == 1 {
            return Err(IntParseFailure::InvalidDigit);
        }
        i = 1;
    }
    let ghost body = s@.skip(i as int);
    assert(parse_u16(s@) == scan_digits(body, 0)) by {
        if i == 0 {
            assert(body =~= s@);
        } else {
            assert(body =~= s@.drop_first());
        }
    }
    let mut acc: u32 = 0;
    while i < n
        invariant
            v@ == s@,
            n == v@.len(),
            i <= n,
            acc <= 65535,
            parse_u16(s@) == scan_digits(s@.skip(i as int), acc as nat),
        decreases n - i,
    {
        let c = v[i];
        if !('0' <= c && c <= '9') {
            return Err(IntParseFailure::InvalidDigit);
        }
        let d = (c as u32) - 48;
        if acc * 10 + d > 65535 {
            return Err(IntParseFailure::PosOverflow);
        }
        assert(s@.skip(i as int).drop_first() =~= s@.skip(i + 1));
        acc = acc * 10 + d;
        i += 1;
    }
    assert(s@.skip(n as int).len() == 0);
    Ok(acc as u16)
}

/// The message of the error for a malformed static node id.
pub open spec fn invalid_node_id_message(f: IntParseFailure) -> Seq<char> {
    "invalid "@ + SHOP_SNOWFLAKE_NODE_ID_ENV@ + ": "@ + parse_failure_message(f)
}

/// The static node id: the configured value, trimmed and read as a decimal
/// `u16`, or the development node id when none is configured.
pub fn static_node_id(configured: Option<&str>) -> (r: Result<u16, String>)
    ensures
        match configured {
            None => r == Ok::<u16, String>(DEVELOPMENT_NODE_ID),
            Some(value) => match parse_u16(trim(value@)) {
                Ok(n) => r matches Ok(id) && id as nat == n,
                Err(f) => r matches Err(m) && m@ == invalid_node_id_message(f),
            },
        },
{
    match configured {
        None => Ok(DEVELOPMENT_NODE_ID),
        Some(value) => {
            let trimmed = trim_text(value);
            match parse_u16_text(trimmed.as_str()) {
                Ok(id) => Ok(id),
                Err(f) => {
                    let mut message = "invalid ".to_owned();
                    message.append(SHOP_SNOWFLAKE_NODE_ID_ENV);
                    message.append(": ");
                    let detail = match f {
                        IntParseFailure::Empty => "cannot parse integer from empty string",
                        IntParseFailure::InvalidDigit => "invalid digit found in string",
                        IntParseFailure::PosOverflow => "number too large to fit in target type",
                    };
                    message.append(detail);
                    Err(message)
                },
            }
        },
    }
}

} // verus!
