//! The daemon's configuration, from the values of its environment
//! variables.
//!
//! | Variable          | Default                               |
//! |-------------------|---------------------------------------|
//! | `FS_REGISTRY_DB`  | `/var/lib/freesynergy/registry.db`    |
//! | `FS_GRPC_PORT`    | `50060`                               |
//! | `FS_REST_PORT`    | `8060`                                |
use vstd::prelude::*;

use crate::registry::opt_text;

verus! {

/// Database used when `FS_REGISTRY_DB` is not set.
pub open spec fn default_db_path() -> Seq<char> {
    "/var/lib/freesynergy/registry.db"@
}

/// gRPC port used when `FS_GRPC_PORT` is not set or not a port number.
pub const DEFAULT_GRPC_PORT: u16 = 50060;

/// REST port used when `FS_REST_PORT` is not set or not a port number.
pub const DEFAULT_REST_PORT: u16 = 8060;

/// Whether `c` is a decimal digit.
pub open spec fn is_digit(c: char) -> bool {
    '0' <= c && c <= '9'
}

/// The number that a text of decimal digits writes.
pub open spec fn digits_value(s: Seq<char>) -> int
    decreases s.len(),
{
    if s.len() == 0 {
        0
    } else {
        digits_value(s.drop_last()) * 10 + ((s.last() as u32) - ('0' as u32))
    }
}

/// A text without its leading `+`, if it has one.
pub open spec fn unsigned_part(s: Seq<char>) -> Seq<char> {
    if s.len() > 0 && s[0] == '+' {
        s.drop_first()
    } else {
        s
    }
}

/// Whether every character of `d` is a decimal digit.
pub open spec fn all_digits(d: Seq<char>) -> bool {
    forall|i: int| 0 <= i < d.len() ==> is_digit(#[trigger] d[i])
}

/// What `str::parse::<u16>` reads from a text, as its documentation puts it:
/// an optional `+` followed by one or more decimal digits and nothing else,
/// whose value fits in a `u16`; any other text is an error.
pub open spec fn parsed_u16(s: Seq<char>) -> Option<u16> {
    let d = unsigned_part(s);
    if d.len() > 0 && all_digits(d) && digits_value(d) <= u16::MAX {
        Some(digits_value(d) as u16)
    } else {
        None
    }
}

/// The value of an all-digit text is at least that of each of its prefixes,
/// and never negative.
proof fn lemma_digits_value_grows(d: Seq<char>, k: int)
    requires
        0 <= k <= d.len(),
        all_digits(d),
    ensures
        0 <= digits_value(d.take(k)) <= digits_value(d),
    decreases d.len(),
{
    if d.len() > 0 {
        let r = d.drop_last();
        assert forall|i: int| 0 <= i < r.len() implies is_digit(#[trigger] r[i]) by {
            assert(r[i] == d[i]);
        }
        if k == d.len() {
            assert(d.take(k) =~= d);
            lemma_digits_value_grows(r, r.len() as int);
            assert(r.take(r.len() as int) =~= r);
        } else {
            lemma_digits_value_grows(r, k);
            assert(d.take(k) =~= r.take(k));
            assert(is_digit(d[d.len() - 1]));
        }
    }
}

/// What `str::parse::<u16>` of std reads (see `parsed_u16`).
fn parse_u16(s: &str) -> (r: Option<u16>)
    ensures
        r == parsed_u16(s@),
{
    let len = s.unicode_len();
    let start: usize = if len > 0 && s.get_char(0) == '+' {
        1
    } else {
        0
    };
    let ghost d = unsigned_part(s@);
    assert(d =~= s@.subrange(start as int, len as int));
    if start == len {
        return None;
    }
    let mut value: u32 = 0;
    let mut i: usize = start;
    while i < len
        invariant
            start <= i <= len,
            len == s@.len(),
            d == s@.subrange(start as int, len as int),
            d == unsigned_part(s@),
            forall|k: int| 0 <= k < i - start ==> is_digit(#[trigger] d[k]),
            value as int == digits_value(d.take(i - start)),
            value <= 65535,
        decreases len - i,
    {
        let c = s.get_char(i);
        assert(c == d[i - start]);
        if !('0' <= c && c <= '9') {
            assert(!is_digit(d[i - start]));
            return None;
        }
        let ghost before = d.take(i - start);
        assert(d.take(i - start + 1).drop_last() =~= before);
        assert(d.take(i - start + 1).last() == c);
        value = value * 10 + ((c as u32) - ('0' as u32));
        assert(value as int == digits_value(d.take(i - start + 1)));
        if value > 65535 {
            proof {
                if all_digits(d) {
                    lemma_digits_value_grows(d, i - start + 1);
                }
            }
            return None;
        }
        i = i + 1;
    }
    assert(d.take(d.len() as int) =~= d);
    Some(value as u16)
}

/// The port that a variable's value names, or `default` where the variable
/// is not set or its value is not a port number.
pub open spec fn port_from(value: Option<Seq<char>>, default: u16) -> u16 {
    match value {
        Some(v) => match parsed_u16(v) {
            Some(p) => p,
            None => default,
        },
        None => default,
    }
}

/// The database URL for a database path: `":memory:"` names an in-memory
/// database, any other path a file that is created when missing.
pub open spec fn database_url_of(path: Seq<char>) -> Seq<char> {
    if path == ":memory:"@ {
        "sqlite::memory:"@
    } else {
        "sqlite://"@ + path + "?mode=rwc"@
    }
}

/// The database URL for a database path (see `database_url_of`).
pub fn database_url(path: &str) -> (url: String)
    ensures
        url@ == database_url_of(path@),
{
    if crate::models::text_is(path, ":memory:") {
        String::from_str("sqlite::memory:")
    } else {
        let mut url = String::from_str("sqlite://");
        url.append(path);
        url.append("?mode=rwc");
        url
    }
}

/// The daemon's configuration.
pub struct Config {
    /// Path of the registry database.
    pub db_path: String,
    /// Port of the gRPC server (bound on all interfaces).
    pub grpc_port: u16,
    /// Port of the REST server (bound on all interfaces).
    pub rest_port: u16,
}

/// The port named by a variable's value, or the default.
fn port_or(value: &Option<String>, default: u16) -> (p: u16)
    ensures
        p == port_from(opt_text(*value), default),
{
    match value {
        Some(v) => match parse_u16(v.as_str()) {
            Some(p) => p,
            None => default,
        },
        None => default,
    }
}

impl Config {
    /// The configuration for the values of `FS_REGISTRY_DB`, `FS_GRPC_PORT`
    /// and `FS_REST_PORT` (`None` where a variable is not set).
    pub fn from_values(db: Option<String>, grpc_port: Option<String>, rest_port: Option<String>) -> (c: Self)
        ensures
            c.db_path@ == (match db {
                Some(p) => p@,
                None => default_db_path(),
            }),
            c.grpc_port == port_from(opt_text(grpc_port), DEFAULT_GRPC_PORT),
            c.rest_port == port_from(opt_text(rest_port), DEFAULT_REST_PORT),
    {
        let grpc = port_or(&grpc_port, DEFAULT_GRPC_PORT);
        let rest = port_or(&rest_port, DEFAULT_REST_PORT);
        let db_path = match db {
            Some(p) => p,
            None => String::from_str("/var/lib/freesynergy/registry.db"),
        };
        Config { db_path, grpc_port: grpc, rest_port: rest }
    }
}

} // verus!
