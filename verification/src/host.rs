//! Host naming: the `[<upsname>][@<hostname>][:<port>]` parser and the
//! host specification handed to the transport.

use vstd::prelude::*;

use crate::error::Error;
use crate::num::{parse_u16, spec_all_digits, spec_digits_val, spec_u64_text, u64_text};
use crate::text::push_char;

verus! {

/// The default upsd hostname.
pub const DEFAULT_HOSTNAME: &'static str = "localhost";

/// The default upsd port.
pub const DEFAULT_PORT: u16 = 3493;

/// Whether `s` holds `c` anywhere.
pub open spec fn spec_has_char(s: Seq<char>, c: char) -> bool {
    exists|i: int| 0 <= i < s.len() && s[i] == c
}

/// Whether `i` is the first position of `c` in `s`.
pub open spec fn spec_first_index_of(s: Seq<char>, c: char, i: int) -> bool {
    0 <= i < s.len() && s[i] == c && forall|j: int| 0 <= j < i ==> s[j] != c
}

/// Finds the first position of a character.
pub fn find_char(s: &str, c: char) -> (r: Option<usize>)
    ensures
        match r {
            Some(i) => spec_first_index_of(s@, c, i as int),
            None => !spec_has_char(s@, c),
        },
{
    let n = s.unicode_len();
    let mut i: usize = 0;
    while i < n
        invariant
            i <= n,
            n == s@.len(),
            forall|j: int| 0 <= j < i ==> s@[j] != c,
        decreases n - i,
    {
        if s.get_char(i) == c {
            return Some(i);
        }
        i = i + 1;
    }
    None
}

/// Connection information for a upsd server: an optional UPS name, a
/// hostname and a port.
#[derive(Debug, Clone, PartialEq, Eq)]
pub struct UpsdName {
    /// The name of the UPS device, if given.
    pub upsname: Option<String>,
    /// The hostname of the upsd server.
    pub hostname: String,
    /// The port of the upsd server.
    pub port: u16,
}

/// The digits of a port numeral: an optional leading `+` is allowed.
pub open spec fn spec_port_digits(t: Seq<char>) -> Seq<char> {
    if t.len() > 0 && t[0] == '+' {
        t.drop_first()
    } else {
        t
    }
}

/// Parses a port numeral with an optional leading `+`. Returns `None`
/// exactly when the digits are not all digits or the value is over
/// 65535.
fn parse_port(t: &str) -> (r: Option<u16>)
    ensures
        match r {
            Some(v) => spec_all_digits(spec_port_digits(t@)) && v == spec_digits_val(
                spec_port_digits(t@),
            ),
            None => !spec_all_digits(spec_port_digits(t@)) || spec_digits_val(
                spec_port_digits(t@),
            ) > u16::MAX,
        },
{
    let n = t.unicode_len();
    if n > 0 && t.get_char(0) == '+' {
        let rest = t.substring_char(1, n);
        proof {
            assert(rest@ =~= t@.drop_first());
        }
        parse_u16(rest)
    } else {
        parse_u16(t)
    }
}

/// How a raw server name maps to its parts, with the given defaults: an
/// optional `<upsname>@` before the hostname, an optional `:<port>` after
/// it, and a bare token read as the UPS name alone. A `:<port>` that is
/// not a number (an optional leading `+` is allowed) up to 65535 is
/// rejected with a generic error, and so is an empty name, which holds
/// none of the three components.
pub open spec fn spec_upsd_parse(
    value: Seq<char>,
    dh: Seq<char>,
    dp: u16,
    r: Result<UpsdName, Error>,
) -> bool {
    if spec_has_char(value, ':') {
        exists|ci: int|
            {
                &&& #[trigger] spec_first_index_of(value, ':', ci)
                &&& {
                    let prefix = value.subrange(0, ci);
                    let ptext = spec_port_digits(value.subrange(ci + 1, value.len() as int));
                    if spec_all_digits(ptext) && spec_digits_val(ptext) <= u16::MAX {
                        if spec_has_char(prefix, '@') {
                            exists|ai: int|
                                {
                                    &&& #[trigger] spec_first_index_of(prefix, '@', ai)
                                    &&& r matches Ok(u)
                                    &&& u.upsname matches Some(s) && s@ == prefix.subrange(0, ai)
                                    &&& u.hostname@ == prefix.subrange(ai + 1, prefix.len() as int)
                                    &&& u.port == spec_digits_val(ptext)
                                }
                        } else {
                            &&& r matches Ok(u)
                            &&& u.upsname is None
                            &&& u.hostname@ == prefix
                            &&& u.port == spec_digits_val(ptext)
                        }
                    } else {
                        r matches Err(e) && e matches Error::Nut(n) && n is Generic
                    }
                }
            }
    } else if spec_has_char(value, '@') {
        exists|ai: int|
            {
                &&& #[trigger] spec_first_index_of(value, '@', ai)
                &&& r matches Ok(u)
                &&& u.upsname matches Some(s) && s@ == value.subrange(0, ai)
                &&& u.hostname@ == value.subrange(ai + 1, value.len() as int)
                &&& u.port == dp
            }
    } else if value.len() == 0 {
        r matches Err(e) && e matches Error::Nut(n) && n is Generic
    } else {
        &&& r matches Ok(u)
        &&& u.upsname matches Some(s) && s@ == value
        &&& u.hostname@ == dh
        &&& u.port == dp
    }
}

/// The text of a server name: `upsname@` when present, then
/// `hostname:port`.
pub open spec fn spec_upsd_text(u: UpsdName) -> Seq<char> {
    (match u.upsname {
        Some(s) => s@ + seq!['@'],
        None => Seq::empty(),
    }) + u.hostname@ + seq![':'] + spec_u64_text(u.port as int)
}

impl UpsdName {
    /// Parses a server name with the given defaults, per
    /// [`spec_upsd_parse`].
    pub fn parse_with_defaults(value: &str, default_hostname: &str, default_port: u16) -> (r:
        Result<UpsdName, Error>)
        ensures
            spec_upsd_parse(value@, default_hostname@, default_port, r),
    {
        let n = value.unicode_len();
        match find_char(value, ':') {
            Some(ci) => {
                let prefix = value.substring_char(0, ci);
                let ptext = value.substring_char(ci + 1, n);
                proof {
                    assert(prefix@ =~= value@.subrange(0, ci as int));
                    assert(ptext@ =~= value@.subrange(ci as int + 1, value@.len() as int));
                }
                match parse_port(ptext) {
                    Some(port) => {
                        match find_char(prefix, '@') {
                            Some(ai) => {
                                let upsname = prefix.substring_char(0, ai);
                                let hostname = prefix.substring_char(ai + 1, prefix.unicode_len());
                                proof {
                                    assert(upsname@ =~= prefix@.subrange(0, ai as int));
                                    assert(hostname@ =~= prefix@.subrange(
                                        ai as int + 1,
                                        prefix@.len() as int,
                                    ));
                                }
                                Ok(
                                    UpsdName {
                                        upsname: Some(upsname.to_owned()),
                                        hostname: hostname.to_owned(),
                                        port,
                                    },
                                )
                            },
                            None => Ok(
                                UpsdName { upsname: None, hostname: prefix.to_owned(), port },
                            ),
                        }
                    },
                    None => {
                        proof {
                            if spec_all_digits(ptext@) {
                                crate::num::lemma_digits_val_nonneg(ptext@);
                            }
                        }
                        Err(Error::generic("Invalid port number"))
                    },
                }
            },
            None => {
                match find_char(value, '@') {
                    Some(ai) => {
                        let upsname = value.substring_char(0, ai);
                        let hostname = value.substring_char(ai + 1, n);
                        proof {
                            assert(upsname@ =~= value@.subrange(0, ai as int));
                            assert(hostname@ =~= value@.subrange(
                                ai as int + 1,
                                value@.len() as int,
                            ));
                        }
                        Ok(
                            UpsdName {
                                upsname: Some(upsname.to_owned()),
                                hostname: hostname.to_owned(),
                                port: default_port,
                            },
                        )
                    },
                    None => {
                        if n == 0 {
                            return Err(Error::generic("Empty upsd server name"));
                        }
                        Ok(
                            UpsdName {
                                upsname: Some(value.to_owned()),
                                hostname: default_hostname.to_owned(),
                                port: default_port,
                            },
                        )
                    },
                }
            },
        }
    }

    /// Parses a server name with the standard defaults, per
    /// [`spec_upsd_parse`].
    pub fn parse(value: &str) -> (r: Result<UpsdName, Error>)
        ensures
            spec_upsd_parse(value@, "localhost"@, 3493u16, r),
    {
        UpsdName::parse_with_defaults(value, DEFAULT_HOSTNAME, DEFAULT_PORT)
    }

    /// The text of this server name, per [`spec_upsd_text`].
    pub fn to_text(&self) -> (r: String)
        ensures
            r@ == spec_upsd_text(*self),
    {
        let mut r = String::new();
        match &self.upsname {
            Some(s) => {
                r.append(s.as_str());
                push_char(&mut r, '@');
            },
            None => {},
        }
        r.append(self.hostname.as_str());
        push_char(&mut r, ':');
        let p = u64_text(self.port as u64);
        r.append(p.as_str());
        proof {
            assert(r@ =~= spec_upsd_text(*self));
        }
        r
    }

    /// The host specification for this server name.
    pub fn to_host(&self) -> (r: Host)
        ensures
            r matches Host::Tcp(t) && t.hostname@ == self.hostname@ && t.port == self.port,
    {
        Host::Tcp(TcpHost { hostname: self.hostname.clone(), port: self.port })
    }
}

impl Default for UpsdName {
    /// The default server name: no UPS name, `localhost:3493`.
    fn default() -> (r: UpsdName)
        ensures
            r.upsname is None,
            r.hostname@ == "localhost"@,
            r.port == 3493,
    {
        UpsdName { upsname: None, hostname: DEFAULT_HOSTNAME.to_owned(), port: DEFAULT_PORT }
    }
}

/// The UPS name of a server name, required: fails with a generic error
/// when none was given.
pub fn get_ups_name(server: &UpsdName) -> (r: Result<String, Error>)
    ensures
        match r {
            Ok(s) => server.upsname matches Some(u) && s@ == u@,
            Err(e) => server.upsname is None && (e matches Error::Nut(n) && n is Generic),
        },
{
    match &server.upsname {
        Some(s) => Ok(s.clone()),
        None => Err(Error::generic("ups name must be specified")),
    }
}

/// A host specification.
#[derive(Debug, Clone, PartialEq, Eq)]
pub enum Host {
    /// A TCP host: hostname and port.
    Tcp(TcpHost),
}

/// A TCP hostname and port, kept as given so that strict TLS can verify
/// the name.
#[derive(Debug, Clone, PartialEq, Eq)]
pub struct TcpHost {
    /// The hostname as given.
    pub hostname: String,
    /// The TCP port.
    pub port: u16,
}

impl Default for Host {
    /// The default host: `localhost:3493`.
    fn default() -> (r: Host)
        ensures
            r matches Host::Tcp(t) && t.hostname@ == "localhost"@ && t.port == 3493,
    {
        Host::Tcp(TcpHost { hostname: DEFAULT_HOSTNAME.to_owned(), port: DEFAULT_PORT })
    }
}

impl Host {
    /// The hostname as given.
    pub fn hostname(&self) -> (r: Option<String>)
        ensures
            match *self {
                Host::Tcp(t) => r matches Some(h) && h@ == t.hostname@,
            },
    {
        match self {
            Host::Tcp(t) => Some(t.hostname.clone()),
        }
    }
}

} // verus!
