//! Driver-level commands and responses: what the connection writes on the
//! wire, and the typed reading of one response line.

use vstd::prelude::*;

use crate::error::{Error, NutError, spec_code_maps};
use crate::num::{parse_i32, spec_int_text_val, spec_is_int_text};
use crate::text::str_eq;
use crate::tokenizer::spec_join_words;
use crate::var::{
    spec_types_from, spec_variable_parse, Variable, VariableDefinition, VariableRange,
};

verus! {

/// A request the client can issue.
#[derive(Debug, Clone)]
pub enum Command {
    /// A `GET` query with its words.
    Get(Vec<String>),
    /// Passes the login username.
    SetUsername(String),
    /// Passes the login password.
    SetPassword(String),
    /// A `LIST` query with its words.
    List(Vec<String>),
    /// Asks upsd to switch the connection to TLS.
    StartTLS,
    /// Asks for the network protocol version.
    NetworkVersion,
    /// Asks for the server version.
    Version,
    /// Runs an instant command on a device, with an optional argument.
    Run {
        /// The device to drive.
        ups_name: String,
        /// The command to run.
        cmd_name: String,
        /// The optional command argument.
        param: Option<String>,
    },
    /// Gracefully shuts the connection down.
    Logout,
}

/// The network identifier of a command.
pub open spec fn spec_command_name(c: Command) -> Seq<char> {
    match c {
        Command::Get(_) => "GET"@,
        Command::SetUsername(_) => "USERNAME"@,
        Command::SetPassword(_) => "PASSWORD"@,
        Command::List(_) => "LIST"@,
        Command::StartTLS => "STARTTLS"@,
        Command::NetworkVersion => "NETVER"@,
        Command::Version => "VERSION"@,
        Command::Run { .. } => "INSTCMD"@,
        Command::Logout => "LOGOUT"@,
    }
}

/// The arguments of a command, in wire order.
pub open spec fn spec_command_args(c: Command) -> Seq<Seq<char>> {
    match c {
        Command::Get(query) => query.deep_view(),
        Command::SetUsername(u) => seq![u@],
        Command::SetPassword(p) => seq![p@],
        Command::List(query) => query.deep_view(),
        Command::Run { ups_name, cmd_name, param } => seq![ups_name@, cmd_name@] + (match param {
            Some(p) => seq![p@],
            None => Seq::empty(),
        }),
        _ => Seq::empty(),
    }
}

/// The full word list of a command: its name, then its arguments.
pub open spec fn spec_command_words(c: Command) -> Seq<Seq<char>> {
    seq![spec_command_name(c)] + spec_command_args(c)
}

/// Appends clones of all elements of `src` onto `dst`.
pub(crate) fn extend_cloned(dst: &mut Vec<String>, src: &Vec<String>)
    ensures
        final(dst).deep_view() == old(dst).deep_view() + src.deep_view(),
{
    let mut i: usize = 0;
    proof {
        assert(old(dst).deep_view() + src.deep_view().subrange(0, 0) =~= old(dst).deep_view());
    }
    while i < src.len()
        invariant
            i <= src@.len(),
            dst.deep_view() == old(dst).deep_view() + src.deep_view().subrange(0, i as int),
        decreases src@.len() - i,
    {
        let ghost old_view = dst.deep_view();
        dst.push(src[i].clone());
        proof {
            assert(dst.deep_view() =~= old_view.push(src@[i as int]@));
            assert(dst.deep_view() =~= old(dst).deep_view() + src.deep_view().subrange(
                0,
                i as int + 1,
            ));
        }
        i = i + 1;
    }
    proof {
        assert(src.deep_view().subrange(0, src@.len() as int) =~= src.deep_view());
    }
}

impl Command {
    /// The network identifier of the command.
    pub fn name(&self) -> (r: &'static str)
        ensures
            r@ == spec_command_name(*self),
    {
        match self {
            Command::Get(_) => "GET",
            Command::SetUsername(_) => "USERNAME",
            Command::SetPassword(_) => "PASSWORD",
            Command::List(_) => "LIST",
            Command::StartTLS => "STARTTLS",
            Command::NetworkVersion => "NETVER",
            Command::Version => "VERSION",
            Command::Run { .. } => "INSTCMD",
            Command::Logout => "LOGOUT",
        }
    }

    /// The arguments of the command, in wire order.
    pub fn args(&self) -> (r: Vec<String>)
        ensures
            r.deep_view() == spec_command_args(*self),
    {
        let mut out: Vec<String> = Vec::new();
        match self {
            Command::Get(query) => {
                extend_cloned(&mut out, query);
                proof {
                    assert(out.deep_view() =~= spec_command_args(*self));
                }
            },
            Command::SetUsername(u) => {
                out.push(u.clone());
                proof {
                    assert(out.deep_view() =~= spec_command_args(*self));
                }
            },
            Command::SetPassword(p) => {
                out.push(p.clone());
                proof {
                    assert(out.deep_view() =~= spec_command_args(*self));
                }
            },
            Command::List(query) => {
                extend_cloned(&mut out, query);
                proof {
                    assert(out.deep_view() =~= spec_command_args(*self));
                }
            },
            Command::Run { ups_name, cmd_name, param } => {
                out.push(ups_name.clone());
                out.push(cmd_name.clone());
                match param {
                    Some(p) => {
                        out.push(p.clone());
                    },
                    None => {},
                }
                proof {
                    assert(out.deep_view() =~= spec_command_args(*self));
                }
            },
            _ => {
                proof {
                    assert(out.deep_view() =~= spec_command_args(*self));
                }
            },
        }
        out
    }

    /// The full word list of the command: its name, then its arguments.
    pub fn words(&self) -> (r: Vec<String>)
        ensures
            r.deep_view() == spec_command_words(*self),
    {
        let mut out: Vec<String> = Vec::new();
        out.push(self.name().to_owned());
        let args = self.args();
        extend_cloned(&mut out, &args);
        proof {
            assert(out.deep_view() =~= spec_command_words(*self));
        }
        out
    }
}

/// One typed response line from the server.
#[derive(Debug, Clone)]
pub enum Response {
    /// A bare successful acknowledgement.
    Okay,
    /// The beginning of a list response, carrying the echoed query.
    BeginList(String),
    /// The end of a list response, carrying the echoed query.
    EndList(String),
    /// A variable: (name, value).
    Var(String, String),
    /// A device: (name, description).
    Ups(String, String),
    /// A connected client: (IP address).
    Client(String),
    /// A command name.
    Cmd(String),
    /// A command description.
    CmdDesc(String),
    /// A device description.
    UpsDesc(String),
    /// A mutable variable: (name, value).
    Rw(String, String),
    /// A variable description.
    Desc(String),
    /// The number of logins to a device.
    NumLogins(i32),
    /// A variable's type tags: (name, raw tags).
    Type(String, Vec<String>),
    /// A variable range.
    Range(VariableRange),
    /// One value of an enumerated variable.
    Enum(String),
}

/// An error that is a protocol-level generic.
pub open spec fn spec_is_generic_err(r: Error) -> bool {
    r matches Error::Nut(n) && n is Generic
}

/// How one tokenized response line maps to a typed response or an error:
/// the leading word picks the form, missing positional arguments and
/// unreadable numbers are generic errors, `ERR` codes map through
/// [`spec_code_maps`], and an unknown leading word is reported as such.
pub open spec fn spec_from_args(raw: Seq<Seq<char>>, r: Result<Response, Error>) -> bool {
    if raw.len() == 0 {
        r matches Err(e) && spec_is_generic_err(e)
    } else {
        let n = raw.len() as int;
        if raw[0] == "OK"@ {
            r matches Ok(resp) && resp is Okay
        } else if raw[0] == "ERR"@ {
            if n >= 2 {
                r matches Err(e) && (e matches Error::Nut(ne) && spec_code_maps(raw[1], ne))
            } else {
                r matches Err(e) && spec_is_generic_err(e)
            }
        } else if raw[0] == "BEGIN"@ {
            if n >= 2 && raw[1] == "LIST"@ {
                r matches Ok(resp) && (resp matches Response::BeginList(q) && q@ == spec_join_words(
                    raw.subrange(2, n),
                ))
            } else {
                r matches Err(e) && spec_is_generic_err(e)
            }
        } else if raw[0] == "END"@ {
            if n >= 2 && raw[1] == "LIST"@ {
                r matches Ok(resp) && (resp matches Response::EndList(q) && q@ == spec_join_words(
                    raw.subrange(2, n),
                ))
            } else {
                r matches Err(e) && spec_is_generic_err(e)
            }
        } else if raw[0] == "VAR"@ {
            if n >= 4 {
                r matches Ok(resp) && (resp matches Response::Var(name, value) && name@ == raw[2]
                    && value@ == raw[3])
            } else {
                r matches Err(e) && spec_is_generic_err(e)
            }
        } else if raw[0] == "RW"@ {
            if n >= 4 {
                r matches Ok(resp) && (resp matches Response::Rw(name, value) && name@ == raw[2]
                    && value@ == raw[3])
            } else {
                r matches Err(e) && spec_is_generic_err(e)
            }
        } else if raw[0] == "UPS"@ {
            if n >= 3 {
                r matches Ok(resp) && (resp matches Response::Ups(name, description) && name@
                    == raw[1] && description@ == raw[2])
            } else {
                r matches Err(e) && spec_is_generic_err(e)
            }
        } else if raw[0] == "CLIENT"@ {
            if n >= 3 {
                r matches Ok(resp) && (resp matches Response::Client(ip) && ip@ == raw[2])
            } else {
                r matches Err(e) && spec_is_generic_err(e)
            }
        } else if raw[0] == "CMD"@ {
            if n >= 3 {
                r matches Ok(resp) && (resp matches Response::Cmd(name) && name@ == raw[2])
            } else {
                r matches Err(e) && spec_is_generic_err(e)
            }
        } else if raw[0] == "CMDDESC"@ {
            if n >= 4 {
                r matches Ok(resp) && (resp matches Response::CmdDesc(d) && d@ == raw[3])
            } else {
                r matches Err(e) && spec_is_generic_err(e)
            }
        } else if raw[0] == "UPSDESC"@ {
            if n >= 3 {
                r matches Ok(resp) && (resp matches Response::UpsDesc(d) && d@ == raw[2])
            } else {
                r matches Err(e) && spec_is_generic_err(e)
            }
        } else if raw[0] == "DESC"@ {
            if n >= 4 {
                r matches Ok(resp) && (resp matches Response::Desc(d) && d@ == raw[3])
            } else {
                r matches Err(e) && spec_is_generic_err(e)
            }
        } else if raw[0] == "NUMLOGINS"@ {
            if n >= 3 {
                if spec_is_int_text(raw[2]) && i32::MIN <= spec_int_text_val(raw[2]) <= i32::MAX {
                    r matches Ok(resp) && (resp matches Response::NumLogins(v) && v
                        == spec_int_text_val(raw[2]))
                } else {
                    r matches Err(e) && spec_is_generic_err(e)
                }
            } else {
                r matches Err(e) && spec_is_generic_err(e)
            }
        } else if raw[0] == "TYPE"@ {
            if n >= 3 {
                r matches Ok(resp) && (resp matches Response::Type(name, types) && name@ == raw[2]
                    && types.deep_view() == raw.subrange(3, n))
            } else {
                r matches Err(e) && spec_is_generic_err(e)
            }
        } else if raw[0] == "RANGE"@ {
            if n >= 5 {
                r matches Ok(resp) && (resp matches Response::Range(g) && g.0@ == raw[3] && g.1@
                    == raw[4])
            } else {
                r matches Err(e) && spec_is_generic_err(e)
            }
        } else if raw[0] == "ENUM"@ {
            if n >= 4 {
                r matches Ok(resp) && (resp matches Response::Enum(v) && v@ == raw[3])
            } else {
                r matches Err(e) && spec_is_generic_err(e)
            }
        } else {
            r matches Err(e) && (e matches Error::Nut(ne) && (ne
                matches NutError::UnknownResponseType(t) && t@ == raw[0]))
        }
    }
}

impl Response {
    /// Reads one tokenized response line into a typed response, per
    /// [`spec_from_args`].
    pub fn from_args(args: Vec<String>) -> (r: Result<Response, Error>)
        ensures
            spec_from_args(args.deep_view(), r),
    {
        proof {
            assert(forall|i: int| 0 <= i < args@.len() ==> args.deep_view()[i] == args@[i]@);
        }
        let n = args.len();
        if n == 0 {
            return Err(Error::generic("Parsing server response failed: empty line"));
        }
        let head = args[0].as_str();
        if str_eq(head, "OK") {
            Ok(Response::Okay)
        } else if str_eq(head, "ERR") {
            if n >= 2 {
                Err(Error::Nut(NutError::from_code(args[1].as_str())))
            } else {
                Err(Error::generic("Unspecified server error"))
            }
        } else if str_eq(head, "BEGIN") {
            if n >= 2 && str_eq(args[1].as_str(), "LIST") {
                let tail = tail_from(&args, 2);
                let q = crate::tokenizer::join_words(&tail);
                Ok(Response::BeginList(q))
            } else {
                Err(Error::generic("Unexpected BEGIN in response"))
            }
        } else if str_eq(head, "END") {
            if n >= 2 && str_eq(args[1].as_str(), "LIST") {
                let tail = tail_from(&args, 2);
                let q = crate::tokenizer::join_words(&tail);
                Ok(Response::EndList(q))
            } else {
                Err(Error::generic("Unexpected END in response"))
            }
        } else if str_eq(head, "VAR") {
            if n >= 4 {
                Ok(Response::Var(args[2].clone(), args[3].clone()))
            } else {
                Err(Error::generic("Incomplete VAR response"))
            }
        } else if str_eq(head, "RW") {
            if n >= 4 {
                Ok(Response::Rw(args[2].clone(), args[3].clone()))
            } else {
                Err(Error::generic("Incomplete RW response"))
            }
        } else if str_eq(head, "UPS") {
            if n >= 3 {
                Ok(Response::Ups(args[1].clone(), args[2].clone()))
            } else {
                Err(Error::generic("Incomplete UPS response"))
            }
        } else if str_eq(head, "CLIENT") {
            if n >= 3 {
                Ok(Response::Client(args[2].clone()))
            } else {
                Err(Error::generic("Incomplete CLIENT response"))
            }
        } else if str_eq(head, "CMD") {
            if n >= 3 {
                Ok(Response::Cmd(args[2].clone()))
            } else {
                Err(Error::generic("Incomplete CMD response"))
            }
        } else if str_eq(head, "CMDDESC") {
            if n >= 4 {
                Ok(Response::CmdDesc(args[3].clone()))
            } else {
                Err(Error::generic("Incomplete CMDDESC response"))
            }
        } else if str_eq(head, "UPSDESC") {
            if n >= 3 {
                Ok(Response::UpsDesc(args[2].clone()))
            } else {
                Err(Error::generic("Incomplete UPSDESC response"))
            }
        } else if str_eq(head, "DESC") {
            if n >= 4 {
                Ok(Response::Desc(args[3].clone()))
            } else {
                Err(Error::generic("Incomplete DESC response"))
            }
        } else if str_eq(head, "NUMLOGINS") {
            if n >= 3 {
                match parse_i32(args[2].as_str()) {
                    Some(v) => Ok(Response::NumLogins(v)),
                    None => Err(Error::generic("Invalid NUMLOGINS number in response")),
                }
            } else {
                Err(Error::generic("Incomplete NUMLOGINS response"))
            }
        } else if str_eq(head, "TYPE") {
            if n >= 3 {
                let types = tail_from(&args, 3);
                Ok(Response::Type(args[2].clone(), types))
            } else {
                Err(Error::generic("Incomplete TYPE response"))
            }
        } else if str_eq(head, "RANGE") {
            if n >= 5 {
                Ok(Response::Range(VariableRange(args[3].clone(), args[4].clone())))
            } else {
                Err(Error::generic("Incomplete RANGE response"))
            }
        } else if str_eq(head, "ENUM") {
            if n >= 4 {
                Ok(Response::Enum(args[3].clone()))
            } else {
                Err(Error::generic("Incomplete ENUM response"))
            }
        } else {
            Err(Error::Nut(NutError::UnknownResponseType(args[0].clone())))
        }
    }

    /// Demands a bare acknowledgement.
    pub fn expect_ok(&self) -> (r: Result<(), Error>)
        ensures
            match r {
                Ok(_) => *self is Okay,
                Err(e) => !(*self is Okay) && e == Error::Nut(NutError::UnexpectedResponse),
            },
    {
        match self {
            Response::Okay => Ok(()),
            _ => Err(Error::Nut(NutError::UnexpectedResponse)),
        }
    }

    /// Demands the beginning of a list whose echoed query is exactly the
    /// joined expected words.
    pub fn expect_begin_list(&self, expected: &Vec<String>) -> (r: Result<(), Error>)
        ensures
            match r {
                Ok(_) => *self matches Response::BeginList(q) && q@ == spec_join_words(
                    expected.deep_view(),
                ),
                Err(e) => {
                    &&& !(*self matches Response::BeginList(q) && q@ == spec_join_words(
                        expected.deep_view(),
                    ))
                    &&& e == Error::Nut(NutError::UnexpectedResponse)
                },
            },
    {
        let joined = crate::tokenizer::join_words(expected);
        match self {
            Response::BeginList(q) => {
                if str_eq(q.as_str(), joined.as_str()) {
                    Ok(())
                } else {
                    Err(Error::Nut(NutError::UnexpectedResponse))
                }
            },
            _ => Err(Error::Nut(NutError::UnexpectedResponse)),
        }
    }

    /// Demands the end of a list whose echoed query is exactly the joined
    /// expected words.
    pub fn expect_end_list(&self, expected: &Vec<String>) -> (r: Result<(), Error>)
        ensures
            match r {
                Ok(_) => *self matches Response::EndList(q) && q@ == spec_join_words(
                    expected.deep_view(),
                ),
                Err(e) => {
                    &&& !(*self matches Response::EndList(q) && q@ == spec_join_words(
                        expected.deep_view(),
                    ))
                    &&& e == Error::Nut(NutError::UnexpectedResponse)
                },
            },
    {
        let joined = crate::tokenizer::join_words(expected);
        match self {
            Response::EndList(q) => {
                if str_eq(q.as_str(), joined.as_str()) {
                    Ok(())
                } else {
                    Err(Error::Nut(NutError::UnexpectedResponse))
                }
            },
            _ => Err(Error::Nut(NutError::UnexpectedResponse)),
        }
    }

    /// Demands a variable row and parses it.
    pub fn expect_var(&self) -> (r: Result<Variable, Error>)
        ensures
            match r {
                Ok(v) => *self matches Response::Var(name, value) && spec_variable_parse(
                    name@,
                    value@,
                    v,
                ),
                Err(e) => !(*self is Var) && e == Error::Nut(NutError::UnexpectedResponse),
            },
    {
        match self {
            Response::Var(name, value) => Ok(Variable::parse(name.as_str(), value.clone())),
            _ => Err(Error::Nut(NutError::UnexpectedResponse)),
        }
    }

    /// Demands a mutable-variable row and parses it.
    pub fn expect_rw(&self) -> (r: Result<Variable, Error>)
        ensures
            match r {
                Ok(v) => *self matches Response::Rw(name, value) && spec_variable_parse(
                    name@,
                    value@,
                    v,
                ),
                Err(e) => !(*self is Rw) && e == Error::Nut(NutError::UnexpectedResponse),
            },
    {
        match self {
            Response::Rw(name, value) => Ok(Variable::parse(name.as_str(), value.clone())),
            _ => Err(Error::Nut(NutError::UnexpectedResponse)),
        }
    }

    /// Demands a device row: (name, description).
    pub fn expect_ups(&self) -> (r: Result<(String, String), Error>)
        ensures
            match r {
                Ok(p) => *self matches Response::Ups(name, d) && p.0@ == name@ && p.1@ == d@,
                Err(e) => !(*self is Ups) && e == Error::Nut(NutError::UnexpectedResponse),
            },
    {
        match self {
            Response::Ups(name, d) => Ok((name.clone(), d.clone())),
            _ => Err(Error::Nut(NutError::UnexpectedResponse)),
        }
    }

    /// Demands a client row: the client IP.
    pub fn expect_client(&self) -> (r: Result<String, Error>)
        ensures
            match r {
                Ok(ip) => *self matches Response::Client(c) && ip@ == c@,
                Err(e) => !(*self is Client) && e == Error::Nut(NutError::UnexpectedResponse),
            },
    {
        match self {
            Response::Client(c) => Ok(c.clone()),
            _ => Err(Error::Nut(NutError::UnexpectedResponse)),
        }
    }

    /// Demands a command row: the command name.
    pub fn expect_cmd(&self) -> (r: Result<String, Error>)
        ensures
            match r {
                Ok(name) => *self matches Response::Cmd(c) && name@ == c@,
                Err(e) => !(*self is Cmd) && e == Error::Nut(NutError::UnexpectedResponse),
            },
    {
        match self {
            Response::Cmd(c) => Ok(c.clone()),
            _ => Err(Error::Nut(NutError::UnexpectedResponse)),
        }
    }

    /// Demands a command description.
    pub fn expect_cmddesc(&self) -> (r: Result<String, Error>)
        ensures
            match r {
                Ok(d) => *self matches Response::CmdDesc(c) && d@ == c@,
                Err(e) => !(*self is CmdDesc) && e == Error::Nut(NutError::UnexpectedResponse),
            },
    {
        match self {
            Response::CmdDesc(c) => Ok(c.clone()),
            _ => Err(Error::Nut(NutError::UnexpectedResponse)),
        }
    }

    /// Demands a device description.
    pub fn expect_upsdesc(&self) -> (r: Result<String, Error>)
        ensures
            match r {
                Ok(d) => *self matches Response::UpsDesc(c) && d@ == c@,
                Err(e) => !(*self is UpsDesc) && e == Error::Nut(NutError::UnexpectedResponse),
            },
    {
        match self {
            Response::UpsDesc(c) => Ok(c.clone()),
            _ => Err(Error::Nut(NutError::UnexpectedResponse)),
        }
    }

    /// Demands a variable description.
    pub fn expect_desc(&self) -> (r: Result<String, Error>)
        ensures
            match r {
                Ok(d) => *self matches Response::Desc(c) && d@ == c@,
                Err(e) => !(*self is Desc) && e == Error::Nut(NutError::UnexpectedResponse),
            },
    {
        match self {
            Response::Desc(c) => Ok(c.clone()),
            _ => Err(Error::Nut(NutError::UnexpectedResponse)),
        }
    }

    /// Demands a login count.
    pub fn expect_numlogins(&self) -> (r: Result<i32, Error>)
        ensures
            match r {
                Ok(v) => *self matches Response::NumLogins(n) && v == n,
                Err(e) => !(*self is NumLogins) && e == Error::Nut(NutError::UnexpectedResponse),
            },
    {
        match self {
            Response::NumLogins(n) => Ok(*n),
            _ => Err(Error::Nut(NutError::UnexpectedResponse)),
        }
    }

    /// Demands a type row and parses its tags into a definition.
    pub fn expect_type(&self) -> (r: Result<VariableDefinition, Error>)
        ensures
            match r {
                Ok(d) => *self matches Response::Type(name, types) && {
                    &&& spec_types_from(types.deep_view(), (false, false, None, false, false))
                        matches Some(st)
                    &&& d.spec_name() == name@
                    &&& d.spec_mutable() == st.0
                    &&& d.spec_enumerated() == st.1
                    &&& d.spec_string_len() == st.2
                    &&& d.spec_range() == st.3
                    &&& d.spec_number() == st.4
                },
                Err(e) => {
                    ||| !(*self is Type) && e == Error::Nut(NutError::UnexpectedResponse)
                    ||| *self matches Response::Type(_, types) && spec_types_from(
                        types.deep_view(),
                        (false, false, None, false, false),
                    ) is None && spec_is_generic_err(e)
                },
            },
    {
        match self {
            Response::Type(name, types) => VariableDefinition::parse(name.as_str(), types),
            _ => Err(Error::Nut(NutError::UnexpectedResponse)),
        }
    }

    /// Demands a range row.
    pub fn expect_range(&self) -> (r: Result<VariableRange, Error>)
        ensures
            match r {
                Ok(g) => *self matches Response::Range(h) && g.0@ == h.0@ && g.1@ == h.1@,
                Err(e) => !(*self is Range) && e == Error::Nut(NutError::UnexpectedResponse),
            },
    {
        match self {
            Response::Range(h) => Ok(VariableRange(h.0.clone(), h.1.clone())),
            _ => Err(Error::Nut(NutError::UnexpectedResponse)),
        }
    }

    /// Demands an enumerated-value row.
    pub fn expect_enum(&self) -> (r: Result<String, Error>)
        ensures
            match r {
                Ok(v) => *self matches Response::Enum(c) && v@ == c@,
                Err(e) => !(*self is Enum) && e == Error::Nut(NutError::UnexpectedResponse),
            },
    {
        match self {
            Response::Enum(c) => Ok(c.clone()),
            _ => Err(Error::Nut(NutError::UnexpectedResponse)),
        }
    }
}

/// Clones the words of `src` from position `k` on.
fn tail_from(src: &Vec<String>, k: usize) -> (r: Vec<String>)
    requires
        k <= src@.len(),
    ensures
        r.deep_view() == src.deep_view().subrange(k as int, src@.len() as int),
{
    let mut out: Vec<String> = Vec::new();
    let mut i: usize = k;
    proof {
        assert(out.deep_view() =~= src.deep_view().subrange(k as int, k as int));
    }
    while i < src.len()
        invariant
            k <= i <= src@.len(),
            out.deep_view() == src.deep_view().subrange(k as int, i as int),
        decreases src@.len() - i,
    {
        let ghost old_view = out.deep_view();
        out.push(src[i].clone());
        proof {
            assert(out.deep_view() =~= old_view.push(src@[i as int]@));
            assert(out.deep_view() =~= src.deep_view().subrange(k as int, i as int + 1));
        }
        i = i + 1;
    }
    out
}

} // verus!
