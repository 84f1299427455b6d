//! The word vocabulary of the NUT network protocol: a closed set of
//! keywords plus the two meta-tokens `Arg` (any non-reserved token) and
//! `EOL` (end of line).

use vstd::prelude::*;

use crate::text::str_eq;

verus! {

/// One word of the protocol vocabulary.
///
/// The keyword spellings are case-sensitive on the wire; a few variants
/// carry a `Kw` suffix so that their names stay clear of ubiquitous Rust
/// names.
#[derive(Clone, Copy, Debug, PartialEq, Eq, Structural)]
pub enum Word {
    /// Any token that is not a reserved keyword.
    Arg,
    /// End of line.
    Eol,
    /// `BEGIN`
    Begin,
    /// `CLIENT`
    Client,
    /// `CMD`
    Cmd,
    /// `CMDDESC`
    CmdDesc,
    /// `DESC`
    Desc,
    /// `END`
    End,
    /// `ENUM`
    Enum,
    /// `ERR`
    ErrKw,
    /// `FSD`
    Fsd,
    /// `FSD-SET`
    FsdSet,
    /// `GET`
    Get,
    /// `Goodbye` (mixed case, as the server spells it)
    Goodbye,
    /// `HELP`
    Help,
    /// `INSTCMD`
    InstCmd,
    /// `LIST`
    List,
    /// `LOGIN`
    Login,
    /// `LOGOUT`
    Logout,
    /// `MASTER`
    Master,
    /// `NETVER`
    NetVer,
    /// `NUMLOGINS`
    NumLogins,
    /// `OK`
    OkKw,
    /// `PASSWORD`
    Password,
    /// `RANGE`
    Range,
    /// `RW`
    Rw,
    /// `SET`
    SetKw,
    /// `STARTTLS`
    StartTls,
    /// `TYPE`
    Type,
    /// `UPS`
    Ups,
    /// `UPSDESC`
    UpsDesc,
    /// `USERNAME`
    Username,
    /// `VAR`
    Var,
    /// `VERSION`
    Version,
}

/// The word that a present raw token stands for: its keyword when the
/// spelling matches exactly, otherwise `Arg`. Never `Eol`.
pub open spec fn spec_word_of(t: Seq<char>) -> Word {
    if t == "BEGIN"@ {
        Word::Begin
    } else if t == "CLIENT"@ {
        Word::Client
    } else if t == "CMD"@ {
        Word::Cmd
    } else if t == "CMDDESC"@ {
        Word::CmdDesc
    } else if t == "DESC"@ {
        Word::Desc
    } else if t == "END"@ {
        Word::End
    } else if t == "ENUM"@ {
        Word::Enum
    } else if t == "ERR"@ {
        Word::ErrKw
    } else if t == "FSD"@ {
        Word::Fsd
    } else if t == "FSD-SET"@ {
        Word::FsdSet
    } else if t == "GET"@ {
        Word::Get
    } else if t == "Goodbye"@ {
        Word::Goodbye
    } else if t == "HELP"@ {
        Word::Help
    } else if t == "INSTCMD"@ {
        Word::InstCmd
    } else if t == "LIST"@ {
        Word::List
    } else if t == "LOGIN"@ {
        Word::Login
    } else if t == "LOGOUT"@ {
        Word::Logout
    } else if t == "MASTER"@ {
        Word::Master
    } else if t == "NETVER"@ {
        Word::NetVer
    } else if t == "NUMLOGINS"@ {
        Word::NumLogins
    } else if t == "OK"@ {
        Word::OkKw
    } else if t == "PASSWORD"@ {
        Word::Password
    } else if t == "RANGE"@ {
        Word::Range
    } else if t == "RW"@ {
        Word::Rw
    } else if t == "SET"@ {
        Word::SetKw
    } else if t == "STARTTLS"@ {
        Word::StartTls
    } else if t == "TYPE"@ {
        Word::Type
    } else if t == "UPS"@ {
        Word::Ups
    } else if t == "UPSDESC"@ {
        Word::UpsDesc
    } else if t == "USERNAME"@ {
        Word::Username
    } else if t == "VAR"@ {
        Word::Var
    } else if t == "VERSION"@ {
        Word::Version
    } else {
        Word::Arg
    }
}

/// The wire spelling of a word; `Arg` and `Eol` have none.
pub open spec fn spec_word_text(w: Word) -> Option<Seq<char>> {
    match w {
        Word::Arg => None,
        Word::Eol => None,
        Word::Begin => Some("BEGIN"@),
        Word::Client => Some("CLIENT"@),
        Word::Cmd => Some("CMD"@),
        Word::CmdDesc => Some("CMDDESC"@),
        Word::Desc => Some("DESC"@),
        Word::End => Some("END"@),
        Word::Enum => Some("ENUM"@),
        Word::ErrKw => Some("ERR"@),
        Word::Fsd => Some("FSD"@),
        Word::FsdSet => Some("FSD-SET"@),
        Word::Get => Some("GET"@),
        Word::Goodbye => Some("Goodbye"@),
        Word::Help => Some("HELP"@),
        Word::InstCmd => Some("INSTCMD"@),
        Word::List => Some("LIST"@),
        Word::Login => Some("LOGIN"@),
        Word::Logout => Some("LOGOUT"@),
        Word::Master => Some("MASTER"@),
        Word::NetVer => Some("NETVER"@),
        Word::NumLogins => Some("NUMLOGINS"@),
        Word::OkKw => Some("OK"@),
        Word::Password => Some("PASSWORD"@),
        Word::Range => Some("RANGE"@),
        Word::Rw => Some("RW"@),
        Word::SetKw => Some("SET"@),
        Word::StartTls => Some("STARTTLS"@),
        Word::Type => Some("TYPE"@),
        Word::Ups => Some("UPS"@),
        Word::UpsDesc => Some("UPSDESC"@),
        Word::Username => Some("USERNAME"@),
        Word::Var => Some("VAR"@),
        Word::Version => Some("VERSION"@),
    }
}

impl Word {
    /// Decodes a raw token: an absent token is `Eol`, a keyword spelling is
    /// its keyword, anything else is `Arg`.
    pub fn decode(raw: Option<&str>) -> (w: Word)
        ensures
            w == match raw {
                Option::None => Word::Eol,
                Option::Some(t) => spec_word_of(t@),
            },
    {
        match raw {
            Option::None => Word::Eol,
            Option::Some(t) => word_of_token(t),
        }
    }

    /// Encodes the word into its wire spelling; `Arg` and `Eol` have none.
    pub fn encode(&self) -> (r: Option<&'static str>)
        ensures
            match spec_word_text(*self) {
                Option::None => r is None,
                Option::Some(t) => r matches Option::Some(s) && s@ == t,
            },
    {
        match self {
            Word::Arg => Option::None,
            Word::Eol => Option::None,
            Word::Begin => Option::Some("BEGIN"),
            Word::Client => Option::Some("CLIENT"),
            Word::Cmd => Option::Some("CMD"),
            Word::CmdDesc => Option::Some("CMDDESC"),
            Word::Desc => Option::Some("DESC"),
            Word::End => Option::Some("END"),
            Word::Enum => Option::Some("ENUM"),
            Word::ErrKw => Option::Some("ERR"),
            Word::Fsd => Option::Some("FSD"),
            Word::FsdSet => Option::Some("FSD-SET"),
            Word::Get => Option::Some("GET"),
            Word::Goodbye => Option::Some("Goodbye"),
            Word::Help => Option::Some("HELP"),
            Word::InstCmd => Option::Some("INSTCMD"),
            Word::List => Option::Some("LIST"),
            Word::Login => Option::Some("LOGIN"),
            Word::Logout => Option::Some("LOGOUT"),
            Word::Master => Option::Some("MASTER"),
            Word::NetVer => Option::Some("NETVER"),
            Word::NumLogins => Option::Some("NUMLOGINS"),
            Word::OkKw => Option::Some("OK"),
            Word::Password => Option::Some("PASSWORD"),
            Word::Range => Option::Some("RANGE"),
            Word::Rw => Option::Some("RW"),
            Word::SetKw => Option::Some("SET"),
            Word::StartTls => Option::Some("STARTTLS"),
            Word::Type => Option::Some("TYPE"),
            Word::Ups => Option::Some("UPS"),
            Word::UpsDesc => Option::Some("UPSDESC"),
            Word::Username => Option::Some("USERNAME"),
            Word::Var => Option::Some("VAR"),
            Word::Version => Option::Some("VERSION"),
        }
    }

    /// Whether this pattern word matches a slot of a decoded line: `Arg`
    /// matches any present word, a keyword matches exactly itself, and
    /// `Eol` matches only an absent slot.
    pub fn matches(&self, slot: Option<&Word>) -> (r: bool)
        ensures
            r == match slot {
                Option::None => *self == Word::Eol,
                Option::Some(w) => if *self == Word::Arg {
                    *w != Word::Eol
                } else {
                    *self == *w
                },
            },
    {
        match slot {
            Option::None => *self == Word::Eol,
            Option::Some(w) => {
                if *self == Word::Arg {
                    *w != Word::Eol
                } else {
                    *self == *w
                }
            },
        }
    }
}

/// Decodes one present raw token into its word.
pub fn word_of_token(t: &str) -> (w: Word)
    ensures
        w == spec_word_of(t@),
{
    if str_eq(t, "BEGIN") {
        Word::Begin
    } else if str_eq(t, "CLIENT") {
        Word::Client
    } else if str_eq(t, "CMD") {
        Word::Cmd
    } else if str_eq(t, "CMDDESC") {
        Word::CmdDesc
    } else if str_eq(t, "DESC") {
        Word::Desc
    } else if str_eq(t, "END") {
        Word::End
    } else if str_eq(t, "ENUM") {
        Word::Enum
    } else if str_eq(t, "ERR") {
        Word::ErrKw
    } else if str_eq(t, "FSD") {
        Word::Fsd
    } else if str_eq(t, "FSD-SET") {
        Word::FsdSet
    } else if str_eq(t, "GET") {
        Word::Get
    } else if str_eq(t, "Goodbye") {
        Word::Goodbye
    } else if str_eq(t, "HELP") {
        Word::Help
    } else if str_eq(t, "INSTCMD") {
        Word::InstCmd
    } else if str_eq(t, "LIST") {
        Word::List
    } else if str_eq(t, "LOGIN") {
        Word::Login
    } else if str_eq(t, "LOGOUT") {
        Word::Logout
    } else if str_eq(t, "MASTER") {
        Word::Master
    } else if str_eq(t, "NETVER") {
        Word::NetVer
    } else if str_eq(t, "NUMLOGINS") {
        Word::NumLogins
    } else if str_eq(t, "OK") {
        Word::OkKw
    } else if str_eq(t, "PASSWORD") {
        Word::Password
    } else if str_eq(t, "RANGE") {
        Word::Range
    } else if str_eq(t, "RW") {
        Word::Rw
    } else if str_eq(t, "SET") {
        Word::SetKw
    } else if str_eq(t, "STARTTLS") {
        Word::StartTls
    } else if str_eq(t, "TYPE") {
        Word::Type
    } else if str_eq(t, "UPS") {
        Word::Ups
    } else if str_eq(t, "UPSDESC") {
        Word::UpsDesc
    } else if str_eq(t, "USERNAME") {
        Word::Username
    } else if str_eq(t, "VAR") {
        Word::Var
    } else if str_eq(t, "VERSION") {
        Word::Version
    } else {
        Word::Arg
    }
}

/// Every keyword spelling decodes to its own keyword: the vocabulary is
/// self-consistent.
pub proof fn lemma_keyword_spellings()
    ensures
        spec_word_of("BEGIN"@) == Word::Begin,
        spec_word_of("CLIENT"@) == Word::Client,
        spec_word_of("CMD"@) == Word::Cmd,
        spec_word_of("CMDDESC"@) == Word::CmdDesc,
        spec_word_of("DESC"@) == Word::Desc,
        spec_word_of("END"@) == Word::End,
        spec_word_of("ENUM"@) == Word::Enum,
        spec_word_of("ERR"@) == Word::ErrKw,
        spec_word_of("FSD"@) == Word::Fsd,
        spec_word_of("FSD-SET"@) == Word::FsdSet,
        spec_word_of("GET"@) == Word::Get,
        spec_word_of("Goodbye"@) == Word::Goodbye,
        spec_word_of("HELP"@) == Word::Help,
        spec_word_of("INSTCMD"@) == Word::InstCmd,
        spec_word_of("LIST"@) == Word::List,
        spec_word_of("LOGIN"@) == Word::Login,
        spec_word_of("LOGOUT"@) == Word::Logout,
        spec_word_of("MASTER"@) == Word::Master,
        spec_word_of("NETVER"@) == Word::NetVer,
        spec_word_of("NUMLOGINS"@) == Word::NumLogins,
        spec_word_of("OK"@) == Word::OkKw,
        spec_word_of("PASSWORD"@) == Word::Password,
        spec_word_of("RANGE"@) == Word::Range,
        spec_word_of("RW"@) == Word::Rw,
        spec_word_of("SET"@) == Word::SetKw,
        spec_word_of("STARTTLS"@) == Word::StartTls,
        spec_word_of("TYPE"@) == Word::Type,
        spec_word_of("UPS"@) == Word::Ups,
        spec_word_of("UPSDESC"@) == Word::UpsDesc,
        spec_word_of("USERNAME"@) == Word::Username,
        spec_word_of("VAR"@) == Word::Var,
        spec_word_of("VERSION"@) == Word::Version,
        "BEGIN"@.len() == 5 && "BEGIN"@[0] == 'B',
        "CLIENT"@.len() == 6 && "CLIENT"@[0] == 'C',
        "CMD"@.len() == 3 && "CMD"@[0] == 'C',
        "CMDDESC"@.len() == 7 && "CMDDESC"@[0] == 'C',
        "DESC"@.len() == 4 && "DESC"@[0] == 'D',
        "END"@.len() == 3 && "END"@[0] == 'E' && "END"@[1] == 'N',
        "ENUM"@.len() == 4 && "ENUM"@[0] == 'E',
        "ERR"@.len() == 3 && "ERR"@[0] == 'E' && "ERR"@[1] == 'R',
        "FSD"@.len() == 3 && "FSD"@[0] == 'F',
        "FSD-SET"@.len() == 7 && "FSD-SET"@[0] == 'F',
        "GET"@.len() == 3 && "GET"@[0] == 'G',
        "Goodbye"@.len() == 7 && "Goodbye"@[0] == 'G',
        "HELP"@.len() == 4 && "HELP"@[0] == 'H',
        "INSTCMD"@.len() == 7 && "INSTCMD"@[0] == 'I',
        "LIST"@.len() == 4 && "LIST"@[0] == 'L',
        "LOGIN"@.len() == 5 && "LOGIN"@[0] == 'L',
        "LOGOUT"@.len() == 6 && "LOGOUT"@[0] == 'L',
        "MASTER"@.len() == 6 && "MASTER"@[0] == 'M',
        "NETVER"@.len() == 6 && "NETVER"@[0] == 'N',
        "NUMLOGINS"@.len() == 9 && "NUMLOGINS"@[0] == 'N',
        "OK"@.len() == 2 && "OK"@[0] == 'O',
        "PASSWORD"@.len() == 8 && "PASSWORD"@[0] == 'P',
        "RANGE"@.len() == 5 && "RANGE"@[0] == 'R',
        "RW"@.len() == 2 && "RW"@[0] == 'R',
        "SET"@.len() == 3 && "SET"@[0] == 'S',
        "STARTTLS"@.len() == 8 && "STARTTLS"@[0] == 'S',
        "TYPE"@.len() == 4 && "TYPE"@[0] == 'T',
        "UPS"@.len() == 3 && "UPS"@[0] == 'U',
        "UPSDESC"@.len() == 7 && "UPSDESC"@[0] == 'U',
        "USERNAME"@.len() == 8 && "USERNAME"@[0] == 'U',
        "VAR"@.len() == 3 && "VAR"@[0] == 'V',
        "VERSION"@.len() == 7 && "VERSION"@[0] == 'V',
        "Goodbye"@[1] == 'o',
        "UPSDESC"@[1] == 'P',
        "USERNAME"@[1] == 'S',
        "VAR"@[1] == 'A',
        "VERSION"@[1] == 'E',
        "STARTTLS"@[1] == 'T',
        "SET"@[1] == 'E',
{
    broadcast use vstd::string::group_string_axioms;

    reveal_strlit("BEGIN");
    reveal_strlit("CLIENT");
    reveal_strlit("CMD");
    reveal_strlit("CMDDESC");
    reveal_strlit("DESC");
    reveal_strlit("END");
    reveal_strlit("ENUM");
    reveal_strlit("ERR");
    reveal_strlit("FSD");
    reveal_strlit("FSD-SET");
    reveal_strlit("GET");
    reveal_strlit("Goodbye");
    reveal_strlit("HELP");
    reveal_strlit("INSTCMD");
    reveal_strlit("LIST");
    reveal_strlit("LOGIN");
    reveal_strlit("LOGOUT");
    reveal_strlit("MASTER");
    reveal_strlit("NETVER");
    reveal_strlit("NUMLOGINS");
    reveal_strlit("OK");
    reveal_strlit("PASSWORD");
    reveal_strlit("RANGE");
    reveal_strlit("RW");
    reveal_strlit("SET");
    reveal_strlit("STARTTLS");
    reveal_strlit("TYPE");
    reveal_strlit("UPS");
    reveal_strlit("UPSDESC");
    reveal_strlit("USERNAME");
    reveal_strlit("VAR");
    reveal_strlit("VERSION");
    assert("BEGIN"@.len() == 5 && "BEGIN"@[0] == 'B');
    assert("CLIENT"@.len() == 6 && "CLIENT"@[0] == 'C');
    assert("CMD"@.len() == 3 && "CMD"@[0] == 'C');
    assert("CMDDESC"@.len() == 7 && "CMDDESC"@[0] == 'C');
    assert("DESC"@.len() == 4 && "DESC"@[0] == 'D');
    assert("END"@.len() == 3 && "END"@[0] == 'E' && "END"@[1] == 'N');
    assert("ENUM"@.len() == 4 && "ENUM"@[0] == 'E');
    assert("ERR"@.len() == 3 && "ERR"@[0] == 'E' && "ERR"@[1] == 'R');
    assert("FSD"@.len() == 3 && "FSD"@[0] == 'F');
    assert("FSD-SET"@.len() == 7 && "FSD-SET"@[0] == 'F');
    assert("GET"@.len() == 3 && "GET"@[0] == 'G');
    assert("Goodbye"@.len() == 7 && "Goodbye"@[0] == 'G');
    assert("HELP"@.len() == 4 && "HELP"@[0] == 'H');
    assert("INSTCMD"@.len() == 7 && "INSTCMD"@[0] == 'I');
    assert("LIST"@.len() == 4 && "LIST"@[0] == 'L');
    assert("LOGIN"@.len() == 5 && "LOGIN"@[0] == 'L');
    assert("LOGOUT"@.len() == 6 && "LOGOUT"@[0] == 'L');
    assert("MASTER"@.len() == 6 && "MASTER"@[0] == 'M');
    assert("NETVER"@.len() == 6 && "NETVER"@[0] == 'N');
    assert("NUMLOGINS"@.len() == 9 && "NUMLOGINS"@[0] == 'N');
    assert("OK"@.len() == 2 && "OK"@[0] == 'O');
    assert("PASSWORD"@.len() == 8 && "PASSWORD"@[0] == 'P');
    assert("RANGE"@.len() == 5 && "RANGE"@[0] == 'R');
    assert("RW"@.len() == 2 && "RW"@[0] == 'R');
    assert("SET"@.len() == 3 && "SET"@[0] == 'S');
    assert("STARTTLS"@.len() == 8 && "STARTTLS"@[0] == 'S');
    assert("TYPE"@.len() == 4 && "TYPE"@[0] == 'T');
    assert("UPS"@.len() == 3 && "UPS"@[0] == 'U');
    assert("UPSDESC"@.len() == 7 && "UPSDESC"@[0] == 'U');
    assert("USERNAME"@.len() == 8 && "USERNAME"@[0] == 'U');
    assert("VAR"@.len() == 3 && "VAR"@[0] == 'V');
    assert("VERSION"@.len() == 7 && "VERSION"@[0] == 'V');
    assert("Goodbye"@[1] == 'o');
    assert("UPSDESC"@[1] == 'P');
    assert("USERNAME"@[1] == 'S');
    assert("VAR"@[1] == 'A');
    assert("VERSION"@[1] == 'E');
    assert("STARTTLS"@[1] == 'T');
    assert("SET"@[1] == 'E');
}

} // verus!
