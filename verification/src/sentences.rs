//! The sentence catalog: every legal client-bound and server-bound
//! protocol sentence, with its pattern-driven decoder and its
//! field-preserving encoder.
//!
//! Decoding tries each pattern in catalog order and binds the first that
//! fits; encoding writes the pattern keywords with the fields in their
//! positions. Encoding then decoding returns the original sentence; see
//! [`lemma_client_encode_decode`] and [`lemma_server_encode_decode`].

use vstd::prelude::*;

use crate::text::{str_eq, str_vec_eq};
use crate::words::{lemma_keyword_spellings, spec_word_of, word_of_token, Word};

verus! {


/// A sentence sent by the server to the client.
#[derive(Debug, Clone, PartialEq, Eq)]
pub enum ClientSentences {
    /// A generic successful response with no data.
    GenericOk,
    /// Forced shut down acknowledged.
    FsdOk,
    /// The server acknowledges the TLS upgrade.
    StartTLSOk,
    /// The server confirms the logout.
    LogoutOk,
    /// The server reports an error.
    RespondErr {
        /// Positional `message` argument.
        message: String,
        /// Trailing variadic arguments.
        extras: Vec<String>,
    },
    /// The number of prior logins to a device.
    RespondNumLogins {
        /// Positional `ups_name` argument.
        ups_name: String,
        /// Positional `num_logins` argument.
        num_logins: String,
    },
    /// The description of a device.
    RespondUpsDesc {
        /// Positional `ups_name` argument.
        ups_name: String,
        /// Positional `description` argument.
        description: String,
    },
    /// The value of a variable.
    RespondVar {
        /// Positional `ups_name` argument.
        ups_name: String,
        /// Positional `var_name` argument.
        var_name: String,
        /// Positional `value` argument.
        value: String,
    },
    /// The type tags of a variable.
    RespondType {
        /// Positional `ups_name` argument.
        ups_name: String,
        /// Positional `var_name` argument.
        var_name: String,
        /// Trailing variadic arguments.
        var_types: Vec<String>,
    },
    /// The description of a variable.
    RespondDesc {
        /// Positional `ups_name` argument.
        ups_name: String,
        /// Positional `var_name` argument.
        var_name: String,
        /// Positional `description` argument.
        description: String,
    },
    /// The description of a command.
    RespondCmdDesc {
        /// Positional `ups_name` argument.
        ups_name: String,
        /// Positional `cmd_name` argument.
        cmd_name: String,
        /// Positional `description` argument.
        description: String,
    },
    /// The name and description of a device.
    RespondUps {
        /// Positional `ups_name` argument.
        ups_name: String,
        /// Positional `description` argument.
        description: String,
    },
    /// The name and value of a mutable variable.
    RespondRw {
        /// Positional `ups_name` argument.
        ups_name: String,
        /// Positional `var_name` argument.
        var_name: String,
        /// Positional `value` argument.
        value: String,
    },
    /// The name of a command.
    RespondCmd {
        /// Positional `ups_name` argument.
        ups_name: String,
        /// Positional `cmd_name` argument.
        cmd_name: String,
    },
    /// One possible value of an enumerated variable.
    RespondEnum {
        /// Positional `ups_name` argument.
        ups_name: String,
        /// Positional `var_name` argument.
        var_name: String,
        /// Positional `enum_value` argument.
        enum_value: String,
    },
    /// One possible range of a numeric variable.
    RespondRange {
        /// Positional `ups_name` argument.
        ups_name: String,
        /// Positional `var_name` argument.
        var_name: String,
        /// Positional `min_value` argument.
        min_value: String,
        /// Positional `max_value` argument.
        max_value: String,
    },
    /// One client connected to a device.
    RespondClient {
        /// Positional `ups_name` argument.
        ups_name: String,
        /// Positional `client_ip` argument.
        client_ip: String,
    },
    /// Begins the list of devices.
    BeginListUps,
    /// Ends the list of devices.
    EndListUps,
    /// Begins the list of variables of a device.
    BeginListVar {
        /// Positional `ups_name` argument.
        ups_name: String,
    },
    /// Ends the list of variables of a device.
    EndListVar {
        /// Positional `ups_name` argument.
        ups_name: String,
    },
    /// Begins the list of mutable variables of a device.
    BeginListRw {
        /// Positional `ups_name` argument.
        ups_name: String,
    },
    /// Ends the list of mutable variables of a device.
    EndListRw {
        /// Positional `ups_name` argument.
        ups_name: String,
    },
    /// Begins the list of commands of a device.
    BeginListCmd {
        /// Positional `ups_name` argument.
        ups_name: String,
    },
    /// Ends the list of commands of a device.
    EndListCmd {
        /// Positional `ups_name` argument.
        ups_name: String,
    },
    /// Begins the list of values of an enumerated variable.
    BeginListEnum {
        /// Positional `ups_name` argument.
        ups_name: String,
        /// Positional `var_name` argument.
        var_name: String,
    },
    /// Ends the list of values of an enumerated variable.
    EndListEnum {
        /// Positional `ups_name` argument.
        ups_name: String,
        /// Positional `var_name` argument.
        var_name: String,
    },
    /// Begins the list of ranges of a numeric variable.
    BeginListRange {
        /// Positional `ups_name` argument.
        ups_name: String,
        /// Positional `var_name` argument.
        var_name: String,
    },
    /// Ends the list of ranges of a numeric variable.
    EndListRange {
        /// Positional `ups_name` argument.
        ups_name: String,
        /// Positional `var_name` argument.
        var_name: String,
    },
    /// Begins the list of clients of a device.
    BeginListClient {
        /// Positional `ups_name` argument.
        ups_name: String,
    },
    /// Ends the list of clients of a device.
    EndListClient {
        /// Positional `ups_name` argument.
        ups_name: String,
    },
}

/// A sentence sent by the client to the server.
#[derive(Debug, Clone, PartialEq, Eq)]
pub enum ServerSentences {
    /// Asks for the number of prior logins to a device.
    QueryNumLogins {
        /// Positional `ups_name` argument.
        ups_name: String,
    },
    /// Asks for the description of a device.
    QueryUpsDesc {
        /// Positional `ups_name` argument.
        ups_name: String,
    },
    /// Asks for the value of a variable.
    QueryVar {
        /// Positional `ups_name` argument.
        ups_name: String,
        /// Positional `var_name` argument.
        var_name: String,
    },
    /// Asks for the type of a variable.
    QueryType {
        /// Positional `ups_name` argument.
        ups_name: String,
        /// Positional `var_name` argument.
        var_name: String,
    },
    /// Asks for the description of a variable.
    QueryDesc {
        /// Positional `ups_name` argument.
        ups_name: String,
        /// Positional `var_name` argument.
        var_name: String,
    },
    /// Asks for the description of a command.
    QueryCmdDesc {
        /// Positional `ups_name` argument.
        ups_name: String,
        /// Positional `cmd_name` argument.
        cmd_name: String,
    },
    /// Asks for the list of devices.
    QueryListUps,
    /// Asks for the list of variables of a device.
    QueryListVar {
        /// Positional `ups_name` argument.
        ups_name: String,
    },
    /// Asks for the list of mutable variables of a device.
    QueryListRw {
        /// Positional `ups_name` argument.
        ups_name: String,
    },
    /// Asks for the list of commands of a device.
    QueryListCmd {
        /// Positional `ups_name` argument.
        ups_name: String,
    },
    /// Asks for the values of an enumerated variable.
    QueryListEnum {
        /// Positional `ups_name` argument.
        ups_name: String,
        /// Positional `var_name` argument.
        var_name: String,
    },
    /// Asks for the ranges of a numeric variable.
    QueryListRange {
        /// Positional `ups_name` argument.
        ups_name: String,
        /// Positional `var_name` argument.
        var_name: String,
    },
    /// Asks for the clients of a device.
    QueryListClient {
        /// Positional `ups_name` argument.
        ups_name: String,
    },
    /// Sets the value of a mutable variable.
    ExecSetVar {
        /// Positional `ups_name` argument.
        ups_name: String,
        /// Positional `var_name` argument.
        var_name: String,
        /// Positional `value` argument.
        value: String,
    },
    /// Runs an instant command, with an optional argument.
    ExecInstCmd {
        /// Positional `ups_name` argument.
        ups_name: String,
        /// Positional `cmd_name` argument.
        cmd_name: String,
        /// Trailing variadic arguments.
        extra_args: Vec<String>,
    },
    /// Logs out of the connection.
    ExecLogout,
    /// Logs into a device.
    ExecLogin {
        /// Positional `ups_name` argument.
        ups_name: String,
    },
    /// Asserts master-level access to a device.
    ExecMaster {
        /// Positional `ups_name` argument.
        ups_name: String,
    },
    /// Requests the forced shut-down of a device.
    ExecForcedShutDown {
        /// Positional `ups_name` argument.
        ups_name: String,
    },
    /// Sets the password on the connection.
    SetPassword {
        /// Positional `password` argument.
        password: String,
    },
    /// Sets the username on the connection.
    SetUsername {
        /// Positional `username` argument.
        username: String,
    },
    /// Asks for the connection to be upgraded to TLS.
    ExecStartTLS,
    /// Asks for the commands the server supports.
    QueryHelp,
    /// Asks for the server version.
    QueryVersion,
    /// Asks for the network protocol version.
    QueryNetworkVersion,
}

/// The raw words that encode a sentence.
pub open spec fn spec_client_encode(s: ClientSentences) -> Seq<Seq<char>> {
    match s {
        ClientSentences::GenericOk => seq!["OK"@],
        ClientSentences::FsdOk => seq!["OK"@, "FSD-SET"@],
        ClientSentences::StartTLSOk => seq!["OK"@, "STARTTLS"@],
        ClientSentences::LogoutOk => seq!["OK"@, "Goodbye"@],
        ClientSentences::RespondErr {
            message, extras,
        } => seq!["ERR"@, message@] + extras.deep_view(),
        ClientSentences::RespondNumLogins {
            ups_name, num_logins,
        } => seq!["NUMLOGINS"@, ups_name@, num_logins@],
        ClientSentences::RespondUpsDesc {
            ups_name, description,
        } => seq!["UPSDESC"@, ups_name@, description@],
        ClientSentences::RespondVar {
            ups_name, var_name, value,
        } => seq!["VAR"@, ups_name@, var_name@, value@],
        ClientSentences::RespondType {
            ups_name, var_name, var_types,
        } => seq!["TYPE"@, ups_name@, var_name@] + var_types.deep_view(),
        ClientSentences::RespondDesc {
            ups_name, var_name, description,
        } => seq!["DESC"@, ups_name@, var_name@, description@],
        ClientSentences::RespondCmdDesc {
            ups_name, cmd_name, description,
        } => seq!["CMDDESC"@, ups_name@, cmd_name@, description@],
        ClientSentences::RespondUps {
            ups_name, description,
        } => seq!["UPS"@, ups_name@, description@],
        ClientSentences::RespondRw {
            ups_name, var_name, value,
        } => seq!["RW"@, ups_name@, var_name@, value@],
        ClientSentences::RespondCmd { ups_name, cmd_name } => seq!["CMD"@, ups_name@, cmd_name@],
        ClientSentences::RespondEnum {
            ups_name, var_name, enum_value,
        } => seq!["ENUM"@, ups_name@, var_name@, enum_value@],
        ClientSentences::RespondRange {
            ups_name, var_name, min_value, max_value,
        } => seq!["RANGE"@, ups_name@, var_name@, min_value@, max_value@],
        ClientSentences::RespondClient {
            ups_name, client_ip,
        } => seq!["CLIENT"@, ups_name@, client_ip@],
        ClientSentences::BeginListUps => seq!["BEGIN"@, "LIST"@, "UPS"@],
        ClientSentences::EndListUps => seq!["END"@, "LIST"@, "UPS"@],
        ClientSentences::BeginListVar { ups_name } => seq!["BEGIN"@, "LIST"@, "VAR"@, ups_name@],
        ClientSentences::EndListVar { ups_name } => seq!["END"@, "LIST"@, "VAR"@, ups_name@],
        ClientSentences::BeginListRw { ups_name } => seq!["BEGIN"@, "LIST"@, "RW"@, ups_name@],
        ClientSentences::EndListRw { ups_name } => seq!["END"@, "LIST"@, "RW"@, ups_name@],
        ClientSentences::BeginListCmd { ups_name } => seq!["BEGIN"@, "LIST"@, "CMD"@, ups_name@],
        ClientSentences::EndListCmd { ups_name } => seq!["END"@, "LIST"@, "CMD"@, ups_name@],
        ClientSentences::BeginListEnum {
            ups_name, var_name,
        } => seq!["BEGIN"@, "LIST"@, "ENUM"@, ups_name@, var_name@],
        ClientSentences::EndListEnum {
            ups_name, var_name,
        } => seq!["END"@, "LIST"@, "ENUM"@, ups_name@, var_name@],
        ClientSentences::BeginListRange {
            ups_name, var_name,
        } => seq!["BEGIN"@, "LIST"@, "RANGE"@, ups_name@, var_name@],
        ClientSentences::EndListRange {
            ups_name, var_name,
        } => seq!["END"@, "LIST"@, "RANGE"@, ups_name@, var_name@],
        ClientSentences::BeginListClient {
            ups_name,
        } => seq!["BEGIN"@, "LIST"@, "CLIENT"@, ups_name@],
        ClientSentences::EndListClient { ups_name } => seq!["END"@, "LIST"@, "CLIENT"@, ups_name@],
    }
}

/// How raw words decode: the first pattern, in catalog order, whose
/// keywords and length fit binds the fields; no fit decodes to `None`.
pub open spec fn spec_client_decodes(raw: Seq<Seq<char>>, r: Option<ClientSentences>) -> bool {
    if raw.len() == 0 {
        r is None
    } else {
        let n = raw.len() as int;
        match spec_word_of(raw[0]) {
            Word::OkKw => {
                if n == 1 {
                    r == Some(ClientSentences::GenericOk)
                } else if n == 2 && raw[1] == "FSD-SET"@ {
                    r == Some(ClientSentences::FsdOk)
                } else if n == 2 && raw[1] == "STARTTLS"@ {
                    r == Some(ClientSentences::StartTLSOk)
                } else if n == 2 && raw[1] == "Goodbye"@ {
                    r == Some(ClientSentences::LogoutOk)
                } else {
                    r is None
                }
            },
            Word::ErrKw => {
                if n >= 2 {
                    r matches Some(ClientSentences::RespondErr { message, extras })
                        && message@ == raw[1]
                        && extras.deep_view() == raw.subrange(2, n)
                } else {
                    r is None
                }
            },
            Word::NumLogins => {
                if n == 3 {
                    r matches Some(ClientSentences::RespondNumLogins { ups_name, num_logins })
                        && ups_name@ == raw[1]
                        && num_logins@ == raw[2]
                } else {
                    r is None
                }
            },
            Word::UpsDesc => {
                if n == 3 {
                    r matches Some(ClientSentences::RespondUpsDesc { ups_name, description })
                        && ups_name@ == raw[1]
                        && description@ == raw[2]
                } else {
                    r is None
                }
            },
            Word::Var => {
                if n == 4 {
                    r matches Some(ClientSentences::RespondVar { ups_name, var_name, value })
                        && ups_name@ == raw[1]
                        && var_name@ == raw[2]
                        && value@ == raw[3]
                } else {
                    r is None
                }
            },
            Word::Type => {
                if n >= 3 {
                    r matches Some(ClientSentences::RespondType { ups_name, var_name, var_types })
                        && ups_name@ == raw[1]
                        && var_name@ == raw[2]
                        && var_types.deep_view() == raw.subrange(3, n)
                } else {
                    r is None
                }
            },
            Word::Desc => {
                if n == 4 {
                    r matches Some(ClientSentences::RespondDesc { ups_name, var_name, description })
                        && ups_name@ == raw[1]
                        && var_name@ == raw[2]
                        && description@ == raw[3]
                } else {
                    r is None
                }
            },
            Word::CmdDesc => {
                if n == 4 {
                    r matches Some(ClientSentences::RespondCmdDesc { ups_name, cmd_name, description })
                        && ups_name@ == raw[1]
                        && cmd_name@ == raw[2]
                        && description@ == raw[3]
                } else {
                    r is None
                }
            },
            Word::Ups => {
                if n == 3 {
                    r matches Some(ClientSentences::RespondUps { ups_name, description })
                        && ups_name@ == raw[1]
                        && description@ == raw[2]
                } else {
                    r is None
                }
            },
            Word::Rw => {
                if n == 4 {
                    r matches Some(ClientSentences::RespondRw { ups_name, var_name, value })
                        && ups_name@ == raw[1]
                        && var_name@ == raw[2]
                        && value@ == raw[3]
                } else {
                    r is None
                }
            },
            Word::Cmd => {
                if n == 3 {
                    r matches Some(ClientSentences::RespondCmd { ups_name, cmd_name })
                        && ups_name@ == raw[1]
                        && cmd_name@ == raw[2]
                } else {
                    r is None
                }
            },
            Word::Enum => {
                if n == 4 {
                    r matches Some(ClientSentences::RespondEnum { ups_name, var_name, enum_value })
                        && ups_name@ == raw[1]
                        && var_name@ == raw[2]
                        && enum_value@ == raw[3]
                } else {
                    r is None
                }
            },
            Word::Range => {
                if n == 5 {
                    r matches Some(ClientSentences::RespondRange { ups_name, var_name, min_value, max_value })
                        && ups_name@ == raw[1]
                        && var_name@ == raw[2]
                        && min_value@ == raw[3]
                        && max_value@ == raw[4]
                } else {
                    r is None
                }
            },
            Word::Client => {
                if n == 3 {
                    r matches Some(ClientSentences::RespondClient { ups_name, client_ip })
                        && ups_name@ == raw[1]
                        && client_ip@ == raw[2]
                } else {
                    r is None
                }
            },
            Word::Begin => {
                if n == 3 && raw[1] == "LIST"@ && raw[2] == "UPS"@ {
                    r == Some(ClientSentences::BeginListUps)
                } else if n == 4 && raw[1] == "LIST"@ && raw[2] == "VAR"@ {
                    r matches Some(ClientSentences::BeginListVar { ups_name })
                        && ups_name@ == raw[3]
                } else if n == 4 && raw[1] == "LIST"@ && raw[2] == "RW"@ {
                    r matches Some(ClientSentences::BeginListRw { ups_name })
                        && ups_name@ == raw[3]
                } else if n == 4 && raw[1] == "LIST"@ && raw[2] == "CMD"@ {
                    r matches Some(ClientSentences::BeginListCmd { ups_name })
                        && ups_name@ == raw[3]
                } else if n == 5 && raw[1] == "LIST"@ && raw[2] == "ENUM"@ {
                    r matches Some(ClientSentences::BeginListEnum { ups_name, var_name })
                        && ups_name@ == raw[3]
                        && var_name@ == raw[4]
                } else if n == 5 && raw[1] == "LIST"@ && raw[2] == "RANGE"@ {
                    r matches Some(ClientSentences::BeginListRange { ups_name, var_name })
                        && ups_name@ == raw[3]
                        && var_name@ == raw[4]
                } else if n == 4 && raw[1] == "LIST"@ && raw[2] == "CLIENT"@ {
                    r matches Some(ClientSentences::BeginListClient { ups_name })
                        && ups_name@ == raw[3]
                } else {
                    r is None
                }
            },
            Word::End => {
                if n == 3 && raw[1] == "LIST"@ && raw[2] == "UPS"@ {
                    r == Some(ClientSentences::EndListUps)
                } else if n == 4 && raw[1] == "LIST"@ && raw[2] == "VAR"@ {
                    r matches Some(ClientSentences::EndListVar { ups_name })
                        && ups_name@ == raw[3]
                } else if n == 4 && raw[1] == "LIST"@ && raw[2] == "RW"@ {
                    r matches Some(ClientSentences::EndListRw { ups_name })
                        && ups_name@ == raw[3]
                } else if n == 4 && raw[1] == "LIST"@ && raw[2] == "CMD"@ {
                    r matches Some(ClientSentences::EndListCmd { ups_name })
                        && ups_name@ == raw[3]
                } else if n == 5 && raw[1] == "LIST"@ && raw[2] == "ENUM"@ {
                    r matches Some(ClientSentences::EndListEnum { ups_name, var_name })
                        && ups_name@ == raw[3]
                        && var_name@ == raw[4]
                } else if n == 5 && raw[1] == "LIST"@ && raw[2] == "RANGE"@ {
                    r matches Some(ClientSentences::EndListRange { ups_name, var_name })
                        && ups_name@ == raw[3]
                        && var_name@ == raw[4]
                } else if n == 4 && raw[1] == "LIST"@ && raw[2] == "CLIENT"@ {
                    r matches Some(ClientSentences::EndListClient { ups_name })
                        && ups_name@ == raw[3]
                } else {
                    r is None
                }
            },
            _ => r is None,
        }
    }
}

/// Two sentences of the same variant whose fields hold the same text.
pub open spec fn spec_client_equiv(a: ClientSentences, b: ClientSentences) -> bool {
    match (a, b) {
        (ClientSentences::GenericOk, ClientSentences::GenericOk) => true,
        (ClientSentences::FsdOk, ClientSentences::FsdOk) => true,
        (ClientSentences::StartTLSOk, ClientSentences::StartTLSOk) => true,
        (ClientSentences::LogoutOk, ClientSentences::LogoutOk) => true,
        (
            ClientSentences::RespondErr { message: message_a, extras: extras_a },
            ClientSentences::RespondErr { message: message_b, extras: extras_b },
        ) => message_a@ == message_b@
            && extras_a.deep_view() == extras_b.deep_view(),
        (
            ClientSentences::RespondNumLogins { ups_name: ups_name_a, num_logins: num_logins_a },
            ClientSentences::RespondNumLogins { ups_name: ups_name_b, num_logins: num_logins_b },
        ) => ups_name_a@ == ups_name_b@
            && num_logins_a@ == num_logins_b@,
        (
            ClientSentences::RespondUpsDesc { ups_name: ups_name_a, description: description_a },
            ClientSentences::RespondUpsDesc { ups_name: ups_name_b, description: description_b },
        ) => ups_name_a@ == ups_name_b@
            && description_a@ == description_b@,
        (
            ClientSentences::RespondVar { ups_name: ups_name_a, var_name: var_name_a, value: value_a },
            ClientSentences::RespondVar { ups_name: ups_name_b, var_name: var_name_b, value: value_b },
        ) => ups_name_a@ == ups_name_b@
            && var_name_a@ == var_name_b@
            && value_a@ == value_b@,
        (
            ClientSentences::RespondType { ups_name: ups_name_a, var_name: var_name_a, var_types: var_types_a },
            ClientSentences::RespondType { ups_name: ups_name_b, var_name: var_name_b, var_types: var_types_b },
        ) => ups_name_a@ == ups_name_b@
            && var_name_a@ == var_name_b@
            && var_types_a.deep_view() == var_types_b.deep_view(),
        (
            ClientSentences::RespondDesc { ups_name: ups_name_a, var_name: var_name_a, description: description_a },
            ClientSentences::RespondDesc { ups_name: ups_name_b, var_name: var_name_b, description: description_b },
        ) => ups_name_a@ == ups_name_b@
            && var_name_a@ == var_name_b@
            && description_a@ == description_b@,
        (
            ClientSentences::RespondCmdDesc { ups_name: ups_name_a, cmd_name: cmd_name_a, description: description_a },
            ClientSentences::RespondCmdDesc { ups_name: ups_name_b, cmd_name: cmd_name_b, description: description_b },
        ) => ups_name_a@ == ups_name_b@
            && cmd_name_a@ == cmd_name_b@
            && description_a@ == description_b@,
        (
            ClientSentences::RespondUps { ups_name: ups_name_a, description: description_a },
            ClientSentences::RespondUps { ups_name: ups_name_b, description: description_b },
        ) => ups_name_a@ == ups_name_b@
            && description_a@ == description_b@,
        (
            ClientSentences::RespondRw { ups_name: ups_name_a, var_name: var_name_a, value: value_a },
            ClientSentences::RespondRw { ups_name: ups_name_b, var_name: var_name_b, value: value_b },
        ) => ups_name_a@ == ups_name_b@
            && var_name_a@ == var_name_b@
            && value_a@ == value_b@,
        (
            ClientSentences::RespondCmd { ups_name: ups_name_a, cmd_name: cmd_name_a },
            ClientSentences::RespondCmd { ups_name: ups_name_b, cmd_name: cmd_name_b },
        ) => ups_name_a@ == ups_name_b@
            && cmd_name_a@ == cmd_name_b@,
        (
            ClientSentences::RespondEnum { ups_name: ups_name_a, var_name: var_name_a, enum_value: enum_value_a },
            ClientSentences::RespondEnum { ups_name: ups_name_b, var_name: var_name_b, enum_value: enum_value_b },
        ) => ups_name_a@ == ups_name_b@
            && var_name_a@ == var_name_b@
            && enum_value_a@ == enum_value_b@,
        (
            ClientSentences::RespondRange { ups_name: ups_name_a, var_name: var_name_a, min_value: min_value_a, max_value: max_value_a },
            ClientSentences::RespondRange { ups_name: ups_name_b, var_name: var_name_b, min_value: min_value_b, max_value: max_value_b },
        ) => ups_name_a@ == ups_name_b@
            && var_name_a@ == var_name_b@
            && min_value_a@ == min_value_b@
            && max_value_a@ == max_value_b@,
        (
            ClientSentences::RespondClient { ups_name: ups_name_a, client_ip: client_ip_a },
            ClientSentences::RespondClient { ups_name: ups_name_b, client_ip: client_ip_b },
        ) => ups_name_a@ == ups_name_b@
            && client_ip_a@ == client_ip_b@,
        (ClientSentences::BeginListUps, ClientSentences::BeginListUps) => true,
        (ClientSentences::EndListUps, ClientSentences::EndListUps) => true,
        (
            ClientSentences::BeginListVar { ups_name: ups_name_a },
            ClientSentences::BeginListVar { ups_name: ups_name_b },
        ) => ups_name_a@ == ups_name_b@,
        (
            ClientSentences::EndListVar { ups_name: ups_name_a },
            ClientSentences::EndListVar { ups_name: ups_name_b },
        ) => ups_name_a@ == ups_name_b@,
        (
            ClientSentences::BeginListRw { ups_name: ups_name_a },
            ClientSentences::BeginListRw { ups_name: ups_name_b },
        ) => ups_name_a@ == ups_name_b@,
        (
            ClientSentences::EndListRw { ups_name: ups_name_a },
            ClientSentences::EndListRw { ups_name: ups_name_b },
        ) => ups_name_a@ == ups_name_b@,
        (
            ClientSentences::BeginListCmd { ups_name: ups_name_a },
            ClientSentences::BeginListCmd { ups_name: ups_name_b },
        ) => ups_name_a@ == ups_name_b@,
        (
            ClientSentences::EndListCmd { ups_name: ups_name_a },
            ClientSentences::EndListCmd { ups_name: ups_name_b },
        ) => ups_name_a@ == ups_name_b@,
        (
            ClientSentences::BeginListEnum { ups_name: ups_name_a, var_name: var_name_a },
            ClientSentences::BeginListEnum { ups_name: ups_name_b, var_name: var_name_b },
        ) => ups_name_a@ == ups_name_b@
            && var_name_a@ == var_name_b@,
        (
            ClientSentences::EndListEnum { ups_name: ups_name_a, var_name: var_name_a },
            ClientSentences::EndListEnum { ups_name: ups_name_b, var_name: var_name_b },
        ) => ups_name_a@ == ups_name_b@
            && var_name_a@ == var_name_b@,
        (
            ClientSentences::BeginListRange { ups_name: ups_name_a, var_name: var_name_a },
            ClientSentences::BeginListRange { ups_name: ups_name_b, var_name: var_name_b },
        ) => ups_name_a@ == ups_name_b@
            && var_name_a@ == var_name_b@,
        (
            ClientSentences::EndListRange { ups_name: ups_name_a, var_name: var_name_a },
            ClientSentences::EndListRange { ups_name: ups_name_b, var_name: var_name_b },
        ) => ups_name_a@ == ups_name_b@
            && var_name_a@ == var_name_b@,
        (
            ClientSentences::BeginListClient { ups_name: ups_name_a },
            ClientSentences::BeginListClient { ups_name: ups_name_b },
        ) => ups_name_a@ == ups_name_b@,
        (
            ClientSentences::EndListClient { ups_name: ups_name_a },
            ClientSentences::EndListClient { ups_name: ups_name_b },
        ) => ups_name_a@ == ups_name_b@,
        _ => false,
    }
}

/// The raw words that encode a sentence.
pub open spec fn spec_server_encode(s: ServerSentences) -> Seq<Seq<char>> {
    match s {
        ServerSentences::QueryNumLogins { ups_name } => seq!["GET"@, "NUMLOGINS"@, ups_name@],
        ServerSentences::QueryUpsDesc { ups_name } => seq!["GET"@, "UPSDESC"@, ups_name@],
        ServerSentences::QueryVar {
            ups_name, var_name,
        } => seq!["GET"@, "VAR"@, ups_name@, var_name@],
        ServerSentences::QueryType {
            ups_name, var_name,
        } => seq!["GET"@, "TYPE"@, ups_name@, var_name@],
        ServerSentences::QueryDesc {
            ups_name, var_name,
        } => seq!["GET"@, "DESC"@, ups_name@, var_name@],
        ServerSentences::QueryCmdDesc {
            ups_name, cmd_name,
        } => seq!["GET"@, "CMDDESC"@, ups_name@, cmd_name@],
        ServerSentences::QueryListUps => seq!["LIST"@, "UPS"@],
        ServerSentences::QueryListVar { ups_name } => seq!["LIST"@, "VAR"@, ups_name@],
        ServerSentences::QueryListRw { ups_name } => seq!["LIST"@, "RW"@, ups_name@],
        ServerSentences::QueryListCmd { ups_name } => seq!["LIST"@, "CMD"@, ups_name@],
        ServerSentences::QueryListEnum {
            ups_name, var_name,
        } => seq!["LIST"@, "ENUM"@, ups_name@, var_name@],
        ServerSentences::QueryListRange {
            ups_name, var_name,
        } => seq!["LIST"@, "RANGE"@, ups_name@, var_name@],
        ServerSentences::QueryListClient { ups_name } => seq!["LIST"@, "CLIENT"@, ups_name@],
        ServerSentences::ExecSetVar {
            ups_name, var_name, value,
        } => seq!["SET"@, "VAR"@, ups_name@, var_name@, value@],
        ServerSentences::ExecInstCmd {
            ups_name, cmd_name, extra_args,
        } => seq!["INSTCMD"@, ups_name@, cmd_name@] + extra_args.deep_view(),
        ServerSentences::ExecLogout => seq!["LOGOUT"@],
        ServerSentences::ExecLogin { ups_name } => seq!["LOGIN"@, ups_name@],
        ServerSentences::ExecMaster { ups_name } => seq!["MASTER"@, ups_name@],
        ServerSentences::ExecForcedShutDown { ups_name } => seq!["FSD"@, ups_name@],
        ServerSentences::SetPassword { password } => seq!["PASSWORD"@, password@],
        ServerSentences::SetUsername { username } => seq!["USERNAME"@, username@],
        ServerSentences::ExecStartTLS => seq!["STARTTLS"@],
        ServerSentences::QueryHelp => seq!["HELP"@],
        ServerSentences::QueryVersion => seq!["VERSION"@],
        ServerSentences::QueryNetworkVersion => seq!["NETVER"@],
    }
}

/// How raw words decode: the first pattern, in catalog order, whose
/// keywords and length fit binds the fields; no fit decodes to `None`.
pub open spec fn spec_server_decodes(raw: Seq<Seq<char>>, r: Option<ServerSentences>) -> bool {
    if raw.len() == 0 {
        r is None
    } else {
        let n = raw.len() as int;
        match spec_word_of(raw[0]) {
            Word::Get => {
                if n == 3 && raw[1] == "NUMLOGINS"@ {
                    r matches Some(ServerSentences::QueryNumLogins { ups_name })
                        && ups_name@ == raw[2]
                } else if n == 3 && raw[1] == "UPSDESC"@ {
                    r matches Some(ServerSentences::QueryUpsDesc { ups_name })
                        && ups_name@ == raw[2]
                } else if n == 4 && raw[1] == "VAR"@ {
                    r matches Some(ServerSentences::QueryVar { ups_name, var_name })
                        && ups_name@ == raw[2]
                        && var_name@ == raw[3]
                } else if n == 4 && raw[1] == "TYPE"@ {
                    r matches Some(ServerSentences::QueryType { ups_name, var_name })
                        && ups_name@ == raw[2]
                        && var_name@ == raw[3]
                } else if n == 4 && raw[1] == "DESC"@ {
                    r matches Some(ServerSentences::QueryDesc { ups_name, var_name })
                        && ups_name@ == raw[2]
                        && var_name@ == raw[3]
                } else if n == 4 && raw[1] == "CMDDESC"@ {
                    r matches Some(ServerSentences::QueryCmdDesc { ups_name, cmd_name })
                        && ups_name@ == raw[2]
                        && cmd_name@ == raw[3]
                } else {
                    r is None
                }
            },
            Word::List => {
                if n == 2 && raw[1] == "UPS"@ {
                    r == Some(ServerSentences::QueryListUps)
                } else if n == 3 && raw[1] == "VAR"@ {
                    r matches Some(ServerSentences::QueryListVar { ups_name })
                        && ups_name@ == raw[2]
                } else if n == 3 && raw[1] == "RW"@ {
                    r matches Some(ServerSentences::QueryListRw { ups_name })
                        && ups_name@ == raw[2]
                } else if n == 3 && raw[1] == "CMD"@ {
                    r matches Some(ServerSentences::QueryListCmd { ups_name })
                        && ups_name@ == raw[2]
                } else if n == 4 && raw[1] == "ENUM"@ {
                    r matches Some(ServerSentences::QueryListEnum { ups_name, var_name })
                        && ups_name@ == raw[2]
                        && var_name@ == raw[3]
                } else if n == 4 && raw[1] == "RANGE"@ {
                    r matches Some(ServerSentences::QueryListRange { ups_name, var_name })
                        && ups_name@ == raw[2]
                        && var_name@ == raw[3]
                } else if n == 3 && raw[1] == "CLIENT"@ {
                    r matches Some(ServerSentences::QueryListClient { ups_name })
                        && ups_name@ == raw[2]
                } else {
                    r is None
                }
            },
            Word::SetKw => {
                if n == 5 && raw[1] == "VAR"@ {
                    r matches Some(ServerSentences::ExecSetVar { ups_name, var_name, value })
                        && ups_name@ == raw[2]
                        && var_name@ == raw[3]
                        && value@ == raw[4]
                } else {
                    r is None
                }
            },
            Word::InstCmd => {
                if n >= 3 {
                    r matches Some(ServerSentences::ExecInstCmd { ups_name, cmd_name, extra_args })
                        && ups_name@ == raw[1]
                        && cmd_name@ == raw[2]
                        && extra_args.deep_view() == raw.subrange(3, n)
                } else {
                    r is None
                }
            },
            Word::Logout => {
                if n == 1 {
                    r == Some(ServerSentences::ExecLogout)
                } else {
                    r is None
                }
            },
            Word::Login => {
                if n == 2 {
                    r matches Some(ServerSentences::ExecLogin { ups_name })
                        && ups_name@ == raw[1]
                } else {
                    r is None
                }
            },
            Word::Master => {
                if n == 2 {
                    r matches Some(ServerSentences::ExecMaster { ups_name })
                        && ups_name@ == raw[1]
                } else {
                    r is None
                }
            },
            Word::Fsd => {
                if n == 2 {
                    r matches Some(ServerSentences::ExecForcedShutDown { ups_name })
                        && ups_name@ == raw[1]
                } else {
                    r is None
                }
            },
            Word::Password => {
                if n == 2 {
                    r matches Some(ServerSentences::SetPassword { password })
                        && password@ == raw[1]
                } else {
                    r is None
                }
            },
            Word::Username => {
                if n == 2 {
                    r matches Some(ServerSentences::SetUsername { username })
                        && username@ == raw[1]
                } else {
                    r is None
                }
            },
            Word::StartTls => {
                if n == 1 {
                    r == Some(ServerSentences::ExecStartTLS)
                } else {
                    r is None
                }
            },
            Word::Help => {
                if n == 1 {
                    r == Some(ServerSentences::QueryHelp)
                } else {
                    r is None
                }
            },
            Word::Version => {
                if n == 1 {
                    r == Some(ServerSentences::QueryVersion)
                } else {
                    r is None
                }
            },
            Word::NetVer => {
                if n == 1 {
                    r == Some(ServerSentences::QueryNetworkVersion)
                } else {
                    r is None
                }
            },
            _ => r is None,
        }
    }
}

/// Two sentences of the same variant whose fields hold the same text.
pub open spec fn spec_server_equiv(a: ServerSentences, b: ServerSentences) -> bool {
    match (a, b) {
        (
            ServerSentences::QueryNumLogins { ups_name: ups_name_a },
            ServerSentences::QueryNumLogins { ups_name: ups_name_b },
        ) => ups_name_a@ == ups_name_b@,
        (
            ServerSentences::QueryUpsDesc { ups_name: ups_name_a },
            ServerSentences::QueryUpsDesc { ups_name: ups_name_b },
        ) => ups_name_a@ == ups_name_b@,
        (
            ServerSentences::QueryVar { ups_name: ups_name_a, var_name: var_name_a },
            ServerSentences::QueryVar { ups_name: ups_name_b, var_name: var_name_b },
        ) => ups_name_a@ == ups_name_b@
            && var_name_a@ == var_name_b@,
        (
            ServerSentences::QueryType { ups_name: ups_name_a, var_name: var_name_a },
            ServerSentences::QueryType { ups_name: ups_name_b, var_name: var_name_b },
        ) => ups_name_a@ == ups_name_b@
            && var_name_a@ == var_name_b@,
        (
            ServerSentences::QueryDesc { ups_name: ups_name_a, var_name: var_name_a },
            ServerSentences::QueryDesc { ups_name: ups_name_b, var_name: var_name_b },
        ) => ups_name_a@ == ups_name_b@
            && var_name_a@ == var_name_b@,
        (
            ServerSentences::QueryCmdDesc { ups_name: ups_name_a, cmd_name: cmd_name_a },
            ServerSentences::QueryCmdDesc { ups_name: ups_name_b, cmd_name: cmd_name_b },
        ) => ups_name_a@ == ups_name_b@
            && cmd_name_a@ == cmd_name_b@,
        (ServerSentences::QueryListUps, ServerSentences::QueryListUps) => true,
        (
            ServerSentences::QueryListVar { ups_name: ups_name_a },
            ServerSentences::QueryListVar { ups_name: ups_name_b },
        ) => ups_name_a@ == ups_name_b@,
        (
            ServerSentences::QueryListRw { ups_name: ups_name_a },
            ServerSentences::QueryListRw { ups_name: ups_name_b },
        ) => ups_name_a@ == ups_name_b@,
        (
            ServerSentences::QueryListCmd { ups_name: ups_name_a },
            ServerSentences::QueryListCmd { ups_name: ups_name_b },
        ) => ups_name_a@ == ups_name_b@,
        (
            ServerSentences::QueryListEnum { ups_name: ups_name_a, var_name: var_name_a },
            ServerSentences::QueryListEnum { ups_name: ups_name_b, var_name: var_name_b },
        ) => ups_name_a@ == ups_name_b@
            && var_name_a@ == var_name_b@,
        (
            ServerSentences::QueryListRange { ups_name: ups_name_a, var_name: var_name_a },
            ServerSentences::QueryListRange { ups_name: ups_name_b, var_name: var_name_b },
        ) => ups_name_a@ == ups_name_b@
            && var_name_a@ == var_name_b@,
        (
            ServerSentences::QueryListClient { ups_name: ups_name_a },
            ServerSentences::QueryListClient { ups_name: ups_name_b },
        ) => ups_name_a@ == ups_name_b@,
        (
            ServerSentences::ExecSetVar { ups_name: ups_name_a, var_name: var_name_a, value: value_a },
            ServerSentences::ExecSetVar { ups_name: ups_name_b, var_name: var_name_b, value: value_b },
        ) => ups_name_a@ == ups_name_b@
            && var_name_a@ == var_name_b@
            && value_a@ == value_b@,
        (
            ServerSentences::ExecInstCmd { ups_name: ups_name_a, cmd_name: cmd_name_a, extra_args: extra_args_a },
            ServerSentences::ExecInstCmd { ups_name: ups_name_b, cmd_name: cmd_name_b, extra_args: extra_args_b },
        ) => ups_name_a@ == ups_name_b@
            && cmd_name_a@ == cmd_name_b@
            && extra_args_a.deep_view() == extra_args_b.deep_view(),
        (ServerSentences::ExecLogout, ServerSentences::ExecLogout) => true,
        (
            ServerSentences::ExecLogin { ups_name: ups_name_a },
            ServerSentences::ExecLogin { ups_name: ups_name_b },
        ) => ups_name_a@ == ups_name_b@,
        (
            ServerSentences::ExecMaster { ups_name: ups_name_a },
            ServerSentences::ExecMaster { ups_name: ups_name_b },
        ) => ups_name_a@ == ups_name_b@,
        (
            ServerSentences::ExecForcedShutDown { ups_name: ups_name_a },
            ServerSentences::ExecForcedShutDown { ups_name: ups_name_b },
        ) => ups_name_a@ == ups_name_b@,
        (
            ServerSentences::SetPassword { password: password_a },
            ServerSentences::SetPassword { password: password_b },
        ) => password_a@ == password_b@,
        (
            ServerSentences::SetUsername { username: username_a },
            ServerSentences::SetUsername { username: username_b },
        ) => username_a@ == username_b@,
        (ServerSentences::ExecStartTLS, ServerSentences::ExecStartTLS) => true,
        (ServerSentences::QueryHelp, ServerSentences::QueryHelp) => true,
        (ServerSentences::QueryVersion, ServerSentences::QueryVersion) => true,
        (ServerSentences::QueryNetworkVersion, ServerSentences::QueryNetworkVersion) => true,
        _ => false,
    }
}

impl ClientSentences {
    /// Encodes the sentence into its raw words, per [`spec_client_encode`].
    pub fn encode(&self) -> (r: Vec<String>)
        ensures
            r.deep_view() == spec_client_encode(*self),
    {
        let mut out: Vec<String> = Vec::new();
        match self {
            ClientSentences::GenericOk => {
                out.push("OK".to_owned());
                proof {
                    assert(out.deep_view() =~= seq!["OK"@]);
                }
            },
            ClientSentences::FsdOk => {
                out.push("OK".to_owned());
                out.push("FSD-SET".to_owned());
                proof {
                    assert(out.deep_view() =~= seq!["OK"@, "FSD-SET"@]);
                }
            },
            ClientSentences::StartTLSOk => {
                out.push("OK".to_owned());
                out.push("STARTTLS".to_owned());
                proof {
                    assert(out.deep_view() =~= seq!["OK"@, "STARTTLS"@]);
                }
            },
            ClientSentences::LogoutOk => {
                out.push("OK".to_owned());
                out.push("Goodbye".to_owned());
                proof {
                    assert(out.deep_view() =~= seq!["OK"@, "Goodbye"@]);
                }
            },
            ClientSentences::RespondErr { message, extras } => {
                out.push("ERR".to_owned());
                out.push(message.clone());
                proof {
                    assert(out.deep_view() =~= seq!["ERR"@, message@]);
                }
                let mut i: usize = 0;
                while i < extras.len()
                    invariant
                        i <= extras@.len(),
                        out.deep_view() == seq!["ERR"@, message@] + extras.deep_view().subrange(0, i as int),
                    decreases extras@.len() - i,
                {
                    let ghost old_out = out.deep_view();
                    out.push(extras[i].clone());
                    proof {
                        assert(out.deep_view() =~= old_out.push(extras@[i as int]@));
                        assert(out.deep_view() =~= seq!["ERR"@, message@] + extras.deep_view().subrange(0, i as int + 1));
                    }
                    i = i + 1;
                }
                proof {
                    assert(extras.deep_view().subrange(0, extras@.len() as int) =~= extras.deep_view());
                }
            },
            ClientSentences::RespondNumLogins { ups_name, num_logins } => {
                out.push("NUMLOGINS".to_owned());
                out.push(ups_name.clone());
                out.push(num_logins.clone());
                proof {
                    assert(out.deep_view() =~= seq!["NUMLOGINS"@, ups_name@, num_logins@]);
                }
            },
            ClientSentences::RespondUpsDesc { ups_name, description } => {
                out.push("UPSDESC".to_owned());
                out.push(ups_name.clone());
                out.push(description.clone());
                proof {
                    assert(out.deep_view() =~= seq!["UPSDESC"@, ups_name@, description@]);
                }
            },
            ClientSentences::RespondVar { ups_name, var_name, value } => {
                out.push("VAR".to_owned());
                out.push(ups_name.clone());
                out.push(var_name.clone());
                out.push(value.clone());
                proof {
                    assert(out.deep_view() =~= seq!["VAR"@, ups_name@, var_name@, value@]);
                }
            },
            ClientSentences::RespondType { ups_name, var_name, var_types } => {
                out.push("TYPE".to_owned());
                out.push(ups_name.clone());
                out.push(var_name.clone());
                proof {
                    assert(out.deep_view() =~= seq!["TYPE"@, ups_name@, var_name@]);
                }
                let mut i: usize = 0;
                while i < var_types.len()
                    invariant
                        i <= var_types@.len(),
                        out.deep_view() == seq!["TYPE"@, ups_name@, var_name@] + var_types.deep_view().subrange(0, i as int),
                    decreases var_types@.len() - i,
                {
                    let ghost old_out = out.deep_view();
                    out.push(var_types[i].clone());
                    proof {
                        assert(out.deep_view() =~= old_out.push(var_types@[i as int]@));
                        assert(out.deep_view() =~= seq!["TYPE"@, ups_name@, var_name@] + var_types.deep_view().subrange(0, i as int + 1));
                    }
                    i = i + 1;
                }
                proof {
                    assert(var_types.deep_view().subrange(0, var_types@.len() as int) =~= var_types.deep_view());
                }
            },
            ClientSentences::RespondDesc { ups_name, var_name, description } => {
                out.push("DESC".to_owned());
                out.push(ups_name.clone());
                out.push(var_name.clone());
                out.push(description.clone());
                proof {
                    assert(out.deep_view() =~= seq!["DESC"@, ups_name@, var_name@, description@]);
                }
            },
            ClientSentences::RespondCmdDesc { ups_name, cmd_name, description } => {
                out.push("CMDDESC".to_owned());
                out.push(ups_name.clone());
                out.push(cmd_name.clone());
                out.push(description.clone());
                proof {
                    assert(out.deep_view() =~= seq!["CMDDESC"@, ups_name@, cmd_name@, description@]);
                }
            },
            ClientSentences::RespondUps { ups_name, description } => {
                out.push("UPS".to_owned());
                out.push(ups_name.clone());
                out.push(description.clone());
                proof {
                    assert(out.deep_view() =~= seq!["UPS"@, ups_name@, description@]);
                }
            },
            ClientSentences::RespondRw { ups_name, var_name, value } => {
                out.push("RW".to_owned());
                out.push(ups_name.clone());
                out.push(var_name.clone());
                out.push(value.clone());
                proof {
                    assert(out.deep_view() =~= seq!["RW"@, ups_name@, var_name@, value@]);
                }
            },
            ClientSentences::RespondCmd { ups_name, cmd_name } => {
                out.push("CMD".to_owned());
                out.push(ups_name.clone());
                out.push(cmd_name.clone());
                proof {
                    assert(out.deep_view() =~= seq!["CMD"@, ups_name@, cmd_name@]);
                }
            },
            ClientSentences::RespondEnum { ups_name, var_name, enum_value } => {
                out.push("ENUM".to_owned());
                out.push(ups_name.clone());
                out.push(var_name.clone());
                out.push(enum_value.clone());
                proof {
                    assert(out.deep_view() =~= seq!["ENUM"@, ups_name@, var_name@, enum_value@]);
                }
            },
            ClientSentences::RespondRange { ups_name, var_name, min_value, max_value } => {
                out.push("RANGE".to_owned());
                out.push(ups_name.clone());
                out.push(var_name.clone());
                out.push(min_value.clone());
                out.push(max_value.clone());
                proof {
                    assert(out.deep_view() =~= seq!["RANGE"@, ups_name@, var_name@, min_value@, max_value@]);
                }
            },
            ClientSentences::RespondClient { ups_name, client_ip } => {
                out.push("CLIENT".to_owned());
                out.push(ups_name.clone());
                out.push(client_ip.clone());
                proof {
                    assert(out.deep_view() =~= seq!["CLIENT"@, ups_name@, client_ip@]);
                }
            },
            ClientSentences::BeginListUps => {
                out.push("BEGIN".to_owned());
                out.push("LIST".to_owned());
                out.push("UPS".to_owned());
                proof {
                    assert(out.deep_view() =~= seq!["BEGIN"@, "LIST"@, "UPS"@]);
                }
            },
            ClientSentences::EndListUps => {
                out.push("END".to_owned());
                out.push("LIST".to_owned());
                out.push("UPS".to_owned());
                proof {
                    assert(out.deep_view() =~= seq!["END"@, "LIST"@, "UPS"@]);
                }
            },
            ClientSentences::BeginListVar { ups_name } => {
                out.push("BEGIN".to_owned());
                out.push("LIST".to_owned());
                out.push("VAR".to_owned());
                out.push(ups_name.clone());
                proof {
                    assert(out.deep_view() =~= seq!["BEGIN"@, "LIST"@, "VAR"@, ups_name@]);
                }
            },
            ClientSentences::EndListVar { ups_name } => {
                out.push("END".to_owned());
                out.push("LIST".to_owned());
                out.push("VAR".to_owned());
                out.push(ups_name.clone());
                proof {
                    assert(out.deep_view() =~= seq!["END"@, "LIST"@, "VAR"@, ups_name@]);
                }
            },
            ClientSentences::BeginListRw { ups_name } => {
                out.push("BEGIN".to_owned());
                out.push("LIST".to_owned());
                out.push("RW".to_owned());
                out.push(ups_name.clone());
                proof {
                    assert(out.deep_view() =~= seq!["BEGIN"@, "LIST"@, "RW"@, ups_name@]);
                }
            },
            ClientSentences::EndListRw { ups_name } => {
                out.push("END".to_owned());
                out.push("LIST".to_owned());
                out.push("RW".to_owned());
                out.push(ups_name.clone());
                proof {
                    assert(out.deep_view() =~= seq!["END"@, "LIST"@, "RW"@, ups_name@]);
                }
            },
            ClientSentences::BeginListCmd { ups_name } => {
                out.push("BEGIN".to_owned());
                out.push("LIST".to_owned());
                out.push("CMD".to_owned());
                out.push(ups_name.clone());
                proof {
                    assert(out.deep_view() =~= seq!["BEGIN"@, "LIST"@, "CMD"@, ups_name@]);
                }
            },
            ClientSentences::EndListCmd { ups_name } => {
                out.push("END".to_owned());
                out.push("LIST".to_owned());
                out.push("CMD".to_owned());
                out.push(ups_name.clone());
                proof {
                    assert(out.deep_view() =~= seq!["END"@, "LIST"@, "CMD"@, ups_name@]);
                }
            },
            ClientSentences::BeginListEnum { ups_name, var_name } => {
                out.push("BEGIN".to_owned());
                out.push("LIST".to_owned());
                out.push("ENUM".to_owned());
                out.push(ups_name.clone());
                out.push(var_name.clone());
                proof {
                    assert(out.deep_view() =~= seq!["BEGIN"@, "LIST"@, "ENUM"@, ups_name@, var_name@]);
                }
            },
            ClientSentences::EndListEnum { ups_name, var_name } => {
                out.push("END".to_owned());
                out.push("LIST".to_owned());
                out.push("ENUM".to_owned());
                out.push(ups_name.clone());
                out.push(var_name.clone());
                proof {
                    assert(out.deep_view() =~= seq!["END"@, "LIST"@, "ENUM"@, ups_name@, var_name@]);
                }
            },
            ClientSentences::BeginListRange { ups_name, var_name } => {
                out.push("BEGIN".to_owned());
                out.push("LIST".to_owned());
                out.push("RANGE".to_owned());
                out.push(ups_name.clone());
                out.push(var_name.clone());
                proof {
                    assert(out.deep_view() =~= seq!["BEGIN"@, "LIST"@, "RANGE"@, ups_name@, var_name@]);
                }
            },
            ClientSentences::EndListRange { ups_name, var_name } => {
                out.push("END".to_owned());
                out.push("LIST".to_owned());
                out.push("RANGE".to_owned());
                out.push(ups_name.clone());
                out.push(var_name.clone());
                proof {
                    assert(out.deep_view() =~= seq!["END"@, "LIST"@, "RANGE"@, ups_name@, var_name@]);
                }
            },
            ClientSentences::BeginListClient { ups_name } => {
                out.push("BEGIN".to_owned());
                out.push("LIST".to_owned());
                out.push("CLIENT".to_owned());
                out.push(ups_name.clone());
                proof {
                    assert(out.deep_view() =~= seq!["BEGIN"@, "LIST"@, "CLIENT"@, ups_name@]);
                }
            },
            ClientSentences::EndListClient { ups_name } => {
                out.push("END".to_owned());
                out.push("LIST".to_owned());
                out.push("CLIENT".to_owned());
                out.push(ups_name.clone());
                proof {
                    assert(out.deep_view() =~= seq!["END"@, "LIST"@, "CLIENT"@, ups_name@]);
                }
            },
        }
        out
    }

    /// Decodes raw words into a sentence, per [`spec_client_decodes`].
    pub fn decode(raw: &Vec<String>) -> (r: Option<ClientSentences>)
        ensures
            spec_client_decodes(raw.deep_view(), r),
    {
        proof {
            assert(forall|i: int| 0 <= i < raw@.len() ==> raw.deep_view()[i] == raw@[i]@);
        }
        let n = raw.len();
        if n == 0 {
            return None;
        }
        let w0 = word_of_token(raw[0].as_str());
        match w0 {
            Word::OkKw => {
                if n == 1 {
                    Some(ClientSentences::GenericOk)
                } else if n == 2 && str_eq(raw[1].as_str(), "FSD-SET") {
                    Some(ClientSentences::FsdOk)
                } else if n == 2 && str_eq(raw[1].as_str(), "STARTTLS") {
                    Some(ClientSentences::StartTLSOk)
                } else if n == 2 && str_eq(raw[1].as_str(), "Goodbye") {
                    Some(ClientSentences::LogoutOk)
                } else {
                    None
                }
            },
            Word::ErrKw => {
                if n >= 2 {
                    let mut tail: Vec<String> = Vec::new();
                    let mut i: usize = 2;
                    proof {
                        assert(tail.deep_view() =~= raw.deep_view().subrange(2, 2));
                    }
                    while i < n
                        invariant
                            2 <= i <= n,
                            n == raw@.len(),
                            tail.deep_view() == raw.deep_view().subrange(2, i as int),
                        decreases n - i,
                    {
                        let ghost old_tail = tail.deep_view();
                        tail.push(raw[i].clone());
                        proof {
                            assert(tail.deep_view() =~= old_tail.push(raw@[i as int]@));
                            assert(tail.deep_view() =~= raw.deep_view().subrange(2, i as int + 1));
                        }
                        i = i + 1;
                    }
                    Some(ClientSentences::RespondErr { message: raw[1].clone(), extras: tail })
                } else {
                    None
                }
            },
            Word::NumLogins => {
                if n == 3 {
                    Some(ClientSentences::RespondNumLogins {
                        ups_name: raw[1].clone(),
                        num_logins: raw[2].clone(),
                    })
                } else {
                    None
                }
            },
            Word::UpsDesc => {
                if n == 3 {
                    Some(ClientSentences::RespondUpsDesc {
                        ups_name: raw[1].clone(),
                        description: raw[2].clone(),
                    })
                } else {
                    None
                }
            },
            Word::Var => {
                if n == 4 {
                    Some(ClientSentences::RespondVar {
                        ups_name: raw[1].clone(),
                        var_name: raw[2].clone(),
                        value: raw[3].clone(),
                    })
                } else {
                    None
                }
            },
            Word::Type => {
                if n >= 3 {
                    let mut tail: Vec<String> = Vec::new();
                    let mut i: usize = 3;
                    proof {
                        assert(tail.deep_view() =~= raw.deep_view().subrange(3, 3));
                    }
                    while i < n
                        invariant
                            3 <= i <= n,
                            n == raw@.len(),
                            tail.deep_view() == raw.deep_view().subrange(3, i as int),
                        decreases n - i,
                    {
                        let ghost old_tail = tail.deep_view();
                        tail.push(raw[i].clone());
                        proof {
                            assert(tail.deep_view() =~= old_tail.push(raw@[i as int]@));
                            assert(tail.deep_view() =~= raw.deep_view().subrange(3, i as int + 1));
                        }
                        i = i + 1;
                    }
                    Some(ClientSentences::RespondType {
                        ups_name: raw[1].clone(),
                        var_name: raw[2].clone(),
                        var_types: tail,
                    })
                } else {
                    None
                }
            },
            Word::Desc => {
                if n == 4 {
                    Some(ClientSentences::RespondDesc {
                        ups_name: raw[1].clone(),
                        var_name: raw[2].clone(),
                        description: raw[3].clone(),
                    })
                } else {
                    None
                }
            },
            Word::CmdDesc => {
                if n == 4 {
                    Some(ClientSentences::RespondCmdDesc {
                        ups_name: raw[1].clone(),
                        cmd_name: raw[2].clone(),
                        description: raw[3].clone(),
                    })
                } else {
                    None
                }
            },
            Word::Ups => {
                if n == 3 {
                    Some(ClientSentences::RespondUps {
                        ups_name: raw[1].clone(),
                        description: raw[2].clone(),
                    })
                } else {
                    None
                }
            },
            Word::Rw => {
                if n == 4 {
                    Some(ClientSentences::RespondRw {
                        ups_name: raw[1].clone(),
                        var_name: raw[2].clone(),
                        value: raw[3].clone(),
                    })
                } else {
                    None
                }
            },
            Word::Cmd => {
                if n == 3 {
                    Some(ClientSentences::RespondCmd {
                        ups_name: raw[1].clone(),
                        cmd_name: raw[2].clone(),
                    })
                } else {
                    None
                }
            },
            Word::Enum => {
                if n == 4 {
                    Some(ClientSentences::RespondEnum {
                        ups_name: raw[1].clone(),
                        var_name: raw[2].clone(),
                        enum_value: raw[3].clone(),
                    })
                } else {
                    None
                }
            },
            Word::Range => {
                if n == 5 {
                    Some(ClientSentences::RespondRange {
                        ups_name: raw[1].clone(),
                        var_name: raw[2].clone(),
                        min_value: raw[3].clone(),
                        max_value: raw[4].clone(),
                    })
                } else {
                    None
                }
            },
            Word::Client => {
                if n == 3 {
                    Some(ClientSentences::RespondClient {
                        ups_name: raw[1].clone(),
                        client_ip: raw[2].clone(),
                    })
                } else {
                    None
                }
            },
            Word::Begin => {
                if n == 3 && str_eq(raw[1].as_str(), "LIST") && str_eq(raw[2].as_str(), "UPS") {
                    Some(ClientSentences::BeginListUps)
                } else if n == 4 && str_eq(raw[1].as_str(), "LIST") && str_eq(raw[2].as_str(), "VAR") {
                    Some(ClientSentences::BeginListVar { ups_name: raw[3].clone() })
                } else if n == 4 && str_eq(raw[1].as_str(), "LIST") && str_eq(raw[2].as_str(), "RW") {
                    Some(ClientSentences::BeginListRw { ups_name: raw[3].clone() })
                } else if n == 4 && str_eq(raw[1].as_str(), "LIST") && str_eq(raw[2].as_str(), "CMD") {
                    Some(ClientSentences::BeginListCmd { ups_name: raw[3].clone() })
                } else if n == 5 && str_eq(raw[1].as_str(), "LIST") && str_eq(raw[2].as_str(), "ENUM") {
                    Some(ClientSentences::BeginListEnum {
                        ups_name: raw[3].clone(),
                        var_name: raw[4].clone(),
                    })
                } else if n == 5 && str_eq(raw[1].as_str(), "LIST") && str_eq(raw[2].as_str(), "RANGE") {
                    Some(ClientSentences::BeginListRange {
                        ups_name: raw[3].clone(),
                        var_name: raw[4].clone(),
                    })
                } else if n == 4 && str_eq(raw[1].as_str(), "LIST") && str_eq(raw[2].as_str(), "CLIENT") {
                    Some(ClientSentences::BeginListClient { ups_name: raw[3].clone() })
                } else {
                    None
                }
            },
            Word::End => {
                if n == 3 && str_eq(raw[1].as_str(), "LIST") && str_eq(raw[2].as_str(), "UPS") {
                    Some(ClientSentences::EndListUps)
                } else if n == 4 && str_eq(raw[1].as_str(), "LIST") && str_eq(raw[2].as_str(), "VAR") {
                    Some(ClientSentences::EndListVar { ups_name: raw[3].clone() })
                } else if n == 4 && str_eq(raw[1].as_str(), "LIST") && str_eq(raw[2].as_str(), "RW") {
                    Some(ClientSentences::EndListRw { ups_name: raw[3].clone() })
                } else if n == 4 && str_eq(raw[1].as_str(), "LIST") && str_eq(raw[2].as_str(), "CMD") {
                    Some(ClientSentences::EndListCmd { ups_name: raw[3].clone() })
                } else if n == 5 && str_eq(raw[1].as_str(), "LIST") && str_eq(raw[2].as_str(), "ENUM") {
                    Some(ClientSentences::EndListEnum {
                        ups_name: raw[3].clone(),
                        var_name: raw[4].clone(),
                    })
                } else if n == 5 && str_eq(raw[1].as_str(), "LIST") && str_eq(raw[2].as_str(), "RANGE") {
                    Some(ClientSentences::EndListRange {
                        ups_name: raw[3].clone(),
                        var_name: raw[4].clone(),
                    })
                } else if n == 4 && str_eq(raw[1].as_str(), "LIST") && str_eq(raw[2].as_str(), "CLIENT") {
                    Some(ClientSentences::EndListClient { ups_name: raw[3].clone() })
                } else {
                    None
                }
            },
            _ => None,
        }
    }

    /// Whether the two sentences have the same variant and the same
    /// field text, per [`spec_client_equiv`].
    pub fn equiv(&self, other: &ClientSentences) -> (r: bool)
        ensures
            r == spec_client_equiv(*self, *other),
    {
        match (self, other) {
            (ClientSentences::GenericOk, ClientSentences::GenericOk) => true,
            (ClientSentences::FsdOk, ClientSentences::FsdOk) => true,
            (ClientSentences::StartTLSOk, ClientSentences::StartTLSOk) => true,
            (ClientSentences::LogoutOk, ClientSentences::LogoutOk) => true,
            (
                ClientSentences::RespondErr { message: message_a, extras: extras_a },
                ClientSentences::RespondErr { message: message_b, extras: extras_b },
            ) => str_eq(message_a.as_str(), message_b.as_str())
                && str_vec_eq(extras_a, extras_b),
            (
                ClientSentences::RespondNumLogins { ups_name: ups_name_a, num_logins: num_logins_a },
                ClientSentences::RespondNumLogins { ups_name: ups_name_b, num_logins: num_logins_b },
            ) => str_eq(ups_name_a.as_str(), ups_name_b.as_str())
                && str_eq(num_logins_a.as_str(), num_logins_b.as_str()),
            (
                ClientSentences::RespondUpsDesc { ups_name: ups_name_a, description: description_a },
                ClientSentences::RespondUpsDesc { ups_name: ups_name_b, description: description_b },
            ) => str_eq(ups_name_a.as_str(), ups_name_b.as_str())
                && str_eq(description_a.as_str(), description_b.as_str()),
            (
                ClientSentences::RespondVar { ups_name: ups_name_a, var_name: var_name_a, value: value_a },
                ClientSentences::RespondVar { ups_name: ups_name_b, var_name: var_name_b, value: value_b },
            ) => str_eq(ups_name_a.as_str(), ups_name_b.as_str())
                && str_eq(var_name_a.as_str(), var_name_b.as_str())
                && str_eq(value_a.as_str(), value_b.as_str()),
            (
                ClientSentences::RespondType { ups_name: ups_name_a, var_name: var_name_a, var_types: var_types_a },
                ClientSentences::RespondType { ups_name: ups_name_b, var_name: var_name_b, var_types: var_types_b },
            ) => str_eq(ups_name_a.as_str(), ups_name_b.as_str())
                && str_eq(var_name_a.as_str(), var_name_b.as_str())
                && str_vec_eq(var_types_a, var_types_b),
            (
                ClientSentences::RespondDesc { ups_name: ups_name_a, var_name: var_name_a, description: description_a },
                ClientSentences::RespondDesc { ups_name: ups_name_b, var_name: var_name_b, description: description_b },
            ) => str_eq(ups_name_a.as_str(), ups_name_b.as_str())
                && str_eq(var_name_a.as_str(), var_name_b.as_str())
                && str_eq(description_a.as_str(), description_b.as_str()),
            (
                ClientSentences::RespondCmdDesc { ups_name: ups_name_a, cmd_name: cmd_name_a, description: description_a },
                ClientSentences::RespondCmdDesc { ups_name: ups_name_b, cmd_name: cmd_name_b, description: description_b },
            ) => str_eq(ups_name_a.as_str(), ups_name_b.as_str())
                && str_eq(cmd_name_a.as_str(), cmd_name_b.as_str())
                && str_eq(description_a.as_str(), description_b.as_str()),
            (
                ClientSentences::RespondUps { ups_name: ups_name_a, description: description_a },
                ClientSentences::RespondUps { ups_name: ups_name_b, description: description_b },
            ) => str_eq(ups_name_a.as_str(), ups_name_b.as_str())
                && str_eq(description_a.as_str(), description_b.as_str()),
            (
                ClientSentences::RespondRw { ups_name: ups_name_a, var_name: var_name_a, value: value_a },
                ClientSentences::RespondRw { ups_name: ups_name_b, var_name: var_name_b, value: value_b },
            ) => str_eq(ups_name_a.as_str(), ups_name_b.as_str())
                && str_eq(var_name_a.as_str(), var_name_b.as_str())
                && str_eq(value_a.as_str(), value_b.as_str()),
            (
                ClientSentences::RespondCmd { ups_name: ups_name_a, cmd_name: cmd_name_a },
                ClientSentences::RespondCmd { ups_name: ups_name_b, cmd_name: cmd_name_b },
            ) => str_eq(ups_name_a.as_str(), ups_name_b.as_str())
                && str_eq(cmd_name_a.as_str(), cmd_name_b.as_str()),
            (
                ClientSentences::RespondEnum { ups_name: ups_name_a, var_name: var_name_a, enum_value: enum_value_a },
                ClientSentences::RespondEnum { ups_name: ups_name_b, var_name: var_name_b, enum_value: enum_value_b },
            ) => str_eq(ups_name_a.as_str(), ups_name_b.as_str())
                && str_eq(var_name_a.as_str(), var_name_b.as_str())
                && str_eq(enum_value_a.as_str(), enum_value_b.as_str()),
            (
                ClientSentences::RespondRange { ups_name: ups_name_a, var_name: var_name_a, min_value: min_value_a, max_value: max_value_a },
                ClientSentences::RespondRange { ups_name: ups_name_b, var_name: var_name_b, min_value: min_value_b, max_value: max_value_b },
            ) => str_eq(ups_name_a.as_str(), ups_name_b.as_str())
                && str_eq(var_name_a.as_str(), var_name_b.as_str())
                && str_eq(min_value_a.as_str(), min_value_b.as_str())
                && str_eq(max_value_a.as_str(), max_value_b.as_str()),
            (
                ClientSentences::RespondClient { ups_name: ups_name_a, client_ip: client_ip_a },
                ClientSentences::RespondClient { ups_name: ups_name_b, client_ip: client_ip_b },
            ) => str_eq(ups_name_a.as_str(), ups_name_b.as_str())
                && str_eq(client_ip_a.as_str(), client_ip_b.as_str()),
            (ClientSentences::BeginListUps, ClientSentences::BeginListUps) => true,
            (ClientSentences::EndListUps, ClientSentences::EndListUps) => true,
            (
                ClientSentences::BeginListVar { ups_name: ups_name_a },
                ClientSentences::BeginListVar { ups_name: ups_name_b },
            ) => str_eq(ups_name_a.as_str(), ups_name_b.as_str()),
            (
                ClientSentences::EndListVar { ups_name: ups_name_a },
                ClientSentences::EndListVar { ups_name: ups_name_b },
            ) => str_eq(ups_name_a.as_str(), ups_name_b.as_str()),
            (
                ClientSentences::BeginListRw { ups_name: ups_name_a },
                ClientSentences::BeginListRw { ups_name: ups_name_b },
            ) => str_eq(ups_name_a.as_str(), ups_name_b.as_str()),
            (
                ClientSentences::EndListRw { ups_name: ups_name_a },
                ClientSentences::EndListRw { ups_name: ups_name_b },
            ) => str_eq(ups_name_a.as_str(), ups_name_b.as_str()),
            (
                ClientSentences::BeginListCmd { ups_name: ups_name_a },
                ClientSentences::BeginListCmd { ups_name: ups_name_b },
            ) => str_eq(ups_name_a.as_str(), ups_name_b.as_str()),
            (
                ClientSentences::EndListCmd { ups_name: ups_name_a },
                ClientSentences::EndListCmd { ups_name: ups_name_b },
            ) => str_eq(ups_name_a.as_str(), ups_name_b.as_str()),
            (
                ClientSentences::BeginListEnum { ups_name: ups_name_a, var_name: var_name_a },
                ClientSentences::BeginListEnum { ups_name: ups_name_b, var_name: var_name_b },
            ) => str_eq(ups_name_a.as_str(), ups_name_b.as_str())
                && str_eq(var_name_a.as_str(), var_name_b.as_str()),
            (
                ClientSentences::EndListEnum { ups_name: ups_name_a, var_name: var_name_a },
                ClientSentences::EndListEnum { ups_name: ups_name_b, var_name: var_name_b },
            ) => str_eq(ups_name_a.as_str(), ups_name_b.as_str())
                && str_eq(var_name_a.as_str(), var_name_b.as_str()),
            (
                ClientSentences::BeginListRange { ups_name: ups_name_a, var_name: var_name_a },
                ClientSentences::BeginListRange { ups_name: ups_name_b, var_name: var_name_b },
            ) => str_eq(ups_name_a.as_str(), ups_name_b.as_str())
                && str_eq(var_name_a.as_str(), var_name_b.as_str()),
            (
                ClientSentences::EndListRange { ups_name: ups_name_a, var_name: var_name_a },
                ClientSentences::EndListRange { ups_name: ups_name_b, var_name: var_name_b },
            ) => str_eq(ups_name_a.as_str(), ups_name_b.as_str())
                && str_eq(var_name_a.as_str(), var_name_b.as_str()),
            (
                ClientSentences::BeginListClient { ups_name: ups_name_a },
                ClientSentences::BeginListClient { ups_name: ups_name_b },
            ) => str_eq(ups_name_a.as_str(), ups_name_b.as_str()),
            (
                ClientSentences::EndListClient { ups_name: ups_name_a },
                ClientSentences::EndListClient { ups_name: ups_name_b },
            ) => str_eq(ups_name_a.as_str(), ups_name_b.as_str()),
            _ => false,
        }
    }
}

impl ServerSentences {
    /// Encodes the sentence into its raw words, per [`spec_server_encode`].
    pub fn encode(&self) -> (r: Vec<String>)
        ensures
            r.deep_view() == spec_server_encode(*self),
    {
        let mut out: Vec<String> = Vec::new();
        match self {
            ServerSentences::QueryNumLogins { ups_name } => {
                out.push("GET".to_owned());
                out.push("NUMLOGINS".to_owned());
                out.push(ups_name.clone());
                proof {
                    assert(out.deep_view() =~= seq!["GET"@, "NUMLOGINS"@, ups_name@]);
                }
            },
            ServerSentences::QueryUpsDesc { ups_name } => {
                out.push("GET".to_owned());
                out.push("UPSDESC".to_owned());
                out.push(ups_name.clone());
                proof {
                    assert(out.deep_view() =~= seq!["GET"@, "UPSDESC"@, ups_name@]);
                }
            },
            ServerSentences::QueryVar { ups_name, var_name } => {
                out.push("GET".to_owned());
                out.push("VAR".to_owned());
                out.push(ups_name.clone());
                out.push(var_name.clone());
                proof {
                    assert(out.deep_view() =~= seq!["GET"@, "VAR"@, ups_name@, var_name@]);
                }
            },
            ServerSentences::QueryType { ups_name, var_name } => {
                out.push("GET".to_owned());
                out.push("TYPE".to_owned());
                out.push(ups_name.clone());
                out.push(var_name.clone());
                proof {
                    assert(out.deep_view() =~= seq!["GET"@, "TYPE"@, ups_name@, var_name@]);
                }
            },
            ServerSentences::QueryDesc { ups_name, var_name } => {
                out.push("GET".to_owned());
                out.push("DESC".to_owned());
                out.push(ups_name.clone());
                out.push(var_name.clone());
                proof {
                    assert(out.deep_view() =~= seq!["GET"@, "DESC"@, ups_name@, var_name@]);
                }
            },
            ServerSentences::QueryCmdDesc { ups_name, cmd_name } => {
                out.push("GET".to_owned());
                out.push("CMDDESC".to_owned());
                out.push(ups_name.clone());
                out.push(cmd_name.clone());
                proof {
                    assert(out.deep_view() =~= seq!["GET"@, "CMDDESC"@, ups_name@, cmd_name@]);
                }
            },
            ServerSentences::QueryListUps => {
                out.push("LIST".to_owned());
                out.push("UPS".to_owned());
                proof {
                    assert(out.deep_view() =~= seq!["LIST"@, "UPS"@]);
                }
            },
            ServerSentences::QueryListVar { ups_name } => {
                out.push("LIST".to_owned());
                out.push("VAR".to_owned());
                out.push(ups_name.clone());
                proof {
                    assert(out.deep_view() =~= seq!["LIST"@, "VAR"@, ups_name@]);
                }
            },
            ServerSentences::QueryListRw { ups_name } => {
                out.push("LIST".to_owned());
                out.push("RW".to_owned());
                out.push(ups_name.clone());
                proof {
                    assert(out.deep_view() =~= seq!["LIST"@, "RW"@, ups_name@]);
                }
            },
            ServerSentences::QueryListCmd { ups_name } => {
                out.push("LIST".to_owned());
                out.push("CMD".to_owned());
                out.push(ups_name.clone());
                proof {
                    assert(out.deep_view() =~= seq!["LIST"@, "CMD"@, ups_name@]);
                }
            },
            ServerSentences::QueryListEnum { ups_name, var_name } => {
                out.push("LIST".to_owned());
                out.push("ENUM".to_owned());
                out.push(ups_name.clone());
                out.push(var_name.clone());
                proof {
                    assert(out.deep_view() =~= seq!["LIST"@, "ENUM"@, ups_name@, var_name@]);
                }
            },
            ServerSentences::QueryListRange { ups_name, var_name } => {
                out.push("LIST".to_owned());
                out.push("RANGE".to_owned());
                out.push(ups_name.clone());
                out.push(var_name.clone());
                proof {
                    assert(out.deep_view() =~= seq!["LIST"@, "RANGE"@, ups_name@, var_name@]);
                }
            },
            ServerSentences::QueryListClient { ups_name } => {
                out.push("LIST".to_owned());
                out.push("CLIENT".to_owned());
                out.push(ups_name.clone());
                proof {
                    assert(out.deep_view() =~= seq!["LIST"@, "CLIENT"@, ups_name@]);
                }
            },
            ServerSentences::ExecSetVar { ups_name, var_name, value } => {
                out.push("SET".to_owned());
                out.push("VAR".to_owned());
                out.push(ups_name.clone());
                out.push(var_name.clone());
                out.push(value.clone());
                proof {
                    assert(out.deep_view() =~= seq!["SET"@, "VAR"@, ups_name@, var_name@, value@]);
                }
            },
            ServerSentences::ExecInstCmd { ups_name, cmd_name, extra_args } => {
                out.push("INSTCMD".to_owned());
                out.push(ups_name.clone());
                out.push(cmd_name.clone());
                proof {
                    assert(out.deep_view() =~= seq!["INSTCMD"@, ups_name@, cmd_name@]);
                }
                let mut i: usize = 0;
                while i < extra_args.len()
                    invariant
                        i <= extra_args@.len(),
                        out.deep_view() == seq!["INSTCMD"@, ups_name@, cmd_name@] + extra_args.deep_view().subrange(0, i as int),
                    decreases extra_args@.len() - i,
                {
                    let ghost old_out = out.deep_view();
                    out.push(extra_args[i].clone());
                    proof {
                        assert(out.deep_view() =~= old_out.push(extra_args@[i as int]@));
                        assert(out.deep_view() =~= seq!["INSTCMD"@, ups_name@, cmd_name@] + extra_args.deep_view().subrange(0, i as int + 1));
                    }
                    i = i + 1;
                }
                proof {
                    assert(extra_args.deep_view().subrange(0, extra_args@.len() as int) =~= extra_args.deep_view());
                }
            },
            ServerSentences::ExecLogout => {
                out.push("LOGOUT".to_owned());
                proof {
                    assert(out.deep_view() =~= seq!["LOGOUT"@]);
                }
            },
            ServerSentences::ExecLogin { ups_name } => {
                out.push("LOGIN".to_owned());
                out.push(ups_name.clone());
                proof {
                    assert(out.deep_view() =~= seq!["LOGIN"@, ups_name@]);
                }
            },
            ServerSentences::ExecMaster { ups_name } => {
                out.push("MASTER".to_owned());
                out.push(ups_name.clone());
                proof {
                    assert(out.deep_view() =~= seq!["MASTER"@, ups_name@]);
                }
            },
            ServerSentences::ExecForcedShutDown { ups_name } => {
                out.push("FSD".to_owned());
                out.push(ups_name.clone());
                proof {
                    assert(out.deep_view() =~= seq!["FSD"@, ups_name@]);
                }
            },
            ServerSentences::SetPassword { password } => {
                out.push("PASSWORD".to_owned());
                out.push(password.clone());
                proof {
                    assert(out.deep_view() =~= seq!["PASSWORD"@, password@]);
                }
            },
            ServerSentences::SetUsername { username } => {
                out.push("USERNAME".to_owned());
                out.push(username.clone());
                proof {
                    assert(out.deep_view() =~= seq!["USERNAME"@, username@]);
                }
            },
            ServerSentences::ExecStartTLS => {
                out.push("STARTTLS".to_owned());
                proof {
                    assert(out.deep_view() =~= seq!["STARTTLS"@]);
                }
            },
            ServerSentences::QueryHelp => {
                out.push("HELP".to_owned());
                proof {
                    assert(out.deep_view() =~= seq!["HELP"@]);
                }
            },
            ServerSentences::QueryVersion => {
                out.push("VERSION".to_owned());
                proof {
                    assert(out.deep_view() =~= seq!["VERSION"@]);
                }
            },
            ServerSentences::QueryNetworkVersion => {
                out.push("NETVER".to_owned());
                proof {
                    assert(out.deep_view() =~= seq!["NETVER"@]);
                }
            },
        }
        out
    }

    /// Decodes raw words into a sentence, per [`spec_server_decodes`].
    pub fn decode(raw: &Vec<String>) -> (r: Option<ServerSentences>)
        ensures
            spec_server_decodes(raw.deep_view(), r),
    {
        proof {
            assert(forall|i: int| 0 <= i < raw@.len() ==> raw.deep_view()[i] == raw@[i]@);
        }
        let n = raw.len();
        if n == 0 {
            return None;
        }
        let w0 = word_of_token(raw[0].as_str());
        match w0 {
            Word::Get => {
                if n == 3 && str_eq(raw[1].as_str(), "NUMLOGINS") {
                    Some(ServerSentences::QueryNumLogins { ups_name: raw[2].clone() })
                } else if n == 3 && str_eq(raw[1].as_str(), "UPSDESC") {
                    Some(ServerSentences::QueryUpsDesc { ups_name: raw[2].clone() })
                } else if n == 4 && str_eq(raw[1].as_str(), "VAR") {
                    Some(ServerSentences::QueryVar {
                        ups_name: raw[2].clone(),
                        var_name: raw[3].clone(),
                    })
                } else if n == 4 && str_eq(raw[1].as_str(), "TYPE") {
                    Some(ServerSentences::QueryType {
                        ups_name: raw[2].clone(),
                        var_name: raw[3].clone(),
                    })
                } else if n == 4 && str_eq(raw[1].as_str(), "DESC") {
                    Some(ServerSentences::QueryDesc {
                        ups_name: raw[2].clone(),
                        var_name: raw[3].clone(),
                    })
                } else if n == 4 && str_eq(raw[1].as_str(), "CMDDESC") {
                    Some(ServerSentences::QueryCmdDesc {
                        ups_name: raw[2].clone(),
                        cmd_name: raw[3].clone(),
                    })
                } else {
                    None
                }
            },
            Word::List => {
                if n == 2 && str_eq(raw[1].as_str(), "UPS") {
                    Some(ServerSentences::QueryListUps)
                } else if n == 3 && str_eq(raw[1].as_str(), "VAR") {
                    Some(ServerSentences::QueryListVar { ups_name: raw[2].clone() })
                } else if n == 3 && str_eq(raw[1].as_str(), "RW") {
                    Some(ServerSentences::QueryListRw { ups_name: raw[2].clone() })
                } else if n == 3 && str_eq(raw[1].as_str(), "CMD") {
                    Some(ServerSentences::QueryListCmd { ups_name: raw[2].clone() })
                } else if n == 4 && str_eq(raw[1].as_str(), "ENUM") {
                    Some(ServerSentences::QueryListEnum {
                        ups_name: raw[2].clone(),
                        var_name: raw[3].clone(),
                    })
                } else if n == 4 && str_eq(raw[1].as_str(), "RANGE") {
                    Some(ServerSentences::QueryListRange {
                        ups_name: raw[2].clone(),
                        var_name: raw[3].clone(),
                    })
                } else if n == 3 && str_eq(raw[1].as_str(), "CLIENT") {
                    Some(ServerSentences::QueryListClient { ups_name: raw[2].clone() })
                } else {
                    None
                }
            },
            Word::SetKw => {
                if n == 5 && str_eq(raw[1].as_str(), "VAR") {
                    Some(ServerSentences::ExecSetVar {
                        ups_name: raw[2].clone(),
                        var_name: raw[3].clone(),
                        value: raw[4].clone(),
                    })
                } else {
                    None
                }
            },
            Word::InstCmd => {
                if n >= 3 {
                    let mut tail: Vec<String> = Vec::new();
                    let mut i: usize = 3;
                    proof {
                        assert(tail.deep_view() =~= raw.deep_view().subrange(3, 3));
                    }
                    while i < n
                        invariant
                            3 <= i <= n,
                            n == raw@.len(),
                            tail.deep_view() == raw.deep_view().subrange(3, i as int),
                        decreases n - i,
                    {
                        let ghost old_tail = tail.deep_view();
                        tail.push(raw[i].clone());
                        proof {
                            assert(tail.deep_view() =~= old_tail.push(raw@[i as int]@));
                            assert(tail.deep_view() =~= raw.deep_view().subrange(3, i as int + 1));
                        }
                        i = i + 1;
                    }
                    Some(ServerSentences::ExecInstCmd {
                        ups_name: raw[1].clone(),
                        cmd_name: raw[2].clone(),
                        extra_args: tail,
                    })
                } else {
                    None
                }
            },
            Word::Logout => {
                if n == 1 {
                    Some(ServerSentences::ExecLogout)
                } else {
                    None
                }
            },
            Word::Login => {
                if n == 2 {
                    Some(ServerSentences::ExecLogin { ups_name: raw[1].clone() })
                } else {
                    None
                }
            },
            Word::Master => {
                if n == 2 {
                    Some(ServerSentences::ExecMaster { ups_name: raw[1].clone() })
                } else {
                    None
                }
            },
            Word::Fsd => {
                if n == 2 {
                    Some(ServerSentences::ExecForcedShutDown { ups_name: raw[1].clone() })
                } else {
                    None
                }
            },
            Word::Password => {
                if n == 2 {
                    Some(ServerSentences::SetPassword { password: raw[1].clone() })
                } else {
                    None
                }
            },
            Word::Username => {
                if n == 2 {
                    Some(ServerSentences::SetUsername { username: raw[1].clone() })
                } else {
                    None
                }
            },
            Word::StartTls => {
                if n == 1 {
                    Some(ServerSentences::ExecStartTLS)
                } else {
                    None
                }
            },
            Word::Help => {
                if n == 1 {
                    Some(ServerSentences::QueryHelp)
                } else {
                    None
                }
            },
            Word::Version => {
                if n == 1 {
                    Some(ServerSentences::QueryVersion)
                } else {
                    None
                }
            },
            Word::NetVer => {
                if n == 1 {
                    Some(ServerSentences::QueryNetworkVersion)
                } else {
                    None
                }
            },
            _ => None,
        }
    }

    /// Whether the two sentences have the same variant and the same
    /// field text, per [`spec_server_equiv`].
    pub fn equiv(&self, other: &ServerSentences) -> (r: bool)
        ensures
            r == spec_server_equiv(*self, *other),
    {
        match (self, other) {
            (
                ServerSentences::QueryNumLogins { ups_name: ups_name_a },
                ServerSentences::QueryNumLogins { ups_name: ups_name_b },
            ) => str_eq(ups_name_a.as_str(), ups_name_b.as_str()),
            (
                ServerSentences::QueryUpsDesc { ups_name: ups_name_a },
                ServerSentences::QueryUpsDesc { ups_name: ups_name_b },
            ) => str_eq(ups_name_a.as_str(), ups_name_b.as_str()),
            (
                ServerSentences::QueryVar { ups_name: ups_name_a, var_name: var_name_a },
                ServerSentences::QueryVar { ups_name: ups_name_b, var_name: var_name_b },
            ) => str_eq(ups_name_a.as_str(), ups_name_b.as_str())
                && str_eq(var_name_a.as_str(), var_name_b.as_str()),
            (
                ServerSentences::QueryType { ups_name: ups_name_a, var_name: var_name_a },
                ServerSentences::QueryType { ups_name: ups_name_b, var_name: var_name_b },
            ) => str_eq(ups_name_a.as_str(), ups_name_b.as_str())
                && str_eq(var_name_a.as_str(), var_name_b.as_str()),
            (
                ServerSentences::QueryDesc { ups_name: ups_name_a, var_name: var_name_a },
                ServerSentences::QueryDesc { ups_name: ups_name_b, var_name: var_name_b },
            ) => str_eq(ups_name_a.as_str(), ups_name_b.as_str())
                && str_eq(var_name_a.as_str(), var_name_b.as_str()),
            (
                ServerSentences::QueryCmdDesc { ups_name: ups_name_a, cmd_name: cmd_name_a },
                ServerSentences::QueryCmdDesc { ups_name: ups_name_b, cmd_name: cmd_name_b },
            ) => str_eq(ups_name_a.as_str(), ups_name_b.as_str())
                && str_eq(cmd_name_a.as_str(), cmd_name_b.as_str()),
            (ServerSentences::QueryListUps, ServerSentences::QueryListUps) => true,
            (
                ServerSentences::QueryListVar { ups_name: ups_name_a },
                ServerSentences::QueryListVar { ups_name: ups_name_b },
            ) => str_eq(ups_name_a.as_str(), ups_name_b.as_str()),
            (
                ServerSentences::QueryListRw { ups_name: ups_name_a },
                ServerSentences::QueryListRw { ups_name: ups_name_b },
            ) => str_eq(ups_name_a.as_str(), ups_name_b.as_str()),
            (
                ServerSentences::QueryListCmd { ups_name: ups_name_a },
                ServerSentences::QueryListCmd { ups_name: ups_name_b },
            ) => str_eq(ups_name_a.as_str(), ups_name_b.as_str()),
            (
                ServerSentences::QueryListEnum { ups_name: ups_name_a, var_name: var_name_a },
                ServerSentences::QueryListEnum { ups_name: ups_name_b, var_name: var_name_b },
            ) => str_eq(ups_name_a.as_str(), ups_name_b.as_str())
                && str_eq(var_name_a.as_str(), var_name_b.as_str()),
            (
                ServerSentences::QueryListRange { ups_name: ups_name_a, var_name: var_name_a },
                ServerSentences::QueryListRange { ups_name: ups_name_b, var_name: var_name_b },
            ) => str_eq(ups_name_a.as_str(), ups_name_b.as_str())
                && str_eq(var_name_a.as_str(), var_name_b.as_str()),
            (
                ServerSentences::QueryListClient { ups_name: ups_name_a },
                ServerSentences::QueryListClient { ups_name: ups_name_b },
            ) => str_eq(ups_name_a.as_str(), ups_name_b.as_str()),
            (
                ServerSentences::ExecSetVar { ups_name: ups_name_a, var_name: var_name_a, value: value_a },
                ServerSentences::ExecSetVar { ups_name: ups_name_b, var_name: var_name_b, value: value_b },
            ) => str_eq(ups_name_a.as_str(), ups_name_b.as_str())
                && str_eq(var_name_a.as_str(), var_name_b.as_str())
                && str_eq(value_a.as_str(), value_b.as_str()),
            (
                ServerSentences::ExecInstCmd { ups_name: ups_name_a, cmd_name: cmd_name_a, extra_args: extra_args_a },
                ServerSentences::ExecInstCmd { ups_name: ups_name_b, cmd_name: cmd_name_b, extra_args: extra_args_b },
            ) => str_eq(ups_name_a.as_str(), ups_name_b.as_str())
                && str_eq(cmd_name_a.as_str(), cmd_name_b.as_str())
                && str_vec_eq(extra_args_a, extra_args_b),
            (ServerSentences::ExecLogout, ServerSentences::ExecLogout) => true,
            (
                ServerSentences::ExecLogin { ups_name: ups_name_a },
                ServerSentences::ExecLogin { ups_name: ups_name_b },
            ) => str_eq(ups_name_a.as_str(), ups_name_b.as_str()),
            (
                ServerSentences::ExecMaster { ups_name: ups_name_a },
                ServerSentences::ExecMaster { ups_name: ups_name_b },
            ) => str_eq(ups_name_a.as_str(), ups_name_b.as_str()),
            (
                ServerSentences::ExecForcedShutDown { ups_name: ups_name_a },
                ServerSentences::ExecForcedShutDown { ups_name: ups_name_b },
            ) => str_eq(ups_name_a.as_str(), ups_name_b.as_str()),
            (
                ServerSentences::SetPassword { password: password_a },
                ServerSentences::SetPassword { password: password_b },
            ) => str_eq(password_a.as_str(), password_b.as_str()),
            (
                ServerSentences::SetUsername { username: username_a },
                ServerSentences::SetUsername { username: username_b },
            ) => str_eq(username_a.as_str(), username_b.as_str()),
            (ServerSentences::ExecStartTLS, ServerSentences::ExecStartTLS) => true,
            (ServerSentences::QueryHelp, ServerSentences::QueryHelp) => true,
            (ServerSentences::QueryVersion, ServerSentences::QueryVersion) => true,
            (ServerSentences::QueryNetworkVersion, ServerSentences::QueryNetworkVersion) => true,
            _ => false,
        }
    }
}

/// Codec round-trip: whatever decoding says of an encoded sentence, it
/// is the sentence itself, variant and field text alike.
pub proof fn lemma_client_encode_decode(s: ClientSentences, r: Option<ClientSentences>)
    requires
        spec_client_decodes(spec_client_encode(s), r),
    ensures
        r matches Some(t) && spec_client_equiv(s, t),
{
    lemma_keyword_spellings();
    let raw = spec_client_encode(s);
    match s {
        ClientSentences::GenericOk => {
            assert(raw =~= seq!["OK"@]);
            assert(raw.len() == 1);
            assert(raw[0] == "OK"@);
        },
        ClientSentences::FsdOk => {
            assert(raw =~= seq!["OK"@, "FSD-SET"@]);
            assert(raw.len() == 2);
            assert(raw[0] == "OK"@);
            assert(raw[1] == "FSD-SET"@);
        },
        ClientSentences::StartTLSOk => {
            assert(raw =~= seq!["OK"@, "STARTTLS"@]);
            assert(raw.len() == 2);
            assert(raw[0] == "OK"@);
            assert(raw[1] == "STARTTLS"@);
        },
        ClientSentences::LogoutOk => {
            assert(raw =~= seq!["OK"@, "Goodbye"@]);
            assert(raw.len() == 2);
            assert(raw[0] == "OK"@);
            assert(raw[1] == "Goodbye"@);
        },
        ClientSentences::RespondErr { message, extras } => {
            assert(raw =~= seq!["ERR"@, message@] + extras.deep_view());
            assert(raw.len() >= 2);
            assert(raw[0] == "ERR"@);
            assert(raw.subrange(2, raw.len() as int) =~= extras.deep_view());
        },
        ClientSentences::RespondNumLogins { ups_name, num_logins } => {
            assert(raw =~= seq!["NUMLOGINS"@, ups_name@, num_logins@]);
            assert(raw.len() == 3);
            assert(raw[0] == "NUMLOGINS"@);
        },
        ClientSentences::RespondUpsDesc { ups_name, description } => {
            assert(raw =~= seq!["UPSDESC"@, ups_name@, description@]);
            assert(raw.len() == 3);
            assert(raw[0] == "UPSDESC"@);
        },
        ClientSentences::RespondVar { ups_name, var_name, value } => {
            assert(raw =~= seq!["VAR"@, ups_name@, var_name@, value@]);
            assert(raw.len() == 4);
            assert(raw[0] == "VAR"@);
        },
        ClientSentences::RespondType { ups_name, var_name, var_types } => {
            assert(raw =~= seq!["TYPE"@, ups_name@, var_name@] + var_types.deep_view());
            assert(raw.len() >= 3);
            assert(raw[0] == "TYPE"@);
            assert(raw.subrange(3, raw.len() as int) =~= var_types.deep_view());
        },
        ClientSentences::RespondDesc { ups_name, var_name, description } => {
            assert(raw =~= seq!["DESC"@, ups_name@, var_name@, description@]);
            assert(raw.len() == 4);
            assert(raw[0] == "DESC"@);
        },
        ClientSentences::RespondCmdDesc { ups_name, cmd_name, description } => {
            assert(raw =~= seq!["CMDDESC"@, ups_name@, cmd_name@, description@]);
            assert(raw.len() == 4);
            assert(raw[0] == "CMDDESC"@);
        },
        ClientSentences::RespondUps { ups_name, description } => {
            assert(raw =~= seq!["UPS"@, ups_name@, description@]);
            assert(raw.len() == 3);
            assert(raw[0] == "UPS"@);
        },
        ClientSentences::RespondRw { ups_name, var_name, value } => {
            assert(raw =~= seq!["RW"@, ups_name@, var_name@, value@]);
            assert(raw.len() == 4);
            assert(raw[0] == "RW"@);
        },
        ClientSentences::RespondCmd { ups_name, cmd_name } => {
            assert(raw =~= seq!["CMD"@, ups_name@, cmd_name@]);
            assert(raw.len() == 3);
            assert(raw[0] == "CMD"@);
        },
        ClientSentences::RespondEnum { ups_name, var_name, enum_value } => {
            assert(raw =~= seq!["ENUM"@, ups_name@, var_name@, enum_value@]);
            assert(raw.len() == 4);
            assert(raw[0] == "ENUM"@);
        },
        ClientSentences::RespondRange { ups_name, var_name, min_value, max_value } => {
            assert(raw =~= seq!["RANGE"@, ups_name@, var_name@, min_value@, max_value@]);
            assert(raw.len() == 5);
            assert(raw[0] == "RANGE"@);
        },
        ClientSentences::RespondClient { ups_name, client_ip } => {
            assert(raw =~= seq!["CLIENT"@, ups_name@, client_ip@]);
            assert(raw.len() == 3);
            assert(raw[0] == "CLIENT"@);
        },
        ClientSentences::BeginListUps => {
            assert(raw =~= seq!["BEGIN"@, "LIST"@, "UPS"@]);
            assert(raw.len() == 3);
            assert(raw[0] == "BEGIN"@);
            assert(raw[1] == "LIST"@);
            assert(raw[2] == "UPS"@);
        },
        ClientSentences::EndListUps => {
            assert(raw =~= seq!["END"@, "LIST"@, "UPS"@]);
            assert(raw.len() == 3);
            assert(raw[0] == "END"@);
            assert(raw[1] == "LIST"@);
            assert(raw[2] == "UPS"@);
        },
        ClientSentences::BeginListVar { ups_name } => {
            assert(raw =~= seq!["BEGIN"@, "LIST"@, "VAR"@, ups_name@]);
            assert(raw.len() == 4);
            assert(raw[0] == "BEGIN"@);
            assert(raw[1] == "LIST"@);
            assert(raw[2] == "VAR"@);
        },
        ClientSentences::EndListVar { ups_name } => {
            assert(raw =~= seq!["END"@, "LIST"@, "VAR"@, ups_name@]);
            assert(raw.len() == 4);
            assert(raw[0] == "END"@);
            assert(raw[1] == "LIST"@);
            assert(raw[2] == "VAR"@);
        },
        ClientSentences::BeginListRw { ups_name } => {
            assert(raw =~= seq!["BEGIN"@, "LIST"@, "RW"@, ups_name@]);
            assert(raw.len() == 4);
            assert(raw[0] == "BEGIN"@);
            assert(raw[1] == "LIST"@);
            assert(raw[2] == "RW"@);
        },
        ClientSentences::EndListRw { ups_name } => {
            assert(raw =~= seq!["END"@, "LIST"@, "RW"@, ups_name@]);
            assert(raw.len() == 4);
            assert(raw[0] == "END"@);
            assert(raw[1] == "LIST"@);
            assert(raw[2] == "RW"@);
        },
        ClientSentences::BeginListCmd { ups_name } => {
            assert(raw =~= seq!["BEGIN"@, "LIST"@, "CMD"@, ups_name@]);
            assert(raw.len() == 4);
            assert(raw[0] == "BEGIN"@);
            assert(raw[1] == "LIST"@);
            assert(raw[2] == "CMD"@);
        },
        ClientSentences::EndListCmd { ups_name } => {
            assert(raw =~= seq!["END"@, "LIST"@, "CMD"@, ups_name@]);
            assert(raw.len() == 4);
            assert(raw[0] == "END"@);
            assert(raw[1] == "LIST"@);
            assert(raw[2] == "CMD"@);
        },
        ClientSentences::BeginListEnum { ups_name, var_name } => {
            assert(raw =~= seq!["BEGIN"@, "LIST"@, "ENUM"@, ups_name@, var_name@]);
            assert(raw.len() == 5);
            assert(raw[0] == "BEGIN"@);
            assert(raw[1] == "LIST"@);
            assert(raw[2] == "ENUM"@);
        },
        ClientSentences::EndListEnum { ups_name, var_name } => {
            assert(raw =~= seq!["END"@, "LIST"@, "ENUM"@, ups_name@, var_name@]);
            assert(raw.len() == 5);
            assert(raw[0] == "END"@);
            assert(raw[1] == "LIST"@);
            assert(raw[2] == "ENUM"@);
        },
        ClientSentences::BeginListRange { ups_name, var_name } => {
            assert(raw =~= seq!["BEGIN"@, "LIST"@, "RANGE"@, ups_name@, var_name@]);
            assert(raw.len() == 5);
            assert(raw[0] == "BEGIN"@);
            assert(raw[1] == "LIST"@);
            assert(raw[2] == "RANGE"@);
        },
        ClientSentences::EndListRange { ups_name, var_name } => {
            assert(raw =~= seq!["END"@, "LIST"@, "RANGE"@, ups_name@, var_name@]);
            assert(raw.len() == 5);
            assert(raw[0] == "END"@);
            assert(raw[1] == "LIST"@);
            assert(raw[2] == "RANGE"@);
        },
        ClientSentences::BeginListClient { ups_name } => {
            assert(raw =~= seq!["BEGIN"@, "LIST"@, "CLIENT"@, ups_name@]);
            assert(raw.len() == 4);
            assert(raw[0] == "BEGIN"@);
            assert(raw[1] == "LIST"@);
            assert(raw[2] == "CLIENT"@);
        },
        ClientSentences::EndListClient { ups_name } => {
            assert(raw =~= seq!["END"@, "LIST"@, "CLIENT"@, ups_name@]);
            assert(raw.len() == 4);
            assert(raw[0] == "END"@);
            assert(raw[1] == "LIST"@);
            assert(raw[2] == "CLIENT"@);
        },
    }
}

/// Codec round-trip: whatever decoding says of an encoded sentence, it
/// is the sentence itself, variant and field text alike.
pub proof fn lemma_server_encode_decode(s: ServerSentences, r: Option<ServerSentences>)
    requires
        spec_server_decodes(spec_server_encode(s), r),
    ensures
        r matches Some(t) && spec_server_equiv(s, t),
{
    lemma_keyword_spellings();
    let raw = spec_server_encode(s);
    match s {
        ServerSentences::QueryNumLogins { ups_name } => {
            assert(raw =~= seq!["GET"@, "NUMLOGINS"@, ups_name@]);
            assert(raw.len() == 3);
            assert(raw[0] == "GET"@);
            assert(raw[1] == "NUMLOGINS"@);
        },
        ServerSentences::QueryUpsDesc { ups_name } => {
            assert(raw =~= seq!["GET"@, "UPSDESC"@, ups_name@]);
            assert(raw.len() == 3);
            assert(raw[0] == "GET"@);
            assert(raw[1] == "UPSDESC"@);
        },
        ServerSentences::QueryVar { ups_name, var_name } => {
            assert(raw =~= seq!["GET"@, "VAR"@, ups_name@, var_name@]);
            assert(raw.len() == 4);
            assert(raw[0] == "GET"@);
            assert(raw[1] == "VAR"@);
        },
        ServerSentences::QueryType { ups_name, var_name } => {
            assert(raw =~= seq!["GET"@, "TYPE"@, ups_name@, var_name@]);
            assert(raw.len() == 4);
            assert(raw[0] == "GET"@);
            assert(raw[1] == "TYPE"@);
        },
        ServerSentences::QueryDesc { ups_name, var_name } => {
            assert(raw =~= seq!["GET"@, "DESC"@, ups_name@, var_name@]);
            assert(raw.len() == 4);
            assert(raw[0] == "GET"@);
            assert(raw[1] == "DESC"@);
        },
        ServerSentences::QueryCmdDesc { ups_name, cmd_name } => {
            assert(raw =~= seq!["GET"@, "CMDDESC"@, ups_name@, cmd_name@]);
            assert(raw.len() == 4);
            assert(raw[0] == "GET"@);
            assert(raw[1] == "CMDDESC"@);
        },
        ServerSentences::QueryListUps => {
            assert(raw =~= seq!["LIST"@, "UPS"@]);
            assert(raw.len() == 2);
            assert(raw[0] == "LIST"@);
            assert(raw[1] == "UPS"@);
        },
        ServerSentences::QueryListVar { ups_name } => {
            assert(raw =~= seq!["LIST"@, "VAR"@, ups_name@]);
            assert(raw.len() == 3);
            assert(raw[0] == "LIST"@);
            assert(raw[1] == "VAR"@);
        },
        ServerSentences::QueryListRw { ups_name } => {
            assert(raw =~= seq!["LIST"@, "RW"@, ups_name@]);
            assert(raw.len() == 3);
            assert(raw[0] == "LIST"@);
            assert(raw[1] == "RW"@);
        },
        ServerSentences::QueryListCmd { ups_name } => {
            assert(raw =~= seq!["LIST"@, "CMD"@, ups_name@]);
            assert(raw.len() == 3);
            assert(raw[0] == "LIST"@);
            assert(raw[1] == "CMD"@);
        },
        ServerSentences::QueryListEnum { ups_name, var_name } => {
            assert(raw =~= seq!["LIST"@, "ENUM"@, ups_name@, var_name@]);
            assert(raw.len() == 4);
            assert(raw[0] == "LIST"@);
            assert(raw[1] == "ENUM"@);
        },
        ServerSentences::QueryListRange { ups_name, var_name } => {
            assert(raw =~= seq!["LIST"@, "RANGE"@, ups_name@, var_name@]);
            assert(raw.len() == 4);
            assert(raw[0] == "LIST"@);
            assert(raw[1] == "RANGE"@);
        },
        ServerSentences::QueryListClient { ups_name } => {
            assert(raw =~= seq!["LIST"@, "CLIENT"@, ups_name@]);
            assert(raw.len() == 3);
            assert(raw[0] == "LIST"@);
            assert(raw[1] == "CLIENT"@);
        },
        ServerSentences::ExecSetVar { ups_name, var_name, value } => {
            assert(raw =~= seq!["SET"@, "VAR"@, ups_name@, var_name@, value@]);
            assert(raw.len() == 5);
            assert(raw[0] == "SET"@);
            assert(raw[1] == "VAR"@);
        },
        ServerSentences::ExecInstCmd { ups_name, cmd_name, extra_args } => {
            assert(raw =~= seq!["INSTCMD"@, ups_name@, cmd_name@] + extra_args.deep_view());
            assert(raw.len() >= 3);
            assert(raw[0] == "INSTCMD"@);
            assert(raw.subrange(3, raw.len() as int) =~= extra_args.deep_view());
        },
        ServerSentences::ExecLogout => {
            assert(raw =~= seq!["LOGOUT"@]);
            assert(raw.len() == 1);
            assert(raw[0] == "LOGOUT"@);
        },
        ServerSentences::ExecLogin { ups_name } => {
            assert(raw =~= seq!["LOGIN"@, ups_name@]);
            assert(raw.len() == 2);
            assert(raw[0] == "LOGIN"@);
        },
        ServerSentences::ExecMaster { ups_name } => {
            assert(raw =~= seq!["MASTER"@, ups_name@]);
            assert(raw.len() == 2);
            assert(raw[0] == "MASTER"@);
        },
        ServerSentences::ExecForcedShutDown { ups_name } => {
            assert(raw =~= seq!["FSD"@, ups_name@]);
            assert(raw.len() == 2);
            assert(raw[0] == "FSD"@);
        },
        ServerSentences::SetPassword { password } => {
            assert(raw =~= seq!["PASSWORD"@, password@]);
            assert(raw.len() == 2);
            assert(raw[0] == "PASSWORD"@);
        },
        ServerSentences::SetUsername { username } => {
            assert(raw =~= seq!["USERNAME"@, username@]);
            assert(raw.len() == 2);
            assert(raw[0] == "USERNAME"@);
        },
        ServerSentences::ExecStartTLS => {
            assert(raw =~= seq!["STARTTLS"@]);
            assert(raw.len() == 1);
            assert(raw[0] == "STARTTLS"@);
        },
        ServerSentences::QueryHelp => {
            assert(raw =~= seq!["HELP"@]);
            assert(raw.len() == 1);
            assert(raw[0] == "HELP"@);
        },
        ServerSentences::QueryVersion => {
            assert(raw =~= seq!["VERSION"@]);
            assert(raw.len() == 1);
            assert(raw[0] == "VERSION"@);
        },
        ServerSentences::QueryNetworkVersion => {
            assert(raw =~= seq!["NETVER"@]);
            assert(raw.len() == 1);
            assert(raw[0] == "NETVER"@);
        },
    }
}

} // verus!
