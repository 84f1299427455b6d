//! The connection driver: issues requests, reads typed responses,
//! assembles list blocks, authenticates, upgrades to TLS and tears the
//! session down.
//!
//! A session progresses from connected, through an optional `STARTTLS`
//! upgrade, an optional `USERNAME` and `PASSWORD`, and an optional
//! `LOGIN` registration, to its `LOGOUT`; every intermediate
//! acknowledgement is a bare `OK`. A protocol error leaves the session
//! where it was and the connection usable; after a transport failure the
//! connection must only be closed.
//!
//! The driver owns its transport stream exclusively, and every operation
//! takes the connection by exclusive borrow: at most one operation can be
//! in flight on a connection at a time, by the shape of the API.

use vstd::prelude::*;

use crate::cmd::{spec_from_args, spec_is_generic_err, Response};
use crate::config::Config;
use crate::error::{Error, NutError};
use crate::sentences::{spec_server_encode, ServerSentences};
use crate::ssl::{make_client_session, remap_starttls_error};
use crate::stream::{
    lemma_shape_preserves_buffering, spec_line_end, spec_mock, spec_pos_after, spec_same_shape,
    spec_tls_session, stream_inv, ConnectionStream, MockStream,
};
use crate::text::push_char;
use crate::tokenizer::{spec_join_line, spec_join_words, spec_split_words, spec_strip_newlines, split_sentence};
use crate::var::{spec_types_from, spec_variable_parse, Variable, VariableDefinition, VariableRange};

verus! {

/// Words joined by single spaces, with no quoting: the free-form text of
/// a simple response.
pub open spec fn spec_join_plain(ts: Seq<Seq<char>>) -> Seq<char>
    decreases ts.len(),
{
    if ts.len() == 0 {
        Seq::empty()
    } else if ts.len() == 1 {
        ts[0]
    } else {
        ts[0] + seq![' '] + spec_join_plain(ts.drop_first())
    }
}

/// Joining distributes over appending one word.
proof fn lemma_join_plain_snoc(ts: Seq<Seq<char>>, t: Seq<char>)
    ensures
        spec_join_plain(ts.push(t)) == if ts.len() == 0 {
            t
        } else {
            spec_join_plain(ts) + seq![' '] + t
        },
    decreases ts.len(),
{
    if ts.len() == 0 {
        assert(ts.push(t) =~= seq![t]);
        assert(spec_join_plain(ts.push(t)) =~= t);
    } else if ts.len() == 1 {
        assert(ts.push(t).drop_first() =~= seq![t]);
        assert(ts.push(t)[0] == ts[0]);
        assert(seq![t][0] == t);
        assert(spec_join_plain(seq![t]) == t);
        assert(spec_join_plain(ts.push(t)) =~= ts[0] + seq![' '] + t);
    } else {
        assert(ts.push(t).drop_first() =~= ts.drop_first().push(t));
        lemma_join_plain_snoc(ts.drop_first(), t);
        assert(spec_join_plain(ts.push(t)) =~= spec_join_plain(ts) + seq![' '] + t);
    }
}

/// Joins words with single spaces and no quoting.
fn join_plain(words: &Vec<String>) -> (r: String)
    ensures
        r@ == spec_join_plain(words.deep_view()),
{
    let mut r = String::new();
    let mut i: usize = 0;
    proof {
        assert(words.deep_view().subrange(0, 0) =~= Seq::<Seq<char>>::empty());
    }
    while i < words.len()
        invariant
            i <= words@.len(),
            r@ == spec_join_plain(words.deep_view().subrange(0, i as int)),
        decreases words@.len() - i,
    {
        proof {
            assert(words.deep_view()[i as int] == words@[i as int]@);
            lemma_join_plain_snoc(words.deep_view().subrange(0, i as int), words@[i as int]@);
            assert(words.deep_view().subrange(0, i as int).push(words@[i as int]@)
                =~= words.deep_view().subrange(0, i as int + 1));
        }
        if i > 0 {
            push_char(&mut r, ' ');
        }
        r.append(words[i].as_str());
        proof {
            assert(r@ =~= spec_join_plain(words.deep_view().subrange(0, i as int + 1)));
        }
        i = i + 1;
    }
    proof {
        assert(words.deep_view().subrange(0, words@.len() as int) =~= words.deep_view());
    }
    r
}

/// What reading one typed response from the line at `pos` yields: end of
/// stream is a transport EOF, an unbalanced line cannot be processed, and
/// an intact line reads per [`spec_from_args`].
pub open spec fn spec_response_at(s: Seq<char>, pos: int, r: Result<Response, Error>) -> bool {
    let line = s.subrange(pos, spec_line_end(s, pos));
    if line.len() == 0 {
        r == Err::<Response, Error>(Error::Io(crate::error::IoErrorKind::UnexpectedEof))
    } else {
        match spec_split_words(spec_strip_newlines(line)) {
            None => r == Err::<Response, Error>(Error::Nut(NutError::NotProcessable)),
            Some(toks) => spec_from_args(toks, r),
        }
    }
}

/// What reading one free-form line at `pos` yields: the words of the line
/// joined back with single spaces.
pub open spec fn spec_plain_at(s: Seq<char>, pos: int, r: Result<String, Error>) -> bool {
    let line = s.subrange(pos, spec_line_end(s, pos));
    if line.len() == 0 {
        r == Err::<String, Error>(Error::Io(crate::error::IoErrorKind::UnexpectedEof))
    } else {
        match spec_split_words(spec_strip_newlines(line)) {
            None => r == Err::<String, Error>(Error::Nut(NutError::NotProcessable)),
            Some(toks) => r matches Ok(t) && t@ == spec_join_plain(toks),
        }
    }
}

/// Demanding a bare acknowledgement of a read outcome.
pub open spec fn spec_ok_step(rr: Result<Response, Error>, r: Result<(), Error>) -> bool {
    match rr {
        Err(e) => r == Err::<(), Error>(e),
        Ok(resp) => match r {
            Ok(_) => resp is Okay,
            Err(e) => !(resp is Okay) && e == Error::Nut(NutError::UnexpectedResponse),
        },
    }
}

/// A successful list read: a matching `BEGIN LIST` echo, then the items,
/// none of which ends a list, then a matching `END LIST` echo; the final
/// position sits past the end line.
pub open spec fn spec_list_ok(
    s: Seq<char>,
    pos: int,
    expected: Seq<char>,
    items: Seq<Response>,
    end_pos: int,
) -> bool {
    &&& exists|b: Response|
        #[trigger] spec_response_at(s, pos, Ok(b)) && (b matches Response::BeginList(q) && q@
            == expected)
    &&& items.len() < 1000
    &&& forall|i: int|
        0 <= i < items.len() ==> #[trigger] spec_response_at(
            s,
            spec_pos_after(s, pos, (i + 1) as nat),
            Ok(items[i]),
        ) && !(items[i] is EndList)
    &&& exists|en: Response|
        #[trigger] spec_response_at(s, spec_pos_after(s, pos, (items.len() + 1) as nat), Ok(en))
            && (en matches Response::EndList(q) && q@ == expected)
    &&& end_pos == spec_pos_after(s, pos, (items.len() + 2) as nat)
}

/// A failed list read: the opening line failed or was not the matching
/// `BEGIN LIST` echo; or some later line failed or closed the list with
/// the wrong echo; or, after a matching opening, a full thousand rows
/// arrived with no end in sight. Every branch names the lines actually
/// read, so a read cannot claim a failure its input does not show.
pub open spec fn spec_list_err(
    s: Seq<char>,
    pos: int,
    expected: Seq<char>,
    e: Error,
    end_pos: int,
) -> bool {
    ||| spec_response_at(s, pos, Err::<Response, Error>(e)) && end_pos == spec_pos_after(
        s,
        pos,
        1nat,
    )
    ||| exists|b: Response|
        #[trigger] spec_response_at(s, pos, Ok(b)) && !(b matches Response::BeginList(q) && q@
            == expected) && e == Error::Nut(NutError::UnexpectedResponse) && end_pos
            == spec_pos_after(s, pos, 1nat)
    ||| exists|pre: Seq<Response>|
        {
            &&& pre.len() < 1000
            &&& exists|b: Response|
                #[trigger] spec_response_at(s, pos, Ok(b)) && (b matches Response::BeginList(q)
                    && q@ == expected)
            &&& forall|i: int|
                0 <= i < pre.len() ==> #[trigger] spec_response_at(
                    s,
                    spec_pos_after(s, pos, (i + 1) as nat),
                    Ok(pre[i]),
                ) && !(pre[i] is EndList)
            &&& ({
                ||| spec_response_at(
                    s,
                    spec_pos_after(s, pos, (pre.len() + 1) as nat),
                    Err::<Response, Error>(e),
                )
                ||| exists|en: Response|
                    #[trigger] spec_response_at(
                        s,
                        spec_pos_after(s, pos, (pre.len() + 1) as nat),
                        Ok(en),
                    ) && en is EndList && !(en matches Response::EndList(q) && q@ == expected) && e
                        == Error::Nut(NutError::UnexpectedResponse)
            })
            &&& end_pos == spec_pos_after(s, pos, (pre.len() + 2) as nat)
        }
    ||| exists|pre: Seq<Response>|
        {
            &&& pre.len() == 1000
            &&& exists|b: Response|
                #[trigger] spec_response_at(s, pos, Ok(b)) && (b matches Response::BeginList(q)
                    && q@ == expected)
            &&& forall|i: int|
                0 <= i < pre.len() ==> #[trigger] spec_response_at(
                    s,
                    spec_pos_after(s, pos, (i + 1) as nat),
                    Ok(pre[i]),
                ) && !(pre[i] is EndList)
            &&& e matches Error::Nut(n) && n is Generic
            &&& end_pos == spec_pos_after(s, pos, 1001nat)
        }
}

/// A connection to a NUT server: the transport stream and the
/// configuration it was opened with. The stream is owned exclusively.
pub struct Connection {
    stream: ConnectionStream,
    config: Config,
}

impl Connection {
    /// The transport stream of the connection.
    pub closed spec fn spec_stream(&self) -> ConnectionStream {
        self.stream
    }

    /// The configuration of the connection.
    pub closed spec fn spec_config(&self) -> Config {
        self.config
    }

    /// The scripted input of the underlying in-memory stream.
    pub open spec fn s_in(&self) -> Seq<char> {
        spec_mock(self.spec_stream()).spec_input()
    }

    /// The read position on the underlying in-memory stream.
    pub open spec fn s_pos(&self) -> int {
        spec_mock(self.spec_stream()).spec_pos()
    }

    /// Everything written to the underlying in-memory stream.
    pub open spec fn s_out(&self) -> Seq<char> {
        spec_mock(self.spec_stream()).spec_output()
    }

    /// A healthy connection: the stream is buffered exactly once, so line
    /// reads are served and a TLS upgrade can unbuffer it.
    pub open spec fn inv(&self) -> bool {
        &&& stream_inv(self.spec_stream())
        &&& self.spec_stream() matches ConnectionStream::Buffered(b) && !(*b is Buffered)
    }

    /// The wrappers of the stream are unchanged: only the in-memory
    /// stream at the bottom moved.
    pub open spec fn same_shape(&self, later: &Connection) -> bool {
        &&& spec_same_shape(self.spec_stream(), later.spec_stream())
        &&& later.spec_config() == self.spec_config()
    }

    /// Wires a connection up over the given transport, buffering it. The
    /// protocol-level opening steps (TLS upgrade, authentication) follow
    /// in [`Connection::open`].
    pub fn attach(config: Config, transport: ConnectionStream) -> (r: Connection)
        requires
            stream_inv(transport),
            !(transport is Buffered),
        ensures
            r.inv(),
            r.spec_stream() == ConnectionStream::Buffered(Box::new(transport)),
            r.spec_config() == config,
    {
        Connection { stream: transport.buffered(), config }
    }

    /// Writes one request sentence and flushes.
    fn write_request(&mut self, s: &ServerSentences) -> (r: Result<(), Error>)
        requires
            old(self).inv(),
        ensures
            final(self).inv(),
            old(self).same_shape(final(self)),
            r is Ok,
            final(self).s_in() == old(self).s_in(),
            final(self).s_pos() == old(self).s_pos(),
            final(self).s_out() == old(self).s_out() + spec_join_line(spec_server_encode(*s)),
    {
        let r = self.stream.write_server_sentence(s);
        proof {
            lemma_shape_preserves_buffering(old(self).spec_stream(), self.stream);
        }
        r
    }

    /// Reads one typed response line, per [`spec_response_at`].
    pub fn read_response(&mut self) -> (r: Result<Response, Error>)
        requires
            old(self).inv(),
        ensures
            final(self).inv(),
            old(self).same_shape(final(self)),
            final(self).s_in() == old(self).s_in(),
            final(self).s_out() == old(self).s_out(),
            final(self).s_pos() == spec_line_end(old(self).s_in(), old(self).s_pos()),
            spec_response_at(old(self).s_in(), old(self).s_pos(), r),
    {
        let got = self.stream.read_line();
        proof {
            lemma_shape_preserves_buffering(old(self).spec_stream(), self.stream);
        }
        let line = match got {
            Ok(line) => line,
            Err(e) => {
                return Err(e);
            },
        };
        if line.as_str().unicode_len() == 0 {
            return Err(Error::eof());
        }
        let words = match split_sentence(line.as_str()) {
            Some(words) => words,
            None => {
                return Err(Error::Nut(NutError::NotProcessable));
            },
        };
        Response::from_args(words)
    }

    /// Reads one free-form response line, per [`spec_plain_at`].
    pub fn read_plain_response(&mut self) -> (r: Result<String, Error>)
        requires
            old(self).inv(),
        ensures
            final(self).inv(),
            old(self).same_shape(final(self)),
            final(self).s_in() == old(self).s_in(),
            final(self).s_out() == old(self).s_out(),
            final(self).s_pos() == spec_line_end(old(self).s_in(), old(self).s_pos()),
            spec_plain_at(old(self).s_in(), old(self).s_pos(), r),
    {
        let got = self.stream.read_line();
        proof {
            lemma_shape_preserves_buffering(old(self).spec_stream(), self.stream);
        }
        let line = match got {
            Ok(line) => line,
            Err(e) => {
                return Err(e);
            },
        };
        if line.as_str().unicode_len() == 0 {
            return Err(Error::eof());
        }
        let words = match split_sentence(line.as_str()) {
            Some(words) => words,
            None => {
                return Err(Error::Nut(NutError::NotProcessable));
            },
        };
        Ok(join_plain(&words))
    }

    /// Writes one request and reads the one response to it.
    fn exchange(&mut self, req: &ServerSentences) -> (r: Result<Response, Error>)
        requires
            old(self).inv(),
        ensures
            final(self).inv(),
            old(self).same_shape(final(self)),
            final(self).s_in() == old(self).s_in(),
            final(self).s_out() == old(self).s_out() + spec_join_line(spec_server_encode(*req)),
            final(self).s_pos() == spec_line_end(old(self).s_in(), old(self).s_pos()),
            spec_response_at(old(self).s_in(), old(self).s_pos(), r),
    {
        match self.write_request(req) {
            Ok(_) => {},
            Err(e) => {
                return Err(e);
            },
        }
        let ghost mid = *self;
        let resp = self.read_response();
        proof {
            crate::stream::lemma_with_mock_compose(old(self).spec_stream(), mid.spec_stream());
        }
        resp
    }

    /// Writes one request and reads the one free-form line answering it.
    fn exchange_plain(&mut self, req: &ServerSentences) -> (r: Result<String, Error>)
        requires
            old(self).inv(),
        ensures
            final(self).inv(),
            old(self).same_shape(final(self)),
            final(self).s_in() == old(self).s_in(),
            final(self).s_out() == old(self).s_out() + spec_join_line(spec_server_encode(*req)),
            final(self).s_pos() == spec_line_end(old(self).s_in(), old(self).s_pos()),
            spec_plain_at(old(self).s_in(), old(self).s_pos(), r),
    {
        match self.write_request(req) {
            Ok(_) => {},
            Err(e) => {
                return Err(e);
            },
        }
        let ghost mid = *self;
        let resp = self.read_plain_response();
        proof {
            crate::stream::lemma_with_mock_compose(old(self).spec_stream(), mid.spec_stream());
        }
        resp
    }

    /// Sends the login username (`USERNAME <u>`), expecting a bare `OK`.
    pub fn set_username(&mut self, username: &str) -> (r: Result<(), Error>)
        requires
            old(self).inv(),
        ensures
            final(self).inv(),
            old(self).same_shape(final(self)),
            final(self).s_in() == old(self).s_in(),
            final(self).s_out() == old(self).s_out() + spec_join_line(
                seq!["USERNAME"@, username@],
            ),
            final(self).s_pos() == spec_line_end(old(self).s_in(), old(self).s_pos()),
            exists|rr: Result<Response, Error>|
                #[trigger] spec_response_at(old(self).s_in(), old(self).s_pos(), rr)
                    && spec_ok_step(rr, r),
    {
        let req = ServerSentences::SetUsername { username: username.to_owned() };
        proof {
            assert(spec_server_encode(req) =~= seq!["USERNAME"@, username@]);
        }
        let rr = self.exchange(&req);
        match rr {
            Ok(resp) => {
                let ghost grr = Result::<Response, Error>::Ok(resp);
                let out = resp.expect_ok();
                proof {
                    assert(spec_response_at(old(self).s_in(), old(self).s_pos(), grr)
                        && spec_ok_step(grr, out));
                }
                out
            },
            Err(e) => {
                proof {
                    let grr = Result::<Response, Error>::Err(e);
                    assert(spec_response_at(old(self).s_in(), old(self).s_pos(), grr)
                        && spec_ok_step(grr, Err::<(), Error>(e)));
                }
                Err(e)
            },
        }
    }

    /// Sends the login password (`PASSWORD <p>`), expecting a bare `OK`.
    pub fn set_password(&mut self, password: &str) -> (r: Result<(), Error>)
        requires
            old(self).inv(),
        ensures
            final(self).inv(),
            old(self).same_shape(final(self)),
            final(self).s_in() == old(self).s_in(),
            final(self).s_out() == old(self).s_out() + spec_join_line(
                seq!["PASSWORD"@, password@],
            ),
            final(self).s_pos() == spec_line_end(old(self).s_in(), old(self).s_pos()),
            exists|rr: Result<Response, Error>|
                #[trigger] spec_response_at(old(self).s_in(), old(self).s_pos(), rr)
                    && spec_ok_step(rr, r),
    {
        let req = ServerSentences::SetPassword { password: password.to_owned() };
        proof {
            assert(spec_server_encode(req) =~= seq!["PASSWORD"@, password@]);
        }
        let rr = self.exchange(&req);
        match rr {
            Ok(resp) => {
                let ghost grr = Result::<Response, Error>::Ok(resp);
                let out = resp.expect_ok();
                proof {
                    assert(spec_response_at(old(self).s_in(), old(self).s_pos(), grr)
                        && spec_ok_step(grr, out));
                }
                out
            },
            Err(e) => {
                proof {
                    let grr = Result::<Response, Error>::Err(e);
                    assert(spec_response_at(old(self).s_in(), old(self).s_pos(), grr)
                        && spec_ok_step(grr, Err::<(), Error>(e)));
                }
                Err(e)
            },
        }
    }

    /// Registers a persistent session against a device (`LOGIN <ups>`),
    /// expecting a bare `OK`. A server allows this once per connection;
    /// a protocol error leaves the connection usable.
    pub fn login(&mut self, ups_name: &str) -> (r: Result<(), Error>)
        requires
            old(self).inv(),
        ensures
            final(self).inv(),
            old(self).same_shape(final(self)),
            final(self).s_in() == old(self).s_in(),
            final(self).s_out() == old(self).s_out() + spec_join_line(seq!["LOGIN"@, ups_name@]),
            final(self).s_pos() == spec_line_end(old(self).s_in(), old(self).s_pos()),
            exists|rr: Result<Response, Error>|
                #[trigger] spec_response_at(old(self).s_in(), old(self).s_pos(), rr)
                    && spec_ok_step(rr, r),
    {
        let req = ServerSentences::ExecLogin { ups_name: ups_name.to_owned() };
        proof {
            assert(spec_server_encode(req) =~= seq!["LOGIN"@, ups_name@]);
        }
        let rr = self.exchange(&req);
        match rr {
            Ok(resp) => {
                let ghost grr = Result::<Response, Error>::Ok(resp);
                let out = resp.expect_ok();
                proof {
                    assert(spec_response_at(old(self).s_in(), old(self).s_pos(), grr)
                        && spec_ok_step(grr, out));
                }
                out
            },
            Err(e) => {
                proof {
                    let grr = Result::<Response, Error>::Err(e);
                    assert(spec_response_at(old(self).s_in(), old(self).s_pos(), grr)
                        && spec_ok_step(grr, Err::<(), Error>(e)));
                }
                Err(e)
            },
        }
    }

    /// Runs an instant command (`INSTCMD <ups> <cmd> [<arg>]`), expecting
    /// a bare `OK`.
    pub fn run_command(&mut self, ups_name: &str, cmd_name: &str, param: Option<&str>) -> (r:
        Result<(), Error>)
        requires
            old(self).inv(),
        ensures
            final(self).inv(),
            old(self).same_shape(final(self)),
            final(self).s_in() == old(self).s_in(),
            final(self).s_out() == old(self).s_out() + spec_join_line(
                seq!["INSTCMD"@, ups_name@, cmd_name@] + (match param {
                    Some(p) => seq![p@],
                    None => Seq::<Seq<char>>::empty(),
                }),
            ),
            final(self).s_pos() == spec_line_end(old(self).s_in(), old(self).s_pos()),
            exists|rr: Result<Response, Error>|
                #[trigger] spec_response_at(old(self).s_in(), old(self).s_pos(), rr)
                    && spec_ok_step(rr, r),
    {
        let mut extra_args: Vec<String> = Vec::new();
        match param {
            Some(p) => {
                extra_args.push(p.to_owned());
            },
            None => {},
        }
        let req = ServerSentences::ExecInstCmd {
            ups_name: ups_name.to_owned(),
            cmd_name: cmd_name.to_owned(),
            extra_args,
        };
        proof {
            assert(spec_server_encode(req) =~= seq!["INSTCMD"@, ups_name@, cmd_name@] + (
            match param {
                Some(p) => seq![p@],
                None => Seq::<Seq<char>>::empty(),
            }));
        }
        let rr = self.exchange(&req);
        match rr {
            Ok(resp) => {
                let ghost grr = Result::<Response, Error>::Ok(resp);
                let out = resp.expect_ok();
                proof {
                    assert(spec_response_at(old(self).s_in(), old(self).s_pos(), grr)
                        && spec_ok_step(grr, out));
                }
                out
            },
            Err(e) => {
                proof {
                    let grr = Result::<Response, Error>::Err(e);
                    assert(spec_response_at(old(self).s_in(), old(self).s_pos(), grr)
                        && spec_ok_step(grr, Err::<(), Error>(e)));
                }
                Err(e)
            },
        }
    }

    /// Sends `LOGOUT`, expecting the server's farewell acknowledgement.
    pub fn logout(&mut self) -> (r: Result<(), Error>)
        requires
            old(self).inv(),
        ensures
            final(self).inv(),
            old(self).same_shape(final(self)),
            final(self).s_in() == old(self).s_in(),
            final(self).s_out() == old(self).s_out() + spec_join_line(seq!["LOGOUT"@]),
            final(self).s_pos() == spec_line_end(old(self).s_in(), old(self).s_pos()),
            exists|rr: Result<Response, Error>|
                #[trigger] spec_response_at(old(self).s_in(), old(self).s_pos(), rr)
                    && spec_ok_step(rr, r),
    {
        let req = ServerSentences::ExecLogout {};
        proof {
            assert(spec_server_encode(req) =~= seq!["LOGOUT"@]);
        }
        let rr = self.exchange(&req);
        match rr {
            Ok(resp) => {
                let ghost grr = Result::<Response, Error>::Ok(resp);
                let out = resp.expect_ok();
                proof {
                    assert(spec_response_at(old(self).s_in(), old(self).s_pos(), grr)
                        && spec_ok_step(grr, out));
                }
                out
            },
            Err(e) => {
                proof {
                    let grr = Result::<Response, Error>::Err(e);
                    assert(spec_response_at(old(self).s_in(), old(self).s_pos(), grr)
                        && spec_ok_step(grr, Err::<(), Error>(e)));
                }
                Err(e)
            },
        }
    }

    /// Gracefully closes the connection: sends `LOGOUT`, expects the
    /// acknowledgement, and drops the transport. The connection is
    /// consumed, so the written line cannot be named here; what the
    /// farewell exchange writes and reads is specified on
    /// [`Connection::logout`], which this calls.
    pub fn close(self) -> (r: Result<(), Error>)
        requires
            self.inv(),
        ensures
            exists|rr: Result<Response, Error>|
                #[trigger] spec_response_at(self.s_in(), self.s_pos(), rr) && spec_ok_step(rr, r),
    {
        let mut conn = self;
        conn.logout()
    }

    /// Everything the connection has written so far.
    pub fn transcript(&self) -> (r: &str)
        ensures
            r@ == self.s_out(),
    {
        self.stream.written()
    }

    /// Whether the traffic passes through a client TLS adapter.
    pub fn is_tls_active(&self) -> (r: bool)
        ensures
            r == (spec_tls_session(self.spec_stream()) is Some),
    {
        self.stream.has_tls()
    }

    /// Gives the transport stream back, dropping the connection.
    pub fn into_stream(self) -> (r: ConnectionStream)
        ensures
            r == self.spec_stream(),
    {
        self.stream
    }

    /// Upgrades the connection to TLS, per the handshake sequence: write
    /// `STARTTLS`, expect the acknowledgement (a refusal because the
    /// feature is not configured means the server cannot do TLS at all),
    /// build the session for the configured policy, wrap the unbuffered
    /// stream in the TLS adapter, re-buffer, and verify the secured
    /// channel with a `NETVER` exchange.
    pub fn start_tls(&mut self) -> (r: Result<(), Error>)
        requires
            old(self).inv(),
        ensures
            final(self).inv(),
            final(self).spec_config() == old(self).spec_config(),
            final(self).s_in() == old(self).s_in(),
            ({
                let s = old(self).s_in();
                let pos = old(self).s_pos();
                let out0 = old(self).s_out();
                let line_st = spec_join_line(seq!["STARTTLS"@]);
                let line_nv = spec_join_line(seq!["NETVER"@]);
                let cfg = old(self).spec_config();
                match r {
                    Ok(_) => {
                        &&& exists|rr: Result<Response, Error>|
                            #[trigger] spec_response_at(s, pos, rr) && (rr matches Ok(resp) && resp
                                is Okay)
                        &&& exists|rp: Result<String, Error>|
                            #[trigger] spec_plain_at(s, spec_pos_after(s, pos, 1nat), rp) && rp
                                is Ok
                        &&& final(self).s_out() == out0 + line_st + line_nv
                        &&& final(self).s_pos() == spec_pos_after(s, pos, 2nat)
                        &&& spec_tls_session(final(self).spec_stream()) matches Some(sess) && {
                            &&& sess.insecure == cfg.ssl_insecure
                            &&& !cfg.ssl_insecure ==> (match cfg.host {
                                crate::host::Host::Tcp(t) => crate::ssl::dns_name_ok(t.hostname@)
                                    && sess.server_name@ == t.hostname@,
                            })
                        }
                    },
                    Err(e) => {
                        ||| ({
                            // the acknowledgement failed or was not a bare OK
                            &&& exists|rr: Result<Response, Error>|
                                #[trigger] spec_response_at(s, pos, rr) && (match rr {
                                    Err(e0) => e == (if e0 == Error::Nut(
                                        NutError::FeatureNotConfigured,
                                    ) {
                                        Error::Nut(NutError::SslNotSupported)
                                    } else {
                                        e0
                                    }),
                                    Ok(resp) => !(resp is Okay) && e == Error::Nut(
                                        NutError::UnexpectedResponse,
                                    ),
                                })
                            &&& final(self).s_out() == out0 + line_st
                            &&& final(self).s_pos() == spec_pos_after(s, pos, 1nat)
                            &&& spec_tls_session(final(self).spec_stream()) == spec_tls_session(
                                old(self).spec_stream(),
                            )
                        })
                        ||| ({
                            // strict verification with a hostname that is no DNS name
                            &&& e == Error::Nut(NutError::SslInvalidHostname)
                            &&& !cfg.ssl_insecure
                            &&& match cfg.host {
                                crate::host::Host::Tcp(t) => !crate::ssl::dns_name_ok(t.hostname@),
                            }
                            &&& final(self).s_out() == out0 + line_st
                            &&& final(self).s_pos() == spec_pos_after(s, pos, 1nat)
                        })
                        ||| ({
                            // the secured channel did not answer the probe
                            &&& exists|rp: Result<String, Error>|
                                #[trigger] spec_plain_at(s, spec_pos_after(s, pos, 1nat), rp) && rp
                                    == Err::<String, Error>(e)
                            &&& final(self).s_out() == out0 + line_st + line_nv
                            &&& final(self).s_pos() == spec_pos_after(s, pos, 2nat)
                            &&& spec_tls_session(final(self).spec_stream()) is Some
                        })
                    },
                }
            }),
    {
        let ghost s = old(self).s_in();
        let ghost pos = old(self).s_pos();
        let req = ServerSentences::ExecStartTLS {};
        proof {
            assert(spec_server_encode(req) =~= seq!["STARTTLS"@]);
        }
        let rr = self.exchange(&req);
        proof {
            crate::stream::lemma_pos_after_snoc(s, pos, 0nat);
            crate::stream::lemma_with_mock_tls(old(self).spec_stream(), spec_mock(
                self.spec_stream(),
            ));
        }
        match rr {
            Ok(resp) => {
                match resp.expect_ok() {
                    Ok(_) => {
                        proof {
                            assert(spec_response_at(s, pos, Result::<Response, Error>::Ok(resp))
                                && resp is Okay);
                        }
                    },
                    Err(e) => {
                        proof {
                            assert(spec_response_at(s, pos, Result::<Response, Error>::Ok(resp)));
                        }
                        return Err(e);
                    },
                }
            },
            Err(e) => {
                proof {
                    assert(spec_response_at(s, pos, Result::<Response, Error>::Err(e)));
                }
                return Err(remap_starttls_error(e));
            },
        }
        let session = match make_client_session(&self.config) {
            Ok(session) => session,
            Err(e) => {
                return Err(e);
            },
        };
        let ghost sess = session;
        let mut tmp: ConnectionStream = ConnectionStream::Mock(MockStream::new(String::new()));
        core::mem::swap(&mut tmp, &mut self.stream);
        let ghost g1 = tmp;
        let tmp = tmp.unbuffered();
        let ghost g2 = tmp;
        proof {
            assert(spec_mock(g1) == spec_mock(g2));
        }
        let tmp = match tmp.upgrade_ssl_client(session) {
            Ok(t) => t,
            // the upgrade of an unbuffered stream always succeeds
            Err(_) => vstd::pervasive::unreached(),
        };
        let ghost g3 = tmp;
        proof {
            assert(spec_mock(g3) == spec_mock(g2));
            assert(spec_tls_session(g3) == Some(sess));
            assert(!(g3 is Buffered));
        }
        let tmp = tmp.buffered();
        let ghost g4 = tmp;
        proof {
            assert(spec_mock(g4) == spec_mock(g3));
            assert(spec_tls_session(g4) == Some(sess));
        }
        self.stream = tmp;
        let ghost mid = *self;
        proof {
            assert(mid.inv());
            assert(mid.s_in() == s);
            assert(mid.s_pos() == spec_pos_after(s, pos, 1nat));
            assert(spec_tls_session(mid.spec_stream()) == Some(sess));
        }
        let probe = self.get_network_version();
        proof {
            crate::stream::lemma_with_mock_tls(mid.spec_stream(), spec_mock(self.spec_stream()));
            assert(spec_tls_session(self.spec_stream()) == Some(sess));
            crate::stream::lemma_pos_after_snoc(s, pos, 1nat);
            assert(self.s_out() =~= old(self).s_out() + spec_join_line(seq!["STARTTLS"@])
                + spec_join_line(seq!["NETVER"@]));
        }
        match probe {
            Ok(_) => Ok(()),
            Err(e) => Err(e),
        }
    }

    /// Sends the configured credentials: `USERNAME`, then `PASSWORD` when
    /// one is set, each expecting a bare `OK`. With no credentials
    /// configured this does nothing.
    pub fn authenticate(&mut self) -> (r: Result<(), Error>)
        requires
            old(self).inv(),
        ensures
            final(self).inv(),
            old(self).same_shape(final(self)),
            final(self).s_in() == old(self).s_in(),
            ({
                let s = old(self).s_in();
                let pos = old(self).s_pos();
                let out0 = old(self).s_out();
                match old(self).spec_config().auth {
                    None => *final(self) == *old(self) && r is Ok,
                    Some(auth) => {
                        let line1 = spec_join_line(seq!["USERNAME"@, auth.username@]);
                        exists|rr1: Result<Response, Error>|
                            #[trigger] spec_response_at(s, pos, rr1) && (match rr1 {
                                Ok(resp1) => if resp1 is Okay {
                                    match auth.password {
                                        None => {
                                            &&& r is Ok
                                            &&& final(self).s_out() == out0 + line1
                                            &&& final(self).s_pos() == spec_pos_after(s, pos, 1nat)
                                        },
                                        Some(p) => {
                                            &&& final(self).s_out() == out0 + line1
                                                + spec_join_line(seq!["PASSWORD"@, p@])
                                            &&& final(self).s_pos() == spec_pos_after(s, pos, 2nat)
                                            &&& exists|rr2: Result<Response, Error>|
                                                #[trigger] spec_response_at(
                                                    s,
                                                    spec_pos_after(s, pos, 1nat),
                                                    rr2,
                                                ) && spec_ok_step(rr2, r)
                                        },
                                    }
                                } else {
                                    &&& r == Err::<(), Error>(
                                        Error::Nut(NutError::UnexpectedResponse),
                                    )
                                    &&& final(self).s_out() == out0 + line1
                                    &&& final(self).s_pos() == spec_pos_after(s, pos, 1nat)
                                },
                                Err(e) => {
                                    &&& r == Err::<(), Error>(e)
                                    &&& final(self).s_out() == out0 + line1
                                    &&& final(self).s_pos() == spec_pos_after(s, pos, 1nat)
                                },
                            })
                    },
                }
            }),
    {
        let ghost s = old(self).s_in();
        let ghost pos = old(self).s_pos();
        let creds: Option<(String, Option<String>)> = match &self.config.auth {
            Some(auth) => Some(
                (
                    auth.username.clone(),
                    match &auth.password {
                        Some(p) => Some(p.clone()),
                        None => None,
                    },
                ),
            ),
            None => None,
        };
        let (username, password) = match creds {
            Some(c) => c,
            None => {
                proof {
                    crate::stream::lemma_with_mock_self(self.spec_stream());
                }
                return Ok(());
            },
        };
        proof {
            crate::stream::lemma_pos_after_snoc(s, pos, 0nat);
        }
        let step1 = self.set_username(username.as_str());
        match step1 {
            Ok(_) => {},
            Err(e) => {
                return Err(e);
            },
        }
        let password = match password {
            Some(p) => p,
            None => {
                return Ok(());
            },
        };
        let ghost mid = *self;
        let step2 = self.set_password(password.as_str());
        proof {
            crate::stream::lemma_with_mock_compose(old(self).spec_stream(), mid.spec_stream());
            crate::stream::lemma_pos_after_snoc(s, pos, 1nat);
            assert(self.s_out() =~= old(self).s_out() + spec_join_line(
                seq!["USERNAME"@, username@],
            ) + spec_join_line(seq!["PASSWORD"@, password@]));
        }
        step2
    }

    /// Opens a connection over the given transport: buffers it, performs
    /// the TLS upgrade when the configuration asks for one, and sends the
    /// configured credentials. The transport carries the dialled link; on
    /// failure the error is returned and the transport dropped.
    pub fn open(config: Config, transport: ConnectionStream) -> (r: Result<Connection, Error>)
        requires
            stream_inv(transport),
            !(transport is Buffered),
        ensures
            match r {
                Ok(c) => {
                    let s = spec_mock(transport).spec_input();
                    let pos = spec_mock(transport).spec_pos();
                    let out0 = spec_mock(transport).spec_output();
                    let handshake: nat = if config.ssl {
                        2nat
                    } else {
                        0nat
                    };
                    &&& spec_opened(config, transport, c)
                    &&& c.s_out() == out0 + (if config.ssl {
                        spec_join_line(seq!["STARTTLS"@]) + spec_join_line(seq!["NETVER"@])
                    } else {
                        Seq::<char>::empty()
                    }) + spec_auth_lines(config.auth)
                    &&& c.s_pos() == spec_pos_after(
                        s,
                        pos,
                        (handshake + spec_auth_count(config.auth)) as nat,
                    )
                },
                Err(e) => {
                    let s = spec_mock(transport).spec_input();
                    let pos = spec_mock(transport).spec_pos();
                    let handshake: nat = if config.ssl {
                        2nat
                    } else {
                        0nat
                    };
                    ||| config.ssl && spec_start_tls_failed(s, pos, config, e)
                    ||| config.auth matches Some(auth) && spec_authenticate_failed(
                        s,
                        spec_pos_after(s, pos, handshake),
                        auth,
                        e,
                    )
                },
            },
            // with no TLS and no credentials the opening exchanges nothing
            // and cannot fail
            !config.ssl && config.auth is None ==> r is Ok,
    {
        let ghost s = spec_mock(transport).spec_input();
        let ghost pos = spec_mock(transport).spec_pos();
        let ghost out0 = spec_mock(transport).spec_output();
        let mut conn = Connection::attach(config, transport);
        proof {
            assert(conn.s_in() == s);
            assert(conn.s_pos() == pos);
            assert(conn.s_out() == out0);
        }
        let ghost handshake: nat = if conn.config.ssl { 2nat } else { 0nat };
        if conn.config.ssl {
            match conn.start_tls() {
                Ok(_) => {},
                Err(e) => {
                    proof {
                        assert(spec_start_tls_failed(s, pos, config, e));
                    }
                    return Err(e);
                },
            }
        }
        let ghost after_tls = conn;
        proof {
            assert(after_tls.s_pos() == spec_pos_after(s, pos, handshake)) by {
                if !config.ssl {
                    assert(spec_pos_after(s, pos, 0nat) == pos);
                }
            }
        }
        match conn.authenticate() {
            Ok(_) => {},
            Err(e) => {
                proof {
                    assert(config.auth matches Some(auth) && spec_authenticate_failed(
                        s,
                        spec_pos_after(s, pos, handshake),
                        auth,
                        e,
                    ));
                }
                return Err(e);
            },
        }
        proof {
            crate::stream::lemma_with_mock_tls(after_tls.spec_stream(), spec_mock(
                conn.spec_stream(),
            ));
            lemma_pos_after_add(s, pos, handshake, spec_auth_count(config.auth));
            assert(conn.s_out() =~= out0 + (if config.ssl {
                spec_join_line(seq!["STARTTLS"@]) + spec_join_line(seq!["NETVER"@])
            } else {
                Seq::<char>::empty()
            }) + spec_auth_lines(config.auth));
            assert(spec_opened(config, transport, conn));
        }
        Ok(conn)
    }

    /// Asks for one variable (`GET VAR <ups> <name>`), expecting a `VAR`
    /// row parsed into its typed form.
    pub fn get_var(&mut self, ups_name: &str, variable: &str) -> (r: Result<Variable, Error>)
        requires
            old(self).inv(),
        ensures
            final(self).inv(),
            old(self).same_shape(final(self)),
            final(self).s_in() == old(self).s_in(),
            final(self).s_out() == old(self).s_out() + spec_join_line(
                seq!["GET"@, "VAR"@, ups_name@, variable@],
            ),
            final(self).s_pos() == spec_line_end(old(self).s_in(), old(self).s_pos()),
            exists|rr: Result<Response, Error>|
                #[trigger] spec_response_at(old(self).s_in(), old(self).s_pos(), rr) && (match rr {
                    Err(e) => r == Err::<Variable, Error>(e),
                    Ok(resp) => match r {
                        Ok(v) => resp matches Response::Var(n, val) && spec_variable_parse(
                            n@,
                            val@,
                            v,
                        ),
                        Err(e) => !(resp is Var) && e == Error::Nut(NutError::UnexpectedResponse),
                    },
                }),
    {
        let req = ServerSentences::QueryVar {
            ups_name: ups_name.to_owned(),
            var_name: variable.to_owned(),
        };
        proof {
            assert(spec_server_encode(req) =~= seq!["GET"@, "VAR"@, ups_name@, variable@]);
        }
        let rr = self.exchange(&req);
        match rr {
            Ok(resp) => {
                let ghost grr = Result::<Response, Error>::Ok(resp);
                let out = resp.expect_var();
                proof {
                    assert(spec_response_at(old(self).s_in(), old(self).s_pos(), grr));
                }
                out
            },
            Err(e) => Err(e),
        }
    }

    /// Asks for the description of a variable (`GET DESC <ups> <name>`).
    pub fn get_var_description(&mut self, ups_name: &str, variable: &str) -> (r: Result<
        String,
        Error,
    >)
        requires
            old(self).inv(),
        ensures
            final(self).inv(),
            old(self).same_shape(final(self)),
            final(self).s_in() == old(self).s_in(),
            final(self).s_out() == old(self).s_out() + spec_join_line(
                seq!["GET"@, "DESC"@, ups_name@, variable@],
            ),
            final(self).s_pos() == spec_line_end(old(self).s_in(), old(self).s_pos()),
            exists|rr: Result<Response, Error>|
                #[trigger] spec_response_at(old(self).s_in(), old(self).s_pos(), rr) && (match rr {
                    Err(e) => r == Err::<String, Error>(e),
                    Ok(resp) => match r {
                        Ok(d) => resp matches Response::Desc(c) && d@ == c@,
                        Err(e) => !(resp is Desc) && e == Error::Nut(NutError::UnexpectedResponse),
                    },
                }),
    {
        let req = ServerSentences::QueryDesc {
            ups_name: ups_name.to_owned(),
            var_name: variable.to_owned(),
        };
        proof {
            assert(spec_server_encode(req) =~= seq!["GET"@, "DESC"@, ups_name@, variable@]);
        }
        let rr = self.exchange(&req);
        match rr {
            Ok(resp) => {
                let ghost grr = Result::<Response, Error>::Ok(resp);
                let out = resp.expect_desc();
                proof {
                    assert(spec_response_at(old(self).s_in(), old(self).s_pos(), grr));
                }
                out
            },
            Err(e) => Err(e),
        }
    }

    /// Asks for the type tags of a variable (`GET TYPE <ups> <name>`),
    /// parsed into a definition.
    pub fn get_var_type(&mut self, ups_name: &str, variable: &str) -> (r: Result<
        VariableDefinition,
        Error,
    >)
        requires
            old(self).inv(),
        ensures
            final(self).inv(),
            old(self).same_shape(final(self)),
            final(self).s_in() == old(self).s_in(),
            final(self).s_out() == old(self).s_out() + spec_join_line(
                seq!["GET"@, "TYPE"@, ups_name@, variable@],
            ),
            final(self).s_pos() == spec_line_end(old(self).s_in(), old(self).s_pos()),
            exists|rr: Result<Response, Error>|
                #[trigger] spec_response_at(old(self).s_in(), old(self).s_pos(), rr) && (match rr {
                    Err(e) => r == Err::<VariableDefinition, Error>(e),
                    Ok(resp) => match r {
                        Ok(d) => resp matches Response::Type(name, types) && {
                            &&& spec_types_from(
                                types.deep_view(),
                                (false, false, None, false, false),
                            ) matches Some(st)
                            &&& d.spec_name() == name@
                            &&& d.spec_mutable() == st.0
                            &&& d.spec_enumerated() == st.1
                            &&& d.spec_string_len() == st.2
                            &&& d.spec_range() == st.3
                            &&& d.spec_number() == st.4
                        },
                        Err(e) => {
                            ||| !(resp is Type) && e == Error::Nut(NutError::UnexpectedResponse)
                            ||| resp matches Response::Type(_, types) && spec_types_from(
                                types.deep_view(),
                                (false, false, None, false, false),
                            ) is None && spec_is_generic_err(e)
                        },
                    },
                }),
    {
        let req = ServerSentences::QueryType {
            ups_name: ups_name.to_owned(),
            var_name: variable.to_owned(),
        };
        proof {
            assert(spec_server_encode(req) =~= seq!["GET"@, "TYPE"@, ups_name@, variable@]);
        }
        let rr = self.exchange(&req);
        match rr {
            Ok(resp) => {
                let ghost grr = Result::<Response, Error>::Ok(resp);
                let out = resp.expect_type();
                proof {
                    assert(spec_response_at(old(self).s_in(), old(self).s_pos(), grr));
                }
                out
            },
            Err(e) => Err(e),
        }
    }

    /// Asks for the description of a command (`GET CMDDESC <ups> <cmd>`).
    pub fn get_command_description(&mut self, ups_name: &str, cmd_name: &str) -> (r: Result<
        String,
        Error,
    >)
        requires
            old(self).inv(),
        ensures
            final(self).inv(),
            old(self).same_shape(final(self)),
            final(self).s_in() == old(self).s_in(),
            final(self).s_out() == old(self).s_out() + spec_join_line(
                seq!["GET"@, "CMDDESC"@, ups_name@, cmd_name@],
            ),
            final(self).s_pos() == spec_line_end(old(self).s_in(), old(self).s_pos()),
            exists|rr: Result<Response, Error>|
                #[trigger] spec_response_at(old(self).s_in(), old(self).s_pos(), rr) && (match rr {
                    Err(e) => r == Err::<String, Error>(e),
                    Ok(resp) => match r {
                        Ok(d) => resp matches Response::CmdDesc(c) && d@ == c@,
                        Err(e) => !(resp is CmdDesc) && e == Error::Nut(
                            NutError::UnexpectedResponse,
                        ),
                    },
                }),
    {
        let req = ServerSentences::QueryCmdDesc {
            ups_name: ups_name.to_owned(),
            cmd_name: cmd_name.to_owned(),
        };
        proof {
            assert(spec_server_encode(req) =~= seq!["GET"@, "CMDDESC"@, ups_name@, cmd_name@]);
        }
        let rr = self.exchange(&req);
        match rr {
            Ok(resp) => {
                let ghost grr = Result::<Response, Error>::Ok(resp);
                let out = resp.expect_cmddesc();
                proof {
                    assert(spec_response_at(old(self).s_in(), old(self).s_pos(), grr));
                }
                out
            },
            Err(e) => Err(e),
        }
    }

    /// Asks for the description of a device (`GET UPSDESC <ups>`).
    pub fn get_ups_description(&mut self, ups_name: &str) -> (r: Result<String, Error>)
        requires
            old(self).inv(),
        ensures
            final(self).inv(),
            old(self).same_shape(final(self)),
            final(self).s_in() == old(self).s_in(),
            final(self).s_out() == old(self).s_out() + spec_join_line(
                seq!["GET"@, "UPSDESC"@, ups_name@],
            ),
            final(self).s_pos() == spec_line_end(old(self).s_in(), old(self).s_pos()),
            exists|rr: Result<Response, Error>|
                #[trigger] spec_response_at(old(self).s_in(), old(self).s_pos(), rr) && (match rr {
                    Err(e) => r == Err::<String, Error>(e),
                    Ok(resp) => match r {
                        Ok(d) => resp matches Response::UpsDesc(c) && d@ == c@,
                        Err(e) => !(resp is UpsDesc) && e == Error::Nut(
                            NutError::UnexpectedResponse,
                        ),
                    },
                }),
    {
        let req = ServerSentences::QueryUpsDesc { ups_name: ups_name.to_owned() };
        proof {
            assert(spec_server_encode(req) =~= seq!["GET"@, "UPSDESC"@, ups_name@]);
        }
        let rr = self.exchange(&req);
        match rr {
            Ok(resp) => {
                let ghost grr = Result::<Response, Error>::Ok(resp);
                let out = resp.expect_upsdesc();
                proof {
                    assert(spec_response_at(old(self).s_in(), old(self).s_pos(), grr));
                }
                out
            },
            Err(e) => Err(e),
        }
    }

    /// Asks for the number of logins to a device (`GET NUMLOGINS <ups>`).
    pub fn get_num_logins(&mut self, ups_name: &str) -> (r: Result<i32, Error>)
        requires
            old(self).inv(),
        ensures
            final(self).inv(),
            old(self).same_shape(final(self)),
            final(self).s_in() == old(self).s_in(),
            final(self).s_out() == old(self).s_out() + spec_join_line(
                seq!["GET"@, "NUMLOGINS"@, ups_name@],
            ),
            final(self).s_pos() == spec_line_end(old(self).s_in(), old(self).s_pos()),
            exists|rr: Result<Response, Error>|
                #[trigger] spec_response_at(old(self).s_in(), old(self).s_pos(), rr) && (match rr {
                    Err(e) => r == Err::<i32, Error>(e),
                    Ok(resp) => match r {
                        Ok(v) => resp matches Response::NumLogins(n) && v == n,
                        Err(e) => !(resp is NumLogins) && e == Error::Nut(
                            NutError::UnexpectedResponse,
                        ),
                    },
                }),
    {
        let req = ServerSentences::QueryNumLogins { ups_name: ups_name.to_owned() };
        proof {
            assert(spec_server_encode(req) =~= seq!["GET"@, "NUMLOGINS"@, ups_name@]);
        }
        let rr = self.exchange(&req);
        match rr {
            Ok(resp) => {
                let ghost grr = Result::<Response, Error>::Ok(resp);
                let out = resp.expect_numlogins();
                proof {
                    assert(spec_response_at(old(self).s_in(), old(self).s_pos(), grr));
                }
                out
            },
            Err(e) => Err(e),
        }
    }

    /// Issues `LIST <query…>` and reads the whole list block: a matching
    /// `BEGIN LIST` echo, the item rows, and a matching `END LIST` echo.
    /// At most a thousand items are read; past that the read fails with a
    /// generic protocol error.
    pub fn read_list(&mut self, query: &Vec<String>) -> (r: Result<Vec<Response>, Error>)
        requires
            old(self).inv(),
        ensures
            final(self).inv(),
            old(self).same_shape(final(self)),
            final(self).s_in() == old(self).s_in(),
            final(self).s_out() == old(self).s_out() + spec_join_line(
                seq!["LIST"@] + query.deep_view(),
            ),
            match r {
                Ok(items) => spec_list_ok(
                    old(self).s_in(),
                    old(self).s_pos(),
                    spec_join_words(query.deep_view()),
                    items@,
                    final(self).s_pos(),
                ),
                Err(e) => spec_list_err(
                    old(self).s_in(),
                    old(self).s_pos(),
                    spec_join_words(query.deep_view()),
                    e,
                    final(self).s_pos(),
                ),
            },
    {
        let ghost s = old(self).s_in();
        let ghost base = old(self).s_pos();
        let ghost expected = spec_join_words(query.deep_view());
        let mut words: Vec<String> = Vec::new();
        words.push("LIST".to_owned());
        crate::cmd::extend_cloned(&mut words, query);
        proof {
            assert(words.deep_view() =~= seq!["LIST"@] + query.deep_view());
        }
        let line = crate::tokenizer::join_sentence(&words);
        self.stream.write_text(line.as_str());
        self.stream.flush();
        proof {
            lemma_shape_preserves_buffering(old(self).spec_stream(), self.spec_stream());
        }
        let ghost mid = *self;
        let first = self.read_response();
        proof {
            crate::stream::lemma_with_mock_compose(old(self).spec_stream(), mid.spec_stream());
        }
        proof {
            crate::stream::lemma_pos_after_snoc(s, base, 0nat);
            assert(spec_pos_after(s, base, 1nat) == spec_line_end(s, base));
        }
        let begin = match first {
            Ok(b) => b,
            Err(e) => {
                return Err(e);
            },
        };
        match begin.expect_begin_list(query) {
            Ok(_) => {},
            Err(e) => {
                proof {
                    assert(spec_response_at(s, base, Result::<Response, Error>::Ok(begin)));
                }
                return Err(e);
            },
        }
        proof {
            assert(spec_response_at(s, base, Result::<Response, Error>::Ok(begin)) && (begin
                matches Response::BeginList(q) && q@ == expected));
        }
        let mut items: Vec<Response> = Vec::new();
        let mut k: usize = 0;
        while k < 1000
            invariant
                self.inv(),
                old(self).same_shape(self),
                self.s_in() == s,
                s == old(self).s_in(),
                base == old(self).s_pos(),
                expected == spec_join_words(query.deep_view()),
                self.s_out() == old(self).s_out() + spec_join_line(
                    seq!["LIST"@] + query.deep_view(),
                ),
                k == items@.len(),
                k <= 1000,
                self.s_pos() == spec_pos_after(s, base, (k + 1) as nat),
                exists|b: Response|
                    #[trigger] spec_response_at(s, base, Ok(b)) && (b
                        matches Response::BeginList(q) && q@ == expected),
                forall|i: int|
                    0 <= i < items@.len() ==> #[trigger] spec_response_at(
                        s,
                        spec_pos_after(s, base, (i + 1) as nat),
                        Ok(items@[i]),
                    ) && !(items@[i] is EndList),
            decreases 1000 - k,
        {
            let ghost prev = *self;
            let next = self.read_response();
            proof {
                crate::stream::lemma_with_mock_compose(old(self).spec_stream(), prev.spec_stream());
                crate::stream::lemma_pos_after_snoc(s, base, (k + 1) as nat);
            }
            let resp = match next {
                Ok(resp) => resp,
                Err(e) => {
                    proof {
                        assert(spec_response_at(
                            s,
                            spec_pos_after(s, base, (items@.len() + 1) as nat),
                            Err::<Response, Error>(e),
                        ));
                        assert(spec_list_err(s, base, expected, e, self.s_pos()));
                    }
                    return Err(e);
                },
            };
            let is_end = match &resp {
                Response::EndList(_) => true,
                _ => false,
            };
            if is_end {
                match resp.expect_end_list(query) {
                    Ok(_) => {
                        proof {
                            assert(spec_response_at(
                                s,
                                spec_pos_after(s, base, (items@.len() + 1) as nat),
                                Result::<Response, Error>::Ok(resp),
                            ) && (resp matches Response::EndList(q) && q@ == expected));
                            assert(spec_list_ok(s, base, expected, items@, self.s_pos()));
                        }
                        return Ok(items);
                    },
                    Err(e) => {
                        proof {
                            assert(spec_response_at(
                                s,
                                spec_pos_after(s, base, (items@.len() + 1) as nat),
                                Result::<Response, Error>::Ok(resp),
                            ) && resp is EndList);
                            assert(spec_list_err(s, base, expected, e, self.s_pos()));
                        }
                        return Err(e);
                    },
                }
            }
            proof {
                assert(spec_response_at(
                    s,
                    spec_pos_after(s, base, (items@.len() + 1) as nat),
                    Result::<Response, Error>::Ok(resp),
                ) && !(resp is EndList));
            }
            items.push(resp);
            k = k + 1;
        }
        let err = Error::generic("Exceeded maximum list length");
        proof {
            assert(items@.len() == 1000);
            assert(spec_list_err(s, base, expected, err, self.s_pos()));
        }
        Err(err)
    }

    /// Queries the list of UPS devices: (name, description) pairs. Issues the `LIST` query and checks the block framing.
    pub fn list_ups(&mut self) -> (r: Result<Vec<(String, String)>, Error>)
        requires
            old(self).inv(),
        ensures
            final(self).inv(),
            old(self).same_shape(final(self)),
            final(self).s_in() == old(self).s_in(),
            final(self).s_out() == old(self).s_out() + spec_join_line(seq!["LIST"@, "UPS"@]),
            ({
                let s = old(self).s_in();
                let pos = old(self).s_pos();
                let expected = spec_join_words(seq!["UPS"@]);
                match r {
                    Ok(res) => {
                        let outv = res@;
                        exists|items: Seq<Response>|
                            #[trigger] spec_list_ok(s, pos, expected, items, final(self).s_pos())
                                && outv.len() == items.len() && (forall|i: int|
                                0 <= i < items.len() ==> (#[trigger] items[i] matches Response::Ups(n, d) && outv[i].0@ == n@ && outv[i].1@ == d@))
                    },
                    Err(e) => {
                        ||| spec_list_err(s, pos, expected, e, final(self).s_pos())
                        ||| exists|items: Seq<Response>, j: int|
                            #![trigger spec_list_ok(s, pos, expected, items, final(self).s_pos()), items[j]]
                            spec_list_ok(s, pos, expected, items, final(self).s_pos())
                                && 0 <= j < items.len() && (forall|i: int|
                                0 <= i < j ==> #[trigger] items[i] is Ups) && !(items[j]
                                is Ups) && e == Error::Nut(NutError::UnexpectedResponse)
                    },
                }
            }),
    {
        let mut query: Vec<String> = Vec::new();
        query.push("UPS".to_owned());
        proof {
            assert(query.deep_view() =~= seq!["UPS"@]);
            assert(seq!["LIST"@] + query.deep_view() =~= seq!["LIST"@, "UPS"@]);
        }
        let items = match self.read_list(&query) {
            Ok(items) => items,
            Err(e) => {
                return Err(e);
            },
        };
        let mut out: Vec<(String, String)> = Vec::new();
        let mut j: usize = 0;
        while j < items.len()
            invariant
                final(self).inv(),
                old(self).same_shape(final(self)),
                final(self).s_in() == old(self).s_in(),
                final(self).s_out() == old(self).s_out() + spec_join_line(seq!["LIST"@, "UPS"@]),
                spec_list_ok(old(self).s_in(), old(self).s_pos(), spec_join_words(seq!["UPS"@]), items@, final(self).s_pos()),
                j <= items@.len(),
                out@.len() == j,
                forall|i: int| 0 <= i < j ==> #[trigger] items@[i] is Ups,
                ({
                    let outv = out@;
                    let items = items@;
                    forall|i: int| 0 <= i < j ==> (#[trigger] items[i] matches Response::Ups(n, d) && outv[i].0@ == n@ && outv[i].1@ == d@)
                }),
            decreases items@.len() - j,
        {
            match &items[j] {
                Response::Ups(n, d) => {
                    out.push((n.clone(), d.clone()));
                },
                _ => {
                    proof {
                        assert(!(items@[j as int] is Ups));
                    }
                    return Err(Error::Nut(NutError::UnexpectedResponse));
                },
            }
            j = j + 1;
        }
        Ok(out)
    }

    /// Queries the client IP addresses connected to a device. Issues the `LIST` query and checks the block framing.
    pub fn list_clients(&mut self, ups_name: &str) -> (r: Result<Vec<String>, Error>)
        requires
            old(self).inv(),
        ensures
            final(self).inv(),
            old(self).same_shape(final(self)),
            final(self).s_in() == old(self).s_in(),
            final(self).s_out() == old(self).s_out() + spec_join_line(seq!["LIST"@, "CLIENT"@, ups_name@]),
            ({
                let s = old(self).s_in();
                let pos = old(self).s_pos();
                let expected = spec_join_words(seq!["CLIENT"@, ups_name@]);
                match r {
                    Ok(res) => {
                        let outv = res@;
                        exists|items: Seq<Response>|
                            #[trigger] spec_list_ok(s, pos, expected, items, final(self).s_pos())
                                && outv.len() == items.len() && (forall|i: int|
                                0 <= i < items.len() ==> (#[trigger] items[i] matches Response::Client(ip) && outv[i]@ == ip@))
                    },
                    Err(e) => {
                        ||| spec_list_err(s, pos, expected, e, final(self).s_pos())
                        ||| exists|items: Seq<Response>, j: int|
                            #![trigger spec_list_ok(s, pos, expected, items, final(self).s_pos()), items[j]]
                            spec_list_ok(s, pos, expected, items, final(self).s_pos())
                                && 0 <= j < items.len() && (forall|i: int|
                                0 <= i < j ==> #[trigger] items[i] is Client) && !(items[j]
                                is Client) && e == Error::Nut(NutError::UnexpectedResponse)
                    },
                }
            }),
    {
        let mut query: Vec<String> = Vec::new();
        query.push("CLIENT".to_owned());
        query.push(ups_name.to_owned());
        proof {
            assert(query.deep_view() =~= seq!["CLIENT"@, ups_name@]);
            assert(seq!["LIST"@] + query.deep_view() =~= seq!["LIST"@, "CLIENT"@, ups_name@]);
        }
        let items = match self.read_list(&query) {
            Ok(items) => items,
            Err(e) => {
                return Err(e);
            },
        };
        let mut out: Vec<String> = Vec::new();
        let mut j: usize = 0;
        while j < items.len()
            invariant
                final(self).inv(),
                old(self).same_shape(final(self)),
                final(self).s_in() == old(self).s_in(),
                final(self).s_out() == old(self).s_out() + spec_join_line(seq!["LIST"@, "CLIENT"@, ups_name@]),
                spec_list_ok(old(self).s_in(), old(self).s_pos(), spec_join_words(seq!["CLIENT"@, ups_name@]), items@, final(self).s_pos()),
                j <= items@.len(),
                out@.len() == j,
                forall|i: int| 0 <= i < j ==> #[trigger] items@[i] is Client,
                ({
                    let outv = out@;
                    let items = items@;
                    forall|i: int| 0 <= i < j ==> (#[trigger] items[i] matches Response::Client(ip) && outv[i]@ == ip@)
                }),
            decreases items@.len() - j,
        {
            match &items[j] {
                Response::Client(ip) => {
                    out.push(ip.clone());
                },
                _ => {
                    proof {
                        assert(!(items@[j as int] is Client));
                    }
                    return Err(Error::Nut(NutError::UnexpectedResponse));
                },
            }
            j = j + 1;
        }
        Ok(out)
    }

    /// Queries the variables of a device, parsed into their typed form. Issues the `LIST` query and checks the block framing.
    pub fn list_vars(&mut self, ups_name: &str) -> (r: Result<Vec<Variable>, Error>)
        requires
            old(self).inv(),
        ensures
            final(self).inv(),
            old(self).same_shape(final(self)),
            final(self).s_in() == old(self).s_in(),
            final(self).s_out() == old(self).s_out() + spec_join_line(seq!["LIST"@, "VAR"@, ups_name@]),
            ({
                let s = old(self).s_in();
                let pos = old(self).s_pos();
                let expected = spec_join_words(seq!["VAR"@, ups_name@]);
                match r {
                    Ok(res) => {
                        let outv = res@;
                        exists|items: Seq<Response>|
                            #[trigger] spec_list_ok(s, pos, expected, items, final(self).s_pos())
                                && outv.len() == items.len() && (forall|i: int|
                                0 <= i < items.len() ==> (#[trigger] items[i] matches Response::Var(n, v) && spec_variable_parse(n@, v@, outv[i])))
                    },
                    Err(e) => {
                        ||| spec_list_err(s, pos, expected, e, final(self).s_pos())
                        ||| exists|items: Seq<Response>, j: int|
                            #![trigger spec_list_ok(s, pos, expected, items, final(self).s_pos()), items[j]]
                            spec_list_ok(s, pos, expected, items, final(self).s_pos())
                                && 0 <= j < items.len() && (forall|i: int|
                                0 <= i < j ==> #[trigger] items[i] is Var) && !(items[j]
                                is Var) && e == Error::Nut(NutError::UnexpectedResponse)
                    },
                }
            }),
    {
        let mut query: Vec<String> = Vec::new();
        query.push("VAR".to_owned());
        query.push(ups_name.to_owned());
        proof {
            assert(query.deep_view() =~= seq!["VAR"@, ups_name@]);
            assert(seq!["LIST"@] + query.deep_view() =~= seq!["LIST"@, "VAR"@, ups_name@]);
        }
        let items = match self.read_list(&query) {
            Ok(items) => items,
            Err(e) => {
                return Err(e);
            },
        };
        let mut out: Vec<Variable> = Vec::new();
        let mut j: usize = 0;
        while j < items.len()
            invariant
                final(self).inv(),
                old(self).same_shape(final(self)),
                final(self).s_in() == old(self).s_in(),
                final(self).s_out() == old(self).s_out() + spec_join_line(seq!["LIST"@, "VAR"@, ups_name@]),
                spec_list_ok(old(self).s_in(), old(self).s_pos(), spec_join_words(seq!["VAR"@, ups_name@]), items@, final(self).s_pos()),
                j <= items@.len(),
                out@.len() == j,
                forall|i: int| 0 <= i < j ==> #[trigger] items@[i] is Var,
                ({
                    let outv = out@;
                    let items = items@;
                    forall|i: int| 0 <= i < j ==> (#[trigger] items[i] matches Response::Var(n, v) && spec_variable_parse(n@, v@, outv[i]))
                }),
            decreases items@.len() - j,
        {
            match &items[j] {
                Response::Var(n, v) => {
                    out.push(Variable::parse(n.as_str(), v.clone()));
                },
                _ => {
                    proof {
                        assert(!(items@[j as int] is Var));
                    }
                    return Err(Error::Nut(NutError::UnexpectedResponse));
                },
            }
            j = j + 1;
        }
        Ok(out)
    }

    /// Queries the mutable variables of a device. Issues the `LIST` query and checks the block framing.
    pub fn list_mutable_vars(&mut self, ups_name: &str) -> (r: Result<Vec<Variable>, Error>)
        requires
            old(self).inv(),
        ensures
            final(self).inv(),
            old(self).same_shape(final(self)),
            final(self).s_in() == old(self).s_in(),
            final(self).s_out() == old(self).s_out() + spec_join_line(seq!["LIST"@, "RW"@, ups_name@]),
            ({
                let s = old(self).s_in();
                let pos = old(self).s_pos();
                let expected = spec_join_words(seq!["RW"@, ups_name@]);
                match r {
                    Ok(res) => {
                        let outv = res@;
                        exists|items: Seq<Response>|
                            #[trigger] spec_list_ok(s, pos, expected, items, final(self).s_pos())
                                && outv.len() == items.len() && (forall|i: int|
                                0 <= i < items.len() ==> (#[trigger] items[i] matches Response::Rw(n, v) && spec_variable_parse(n@, v@, outv[i])))
                    },
                    Err(e) => {
                        ||| spec_list_err(s, pos, expected, e, final(self).s_pos())
                        ||| exists|items: Seq<Response>, j: int|
                            #![trigger spec_list_ok(s, pos, expected, items, final(self).s_pos()), items[j]]
                            spec_list_ok(s, pos, expected, items, final(self).s_pos())
                                && 0 <= j < items.len() && (forall|i: int|
                                0 <= i < j ==> #[trigger] items[i] is Rw) && !(items[j]
                                is Rw) && e == Error::Nut(NutError::UnexpectedResponse)
                    },
                }
            }),
    {
        let mut query: Vec<String> = Vec::new();
        query.push("RW".to_owned());
        query.push(ups_name.to_owned());
        proof {
            assert(query.deep_view() =~= seq!["RW"@, ups_name@]);
            assert(seq!["LIST"@] + query.deep_view() =~= seq!["LIST"@, "RW"@, ups_name@]);
        }
        let items = match self.read_list(&query) {
            Ok(items) => items,
            Err(e) => {
                return Err(e);
            },
        };
        let mut out: Vec<Variable> = Vec::new();
        let mut j: usize = 0;
        while j < items.len()
            invariant
                final(self).inv(),
                old(self).same_shape(final(self)),
                final(self).s_in() == old(self).s_in(),
                final(self).s_out() == old(self).s_out() + spec_join_line(seq!["LIST"@, "RW"@, ups_name@]),
                spec_list_ok(old(self).s_in(), old(self).s_pos(), spec_join_words(seq!["RW"@, ups_name@]), items@, final(self).s_pos()),
                j <= items@.len(),
                out@.len() == j,
                forall|i: int| 0 <= i < j ==> #[trigger] items@[i] is Rw,
                ({
                    let outv = out@;
                    let items = items@;
                    forall|i: int| 0 <= i < j ==> (#[trigger] items[i] matches Response::Rw(n, v) && spec_variable_parse(n@, v@, outv[i]))
                }),
            decreases items@.len() - j,
        {
            match &items[j] {
                Response::Rw(n, v) => {
                    out.push(Variable::parse(n.as_str(), v.clone()));
                },
                _ => {
                    proof {
                        assert(!(items@[j as int] is Rw));
                    }
                    return Err(Error::Nut(NutError::UnexpectedResponse));
                },
            }
            j = j + 1;
        }
        Ok(out)
    }

    /// Queries the commands a device supports. Issues the `LIST` query and checks the block framing.
    pub fn list_commands(&mut self, ups_name: &str) -> (r: Result<Vec<String>, Error>)
        requires
            old(self).inv(),
        ensures
            final(self).inv(),
            old(self).same_shape(final(self)),
            final(self).s_in() == old(self).s_in(),
            final(self).s_out() == old(self).s_out() + spec_join_line(seq!["LIST"@, "CMD"@, ups_name@]),
            ({
                let s = old(self).s_in();
                let pos = old(self).s_pos();
                let expected = spec_join_words(seq!["CMD"@, ups_name@]);
                match r {
                    Ok(res) => {
                        let outv = res@;
                        exists|items: Seq<Response>|
                            #[trigger] spec_list_ok(s, pos, expected, items, final(self).s_pos())
                                && outv.len() == items.len() && (forall|i: int|
                                0 <= i < items.len() ==> (#[trigger] items[i] matches Response::Cmd(name) && outv[i]@ == name@))
                    },
                    Err(e) => {
                        ||| spec_list_err(s, pos, expected, e, final(self).s_pos())
                        ||| exists|items: Seq<Response>, j: int|
                            #![trigger spec_list_ok(s, pos, expected, items, final(self).s_pos()), items[j]]
                            spec_list_ok(s, pos, expected, items, final(self).s_pos())
                                && 0 <= j < items.len() && (forall|i: int|
                                0 <= i < j ==> #[trigger] items[i] is Cmd) && !(items[j]
                                is Cmd) && e == Error::Nut(NutError::UnexpectedResponse)
                    },
                }
            }),
    {
        let mut query: Vec<String> = Vec::new();
        query.push("CMD".to_owned());
        query.push(ups_name.to_owned());
        proof {
            assert(query.deep_view() =~= seq!["CMD"@, ups_name@]);
            assert(seq!["LIST"@] + query.deep_view() =~= seq!["LIST"@, "CMD"@, ups_name@]);
        }
        let items = match self.read_list(&query) {
            Ok(items) => items,
            Err(e) => {
                return Err(e);
            },
        };
        let mut out: Vec<String> = Vec::new();
        let mut j: usize = 0;
        while j < items.len()
            invariant
                final(self).inv(),
                old(self).same_shape(final(self)),
                final(self).s_in() == old(self).s_in(),
                final(self).s_out() == old(self).s_out() + spec_join_line(seq!["LIST"@, "CMD"@, ups_name@]),
                spec_list_ok(old(self).s_in(), old(self).s_pos(), spec_join_words(seq!["CMD"@, ups_name@]), items@, final(self).s_pos()),
                j <= items@.len(),
                out@.len() == j,
                forall|i: int| 0 <= i < j ==> #[trigger] items@[i] is Cmd,
                ({
                    let outv = out@;
                    let items = items@;
                    forall|i: int| 0 <= i < j ==> (#[trigger] items[i] matches Response::Cmd(name) && outv[i]@ == name@)
                }),
            decreases items@.len() - j,
        {
            match &items[j] {
                Response::Cmd(name) => {
                    out.push(name.clone());
                },
                _ => {
                    proof {
                        assert(!(items@[j as int] is Cmd));
                    }
                    return Err(Error::Nut(NutError::UnexpectedResponse));
                },
            }
            j = j + 1;
        }
        Ok(out)
    }

    /// Queries the possible ranges of a numeric variable. Issues the `LIST` query and checks the block framing.
    pub fn list_var_range(&mut self, ups_name: &str, variable: &str) -> (r: Result<Vec<VariableRange>, Error>)
        requires
            old(self).inv(),
        ensures
            final(self).inv(),
            old(self).same_shape(final(self)),
            final(self).s_in() == old(self).s_in(),
            final(self).s_out() == old(self).s_out() + spec_join_line(seq!["LIST"@, "RANGE"@, ups_name@, variable@]),
            ({
                let s = old(self).s_in();
                let pos = old(self).s_pos();
                let expected = spec_join_words(seq!["RANGE"@, ups_name@, variable@]);
                match r {
                    Ok(res) => {
                        let outv = res@;
                        exists|items: Seq<Response>|
                            #[trigger] spec_list_ok(s, pos, expected, items, final(self).s_pos())
                                && outv.len() == items.len() && (forall|i: int|
                                0 <= i < items.len() ==> (#[trigger] items[i] matches Response::Range(g) && outv[i].0@ == g.0@ && outv[i].1@ == g.1@))
                    },
                    Err(e) => {
                        ||| spec_list_err(s, pos, expected, e, final(self).s_pos())
                        ||| exists|items: Seq<Response>, j: int|
                            #![trigger spec_list_ok(s, pos, expected, items, final(self).s_pos()), items[j]]
                            spec_list_ok(s, pos, expected, items, final(self).s_pos())
                                && 0 <= j < items.len() && (forall|i: int|
                                0 <= i < j ==> #[trigger] items[i] is Range) && !(items[j]
                                is Range) && e == Error::Nut(NutError::UnexpectedResponse)
                    },
                }
            }),
    {
        let mut query: Vec<String> = Vec::new();
        query.push("RANGE".to_owned());
        query.push(ups_name.to_owned());
        query.push(variable.to_owned());
        proof {
            assert(query.deep_view() =~= seq!["RANGE"@, ups_name@, variable@]);
            assert(seq!["LIST"@] + query.deep_view() =~= seq!["LIST"@, "RANGE"@, ups_name@, variable@]);
        }
        let items = match self.read_list(&query) {
            Ok(items) => items,
            Err(e) => {
                return Err(e);
            },
        };
        let mut out: Vec<VariableRange> = Vec::new();
        let mut j: usize = 0;
        while j < items.len()
            invariant
                final(self).inv(),
                old(self).same_shape(final(self)),
                final(self).s_in() == old(self).s_in(),
                final(self).s_out() == old(self).s_out() + spec_join_line(seq!["LIST"@, "RANGE"@, ups_name@, variable@]),
                spec_list_ok(old(self).s_in(), old(self).s_pos(), spec_join_words(seq!["RANGE"@, ups_name@, variable@]), items@, final(self).s_pos()),
                j <= items@.len(),
                out@.len() == j,
                forall|i: int| 0 <= i < j ==> #[trigger] items@[i] is Range,
                ({
                    let outv = out@;
                    let items = items@;
                    forall|i: int| 0 <= i < j ==> (#[trigger] items[i] matches Response::Range(g) && outv[i].0@ == g.0@ && outv[i].1@ == g.1@)
                }),
            decreases items@.len() - j,
        {
            match &items[j] {
                Response::Range(g) => {
                    out.push(VariableRange(g.0.clone(), g.1.clone()));
                },
                _ => {
                    proof {
                        assert(!(items@[j as int] is Range));
                    }
                    return Err(Error::Nut(NutError::UnexpectedResponse));
                },
            }
            j = j + 1;
        }
        Ok(out)
    }

    /// Queries the possible values of an enumerated variable. Issues the `LIST` query and checks the block framing.
    pub fn list_var_enum(&mut self, ups_name: &str, variable: &str) -> (r: Result<Vec<String>, Error>)
        requires
            old(self).inv(),
        ensures
            final(self).inv(),
            old(self).same_shape(final(self)),
            final(self).s_in() == old(self).s_in(),
            final(self).s_out() == old(self).s_out() + spec_join_line(seq!["LIST"@, "ENUM"@, ups_name@, variable@]),
            ({
                let s = old(self).s_in();
                let pos = old(self).s_pos();
                let expected = spec_join_words(seq!["ENUM"@, ups_name@, variable@]);
                match r {
                    Ok(res) => {
                        let outv = res@;
                        exists|items: Seq<Response>|
                            #[trigger] spec_list_ok(s, pos, expected, items, final(self).s_pos())
                                && outv.len() == items.len() && (forall|i: int|
                                0 <= i < items.len() ==> (#[trigger] items[i] matches Response::Enum(v) && outv[i]@ == v@))
                    },
                    Err(e) => {
                        ||| spec_list_err(s, pos, expected, e, final(self).s_pos())
                        ||| exists|items: Seq<Response>, j: int|
                            #![trigger spec_list_ok(s, pos, expected, items, final(self).s_pos()), items[j]]
                            spec_list_ok(s, pos, expected, items, final(self).s_pos())
                                && 0 <= j < items.len() && (forall|i: int|
                                0 <= i < j ==> #[trigger] items[i] is Enum) && !(items[j]
                                is Enum) && e == Error::Nut(NutError::UnexpectedResponse)
                    },
                }
            }),
    {
        let mut query: Vec<String> = Vec::new();
        query.push("ENUM".to_owned());
        query.push(ups_name.to_owned());
        query.push(variable.to_owned());
        proof {
            assert(query.deep_view() =~= seq!["ENUM"@, ups_name@, variable@]);
            assert(seq!["LIST"@] + query.deep_view() =~= seq!["LIST"@, "ENUM"@, ups_name@, variable@]);
        }
        let items = match self.read_list(&query) {
            Ok(items) => items,
            Err(e) => {
                return Err(e);
            },
        };
        let mut out: Vec<String> = Vec::new();
        let mut j: usize = 0;
        while j < items.len()
            invariant
                final(self).inv(),
                old(self).same_shape(final(self)),
                final(self).s_in() == old(self).s_in(),
                final(self).s_out() == old(self).s_out() + spec_join_line(seq!["LIST"@, "ENUM"@, ups_name@, variable@]),
                spec_list_ok(old(self).s_in(), old(self).s_pos(), spec_join_words(seq!["ENUM"@, ups_name@, variable@]), items@, final(self).s_pos()),
                j <= items@.len(),
                out@.len() == j,
                forall|i: int| 0 <= i < j ==> #[trigger] items@[i] is Enum,
                ({
                    let outv = out@;
                    let items = items@;
                    forall|i: int| 0 <= i < j ==> (#[trigger] items[i] matches Response::Enum(v) && outv[i]@ == v@)
                }),
            decreases items@.len() - j,
        {
            match &items[j] {
                Response::Enum(v) => {
                    out.push(v.clone());
                },
                _ => {
                    proof {
                        assert(!(items@[j as int] is Enum));
                    }
                    return Err(Error::Nut(NutError::UnexpectedResponse));
                },
            }
            j = j + 1;
        }
        Ok(out)
    }

    /// Asks for the network protocol version (`NETVER`): one free-form
    /// line.
    pub fn get_network_version(&mut self) -> (r: Result<String, Error>)
        requires
            old(self).inv(),
        ensures
            final(self).inv(),
            old(self).same_shape(final(self)),
            final(self).s_in() == old(self).s_in(),
            final(self).s_out() == old(self).s_out() + spec_join_line(seq!["NETVER"@]),
            final(self).s_pos() == spec_line_end(old(self).s_in(), old(self).s_pos()),
            spec_plain_at(old(self).s_in(), old(self).s_pos(), r),
    {
        let req = ServerSentences::QueryNetworkVersion {};
        proof {
            assert(spec_server_encode(req) =~= seq!["NETVER"@]);
        }
        self.exchange_plain(&req)
    }

    /// Asks for the server version (`VERSION`): one free-form line.
    pub fn get_server_version(&mut self) -> (r: Result<String, Error>)
        requires
            old(self).inv(),
        ensures
            final(self).inv(),
            old(self).same_shape(final(self)),
            final(self).s_in() == old(self).s_in(),
            final(self).s_out() == old(self).s_out() + spec_join_line(seq!["VERSION"@]),
            final(self).s_pos() == spec_line_end(old(self).s_in(), old(self).s_pos()),
            spec_plain_at(old(self).s_in(), old(self).s_pos(), r),
    {
        let req = ServerSentences::QueryVersion {};
        proof {
            assert(spec_server_encode(req) =~= seq!["VERSION"@]);
        }
        self.exchange_plain(&req)
    }
}

/// A failed TLS upgrade read from position `pos`: the acknowledgement
/// failed (remapped when the server lacks the feature) or was not a bare
/// `OK`; or the configured hostname is no DNS name under strict
/// verification; or the probe on the secured channel failed.
pub open spec fn spec_start_tls_failed(s: Seq<char>, pos: int, cfg: Config, e: Error) -> bool {
    ||| exists|rr: Result<Response, Error>|
        #[trigger] spec_response_at(s, pos, rr) && (match rr {
            Err(e0) => e == (if e0 == Error::Nut(NutError::FeatureNotConfigured) {
                Error::Nut(NutError::SslNotSupported)
            } else {
                e0
            }),
            Ok(resp) => !(resp is Okay) && e == Error::Nut(NutError::UnexpectedResponse),
        })
    ||| ({
        &&& e == Error::Nut(NutError::SslInvalidHostname)
        &&& !cfg.ssl_insecure
        &&& match cfg.host {
            crate::host::Host::Tcp(t) => !crate::ssl::dns_name_ok(t.hostname@),
        }
    })
    ||| exists|rp: Result<String, Error>|
        #[trigger] spec_plain_at(s, spec_pos_after(s, pos, 1nat), rp) && rp == Err::<
            String,
            Error,
        >(e)
}

/// A failed authentication read from position `pos`: the `USERNAME`
/// acknowledgement failed or was not a bare `OK`, or the `PASSWORD`
/// acknowledgement did.
pub open spec fn spec_authenticate_failed(
    s: Seq<char>,
    pos: int,
    auth: crate::config::Auth,
    e: Error,
) -> bool {
    exists|rr1: Result<Response, Error>|
        #[trigger] spec_response_at(s, pos, rr1) && (match rr1 {
            Err(e0) => e == e0,
            Ok(resp1) => if resp1 is Okay {
                &&& auth.password is Some
                &&& exists|rr2: Result<Response, Error>|
                    #[trigger] spec_response_at(s, spec_pos_after(s, pos, 1nat), rr2)
                        && spec_ok_step(rr2, Err::<(), Error>(e))
            } else {
                e == Error::Nut(NutError::UnexpectedResponse)
            },
        })
}

/// An opened connection: healthy, carrying its configuration, on the
/// given transport's in-memory stream, secured when the configuration
/// asks for TLS.
pub open spec fn spec_opened(config: Config, transport: ConnectionStream, c: Connection) -> bool {
    &&& c.inv()
    &&& c.spec_config() == config
    &&& c.s_in() == spec_mock(transport).spec_input()
    &&& (config.ssl ==> (spec_tls_session(c.spec_stream()) matches Some(sess) && sess.insecure
        == config.ssl_insecure))
}

/// The authentication lines a configuration sends: `USERNAME`, then
/// `PASSWORD` when one is set.
pub open spec fn spec_auth_lines(auth: Option<crate::config::Auth>) -> Seq<char> {
    match auth {
        None => Seq::empty(),
        Some(a) => spec_join_line(seq!["USERNAME"@, a.username@]) + (match a.password {
            None => Seq::<char>::empty(),
            Some(p) => spec_join_line(seq!["PASSWORD"@, p@]),
        }),
    }
}

/// How many acknowledgement lines the authentication consumes.
pub open spec fn spec_auth_count(auth: Option<crate::config::Auth>) -> nat {
    match auth {
        None => 0nat,
        Some(a) => match a.password {
            None => 1nat,
            Some(_) => 2nat,
        },
    }
}

/// Walking lines composes additively.
pub proof fn lemma_pos_after_add(s: Seq<char>, pos: int, a: nat, b: nat)
    ensures
        spec_pos_after(s, pos, (a + b) as nat) == spec_pos_after(s, spec_pos_after(s, pos, a), b),
    decreases a,
{
    if a > 0 {
        lemma_pos_after_add(s, spec_line_end(s, pos), (a - 1) as nat, b);
        assert(spec_pos_after(s, pos, (a + b) as nat) == spec_pos_after(
            s,
            spec_line_end(s, pos),
            ((a + b) - 1) as nat,
        ));
        assert(spec_pos_after(s, pos, a) == spec_pos_after(s, spec_line_end(s, pos), (a - 1) as nat));
    }
}

} // verus!
