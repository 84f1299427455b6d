//! The transport stream: a sum type over an in-memory stream, a buffering
//! wrapper and the TLS wrappers, with move-only upgrade transitions and
//! line-oriented sentence I/O.
//!
//! The in-memory variant carries a scripted input and records everything
//! written; it is the mock the protocol core is verified and tested
//! against. Real sockets live with the process edge, outside this crate's
//! core, and follow the same operations.

use vstd::prelude::*;

use crate::error::{Error, IoErrorKind, NutError};
use crate::sentences::{
    spec_client_equiv,
    spec_client_decodes, spec_client_encode, spec_server_decodes, spec_server_encode,
    ClientSentences, ServerSentences,
};
use crate::ssl::{TlsClientSession, TlsServerSession};
use crate::text::push_char;
use crate::tokenizer::{join_sentence, spec_join_line, spec_split_words, spec_strip_newlines, split_sentence};

verus! {

/// The first position just past the line that starts at `pos`: past the
/// next newline, or the end of the text.
pub open spec fn spec_line_end(s: Seq<char>, pos: int) -> int
    decreases s.len() - pos,
{
    if pos < 0 || pos >= s.len() {
        s.len() as int
    } else if s[pos] == '\n' {
        pos + 1
    } else {
        spec_line_end(s, pos + 1)
    }
}

/// The position after reading `k` lines from `pos`.
pub open spec fn spec_pos_after(s: Seq<char>, pos: int, k: nat) -> int
    decreases k,
{
    if k == 0 {
        pos
    } else {
        spec_pos_after(s, spec_line_end(s, pos), (k - 1) as nat)
    }
}

/// An in-memory stream: a scripted input read line by line, and a record
/// of everything written.
#[derive(Debug)]
pub struct MockStream {
    input: String,
    pos: usize,
    output: String,
}

impl MockStream {
    /// The scripted input.
    pub closed spec fn spec_input(&self) -> Seq<char> {
        self.input@
    }

    /// How much of the input was consumed.
    pub closed spec fn spec_pos(&self) -> int {
        self.pos as int
    }

    /// Everything written so far.
    pub closed spec fn spec_output(&self) -> Seq<char> {
        self.output@
    }

    /// The read position never passes the end of the input.
    pub open spec fn inv(&self) -> bool {
        0 <= self.spec_pos() <= self.spec_input().len()
    }

    /// Builds a stream that will serve the given text.
    pub fn new(script: String) -> (r: MockStream)
        ensures
            r.spec_input() == script@,
            r.spec_pos() == 0,
            r.spec_output() == Seq::<char>::empty(),
            r.inv(),
    {
        MockStream { input: script, pos: 0, output: String::new() }
    }

    /// Reads one line, newline inclusive; an empty result means the end
    /// of the stream.
    pub fn read_line(&mut self) -> (r: String)
        requires
            old(self).inv(),
        ensures
            final(self).inv(),
            final(self).spec_input() == old(self).spec_input(),
            final(self).spec_output() == old(self).spec_output(),
            final(self).spec_pos() == spec_line_end(old(self).spec_input(), old(self).spec_pos()),
            r@ == old(self).spec_input().subrange(old(self).spec_pos(), final(self).spec_pos()),
    {
        let ghost s = self.input@;
        let ghost pos0 = self.pos as int;
        let n = self.input.as_str().unicode_len();
        let mut i: usize = self.pos;
        let mut out = String::new();
        proof {
            assert(out@ =~= s.subrange(pos0, pos0));
        }
        while i < n && self.input.as_str().get_char(i) != '\n'
            invariant
                n == s.len(),
                s == self.input@,
                pos0 <= i as int <= n,
                self.inv(),
                pos0 == self.pos as int,
                spec_line_end(s, pos0) == spec_line_end(s, i as int),
                out@ == s.subrange(pos0, i as int),
            decreases n - i,
        {
            let c = self.input.as_str().get_char(i);
            push_char(&mut out, c);
            proof {
                assert(out@ =~= s.subrange(pos0, i as int + 1));
            }
            i = i + 1;
        }
        if i < n {
            let c = self.input.as_str().get_char(i);
            push_char(&mut out, c);
            proof {
                assert(out@ =~= s.subrange(pos0, i as int + 1));
            }
            i = i + 1;
        }
        self.pos = i;
        out
    }

    /// Appends text to the written record.
    pub fn write_text(&mut self, data: &str)
        ensures
            final(self).spec_input() == old(self).spec_input(),
            final(self).spec_pos() == old(self).spec_pos(),
            final(self).spec_output() == old(self).spec_output() + data@,
            final(self).inv() == old(self).inv(),
    {
        self.output.append(data);
    }

    /// Whether the whole input was consumed.
    pub fn at_end(&self) -> (r: bool)
        requires
            self.inv(),
        ensures
            r == (self.spec_pos() == self.spec_input().len()),
    {
        self.pos == self.input.as_str().unicode_len()
    }

    /// Everything written so far.
    pub fn written(&self) -> (r: &str)
        ensures
            r@ == self.spec_output(),
    {
        self.output.as_str()
    }
}

/// A transport stream: the in-memory stream, possibly wrapped by a
/// buffering reader and by a TLS adapter. Wrapping and unwrapping consume
/// the stream, so only one handle exists during an upgrade.
pub enum ConnectionStream {
    /// A plain in-memory stream.
    Mock(MockStream),
    /// A stream wrapped in a buffering reader; only a buffered stream can
    /// serve line reads.
    Buffered(Box<ConnectionStream>),
    /// A stream wrapped in a client-side TLS adapter.
    SslClient(Box<ConnectionStream>, TlsClientSession),
    /// A stream wrapped in a server-side TLS adapter.
    SslServer(Box<ConnectionStream>, TlsServerSession),
}

/// The nesting depth of the wrappers.
pub open spec fn spec_stream_height(s: ConnectionStream) -> nat
    decreases s,
{
    match s {
        ConnectionStream::Mock(_) => 0,
        ConnectionStream::Buffered(b) => spec_stream_height(*b) + 1,
        ConnectionStream::SslClient(b, _) => spec_stream_height(*b) + 1,
        ConnectionStream::SslServer(b, _) => spec_stream_height(*b) + 1,
    }
}

/// The in-memory stream at the bottom of the wrappers.
pub open spec fn spec_mock(s: ConnectionStream) -> MockStream
    decreases s,
{
    match s {
        ConnectionStream::Mock(m) => m,
        ConnectionStream::Buffered(b) => spec_mock(*b),
        ConnectionStream::SslClient(b, _) => spec_mock(*b),
        ConnectionStream::SslServer(b, _) => spec_mock(*b),
    }
}

/// The same wrappers around a replaced in-memory stream.
pub open spec fn spec_with_mock(s: ConnectionStream, m: MockStream) -> ConnectionStream
    decreases s,
{
    match s {
        ConnectionStream::Mock(_) => ConnectionStream::Mock(m),
        ConnectionStream::Buffered(b) => ConnectionStream::Buffered(
            Box::new(spec_with_mock(*b, m)),
        ),
        ConnectionStream::SslClient(b, t) => ConnectionStream::SslClient(
            Box::new(spec_with_mock(*b, m)),
            t,
        ),
        ConnectionStream::SslServer(b, t) => ConnectionStream::SslServer(
            Box::new(spec_with_mock(*b, m)),
            t,
        ),
    }
}

/// The client TLS session the traffic passes through, if any.
pub open spec fn spec_tls_session(s: ConnectionStream) -> Option<TlsClientSession>
    decreases s,
{
    match s {
        ConnectionStream::Mock(_) => None,
        ConnectionStream::Buffered(b) => spec_tls_session(*b),
        ConnectionStream::SslClient(_, t) => Some(t),
        ConnectionStream::SslServer(b, _) => spec_tls_session(*b),
    }
}

/// The stream, after this call, differs from its old value only in the
/// in-memory stream at the bottom: same wrappers, same sessions.
pub open spec fn spec_same_shape(old_s: ConnectionStream, new_s: ConnectionStream) -> bool {
    new_s == spec_with_mock(old_s, spec_mock(new_s))
}

/// The read position never passes the end of the input.
pub open spec fn stream_inv(s: ConnectionStream) -> bool {
    spec_mock(s).inv()
}

impl ConnectionStream {
    /// Reads one line from the underlying stream, wherever it sits.
    fn read_line_any(&mut self) -> (r: String)
        requires
            stream_inv(*old(self)),
        ensures
            stream_inv(*final(self)),
            spec_same_shape(*old(self), *final(self)),
            spec_mock(*final(self)).spec_input() == spec_mock(*old(self)).spec_input(),
            spec_mock(*final(self)).spec_output() == spec_mock(*old(self)).spec_output(),
            spec_mock(*final(self)).spec_pos() == spec_line_end(
                spec_mock(*old(self)).spec_input(),
                spec_mock(*old(self)).spec_pos(),
            ),
            r@ == spec_mock(*old(self)).spec_input().subrange(
                spec_mock(*old(self)).spec_pos(),
                spec_mock(*final(self)).spec_pos(),
            ),
        decreases spec_stream_height(*old(self)),
    {
        match self {
            ConnectionStream::Mock(m) => m.read_line(),
            ConnectionStream::Buffered(b) => b.read_line_any(),
            ConnectionStream::SslClient(b, _) => b.read_line_any(),
            ConnectionStream::SslServer(b, _) => b.read_line_any(),
        }
    }

    /// Reads one line, newline inclusive; an empty line means the end of
    /// the stream. Only a buffered stream serves line reads.
    pub fn read_line(&mut self) -> (r: Result<String, Error>)
        requires
            stream_inv(*old(self)),
        ensures
            stream_inv(*final(self)),
            spec_same_shape(*old(self), *final(self)),
            spec_mock(*final(self)).spec_input() == spec_mock(*old(self)).spec_input(),
            spec_mock(*final(self)).spec_output() == spec_mock(*old(self)).spec_output(),
            match r {
                Ok(line) => {
                    &&& *old(self) is Buffered
                    &&& spec_mock(*final(self)).spec_pos() == spec_line_end(
                        spec_mock(*old(self)).spec_input(),
                        spec_mock(*old(self)).spec_pos(),
                    )
                    &&& line@ == spec_mock(*old(self)).spec_input().subrange(
                        spec_mock(*old(self)).spec_pos(),
                        spec_mock(*final(self)).spec_pos(),
                    )
                },
                Err(e) => {
                    &&& !(*old(self) is Buffered)
                    &&& e == Error::Io(IoErrorKind::NotSupported)
                    &&& *final(self) == *old(self)
                },
            },
    {
        if self.is_buffered() {
            Ok(self.read_line_any())
        } else {
            proof {
                lemma_with_mock_self(*self);
            }
            Err(Error::Io(IoErrorKind::NotSupported))
        }
    }

    /// Writes text through the wrappers onto the underlying stream.
    pub fn write_text(&mut self, data: &str)
        ensures
            spec_same_shape(*old(self), *final(self)),
            spec_mock(*final(self)).spec_input() == spec_mock(*old(self)).spec_input(),
            spec_mock(*final(self)).spec_pos() == spec_mock(*old(self)).spec_pos(),
            spec_mock(*final(self)).spec_output() == spec_mock(*old(self)).spec_output() + data@,
            stream_inv(*old(self)) ==> stream_inv(*final(self)),
        decreases spec_stream_height(*old(self)),
    {
        match self {
            ConnectionStream::Mock(m) => m.write_text(data),
            ConnectionStream::Buffered(b) => b.write_text(data),
            ConnectionStream::SslClient(b, _) => b.write_text(data),
            ConnectionStream::SslServer(b, _) => b.write_text(data),
        }
    }

    /// Flushes the stream. The in-memory stream holds nothing back, so
    /// this changes nothing.
    pub fn flush(&mut self)
        ensures
            *final(self) == *old(self),
    {
    }

    /// Whether the stream is wrapped in the buffering reader.
    pub fn is_buffered(&self) -> (r: bool)
        ensures
            r == (*self is Buffered),
    {
        match self {
            ConnectionStream::Buffered(_) => true,
            _ => false,
        }
    }

    /// Wraps the stream in a buffering reader.
    pub fn buffered(self) -> (r: ConnectionStream)
        ensures
            r == ConnectionStream::Buffered(Box::new(self)),
    {
        ConnectionStream::Buffered(Box::new(self))
    }

    /// Unwraps one buffering reader, if present; anything the buffer had
    /// read ahead but not served would be dropped, which the in-memory
    /// stream never has.
    pub fn unbuffered(self) -> (r: ConnectionStream)
        ensures
            r == match self {
                ConnectionStream::Buffered(b) => *b,
                _ => self,
            },
    {
        match self {
            ConnectionStream::Buffered(b) => *b,
            other => other,
        }
    }

    /// Wraps the stream in a client-side TLS adapter. The stream must not
    /// be buffered: the TLS layer manages its own framing and a buffer's
    /// contents would be lost.
    pub fn upgrade_ssl_client(self, session: TlsClientSession) -> (r: Result<
        ConnectionStream,
        Error,
    >)
        requires
            !(self is Buffered),
        ensures
            r matches Ok(s) && s == ConnectionStream::SslClient(Box::new(self), session),
    {
        Ok(ConnectionStream::SslClient(Box::new(self), session))
    }

    /// Wraps the stream in a server-side TLS adapter. The stream must not
    /// be buffered.
    pub fn upgrade_ssl_server(self, session: TlsServerSession) -> (r: Result<
        ConnectionStream,
        Error,
    >)
        requires
            !(self is Buffered),
        ensures
            r matches Ok(s) && s == ConnectionStream::SslServer(Box::new(self), session),
    {
        Ok(ConnectionStream::SslServer(Box::new(self), session))
    }

    /// Everything written to the underlying stream so far.
    pub fn written(&self) -> (r: &str)
        ensures
            r@ == spec_mock(*self).spec_output(),
        decreases spec_stream_height(*self),
    {
        match self {
            ConnectionStream::Mock(m) => m.written(),
            ConnectionStream::Buffered(b) => b.written(),
            ConnectionStream::SslClient(b, _) => b.written(),
            ConnectionStream::SslServer(b, _) => b.written(),
        }
    }

    /// Whether the traffic passes through a client TLS adapter.
    pub fn has_tls(&self) -> (r: bool)
        ensures
            r == (spec_tls_session(*self) is Some),
        decreases spec_stream_height(*self),
    {
        match self {
            ConnectionStream::Mock(_) => false,
            ConnectionStream::Buffered(b) => b.has_tls(),
            ConnectionStream::SslClient(_, _) => true,
            ConnectionStream::SslServer(b, _) => b.has_tls(),
        }
    }

    /// Writes one sentence: encode, join with the newline, write, flush.
    pub fn write_server_sentence(&mut self, s: &ServerSentences) -> (r: Result<(), Error>)
        ensures
            r is Ok,
            spec_same_shape(*old(self), *final(self)),
            spec_mock(*final(self)).spec_input() == spec_mock(*old(self)).spec_input(),
            spec_mock(*final(self)).spec_pos() == spec_mock(*old(self)).spec_pos(),
            spec_mock(*final(self)).spec_output() == spec_mock(*old(self)).spec_output()
                + spec_join_line(spec_server_encode(*s)),
            stream_inv(*old(self)) ==> stream_inv(*final(self)),
    {
        let words = s.encode();
        let line = join_sentence(&words);
        self.write_text(line.as_str());
        self.flush();
        Ok(())
    }

    /// Writes one client-bound sentence (what a server would send).
    pub fn write_client_sentence(&mut self, s: &ClientSentences) -> (r: Result<(), Error>)
        ensures
            r is Ok,
            spec_same_shape(*old(self), *final(self)),
            spec_mock(*final(self)).spec_input() == spec_mock(*old(self)).spec_input(),
            spec_mock(*final(self)).spec_pos() == spec_mock(*old(self)).spec_pos(),
            spec_mock(*final(self)).spec_output() == spec_mock(*old(self)).spec_output()
                + spec_join_line(spec_client_encode(*s)),
            stream_inv(*old(self)) ==> stream_inv(*final(self)),
    {
        let words = s.encode();
        let line = join_sentence(&words);
        self.write_text(line.as_str());
        self.flush();
        Ok(())
    }

    /// The lines of the given client-bound sentences, in order.
    pub open spec fn spec_client_lines(ss: Seq<ClientSentences>) -> Seq<char>
        decreases ss.len(),
    {
        if ss.len() == 0 {
            Seq::empty()
        } else {
            spec_join_line(spec_client_encode(ss[0])) + Self::spec_client_lines(ss.drop_first())
        }
    }

    /// Writes a run of client-bound sentences, flushing once at the end.
    pub fn write_client_sentences(&mut self, ss: &Vec<ClientSentences>) -> (r: Result<(), Error>)
        ensures
            r is Ok,
            spec_same_shape(*old(self), *final(self)),
            spec_mock(*final(self)).spec_input() == spec_mock(*old(self)).spec_input(),
            spec_mock(*final(self)).spec_pos() == spec_mock(*old(self)).spec_pos(),
            spec_mock(*final(self)).spec_output() == spec_mock(*old(self)).spec_output()
                + Self::spec_client_lines(ss@),
            stream_inv(*old(self)) ==> stream_inv(*final(self)),
    {
        let mut i: usize = 0;
        proof {
            lemma_with_mock_self(*self);
            lemma_client_lines_snoc_base(ss@, 0);
            assert(spec_mock(*self).spec_output() =~= spec_mock(*old(self)).spec_output()
                + Self::spec_client_lines(ss@.subrange(0, 0)));
        }
        while i < ss.len()
            invariant
                i <= ss@.len(),
                stream_inv(*old(self)) ==> stream_inv(*self),
                spec_same_shape(*old(self), *self),
                spec_mock(*self).spec_input() == spec_mock(*old(self)).spec_input(),
                spec_mock(*self).spec_pos() == spec_mock(*old(self)).spec_pos(),
                spec_mock(*self).spec_output() == spec_mock(*old(self)).spec_output()
                    + Self::spec_client_lines(ss@.subrange(0, i as int)),
            decreases ss@.len() - i,
        {
            let words = ss[i].encode();
            let line = join_sentence(&words);
            let ghost prev = *self;
            self.write_text(line.as_str());
            proof {
                lemma_with_mock_compose(*old(self), prev);
                assert(spec_same_shape(*old(self), *self));
                lemma_client_lines_snoc(ss@, i as int);
                assert(spec_mock(*self).spec_output() =~= spec_mock(*old(self)).spec_output()
                    + Self::spec_client_lines(ss@.subrange(0, i as int + 1)));
            }
            i = i + 1;
        }
        self.flush();
        proof {
            assert(ss@.subrange(0, ss@.len() as int) =~= ss@);
        }
        Ok(())
    }
}

/// What reading one sentence from the line at `pos` yields: end of stream
/// is a transport EOF, an unbalanced line cannot be processed, an
/// unrecognized pattern is an invalid argument, a decoded `ERR` sentence
/// becomes its typed error, and anything else is the sentence itself.
pub open spec fn spec_client_sentence_at(
    s: Seq<char>,
    pos: int,
    r: Result<ClientSentences, Error>,
) -> bool {
    let line = s.subrange(pos, spec_line_end(s, pos));
    if line.len() == 0 {
        r == Err::<ClientSentences, Error>(Error::Io(IoErrorKind::UnexpectedEof))
    } else {
        match spec_split_words(spec_strip_newlines(line)) {
            None => r == Err::<ClientSentences, Error>(Error::Nut(NutError::NotProcessable)),
            Some(toks) => match r {
                Ok(sent) => spec_client_decodes(toks, Some(sent)) && !(sent is RespondErr),
                Err(e) => {
                    ||| spec_client_decodes(toks, None::<ClientSentences>) && e == Error::Nut(
                        NutError::InvalidArgument,
                    )
                    ||| exists|sent: ClientSentences|
                        #[trigger] spec_client_decodes(toks, Some(sent)) && (sent
                            matches ClientSentences::RespondErr { message, extras } && (e
                            matches Error::Nut(ne) && crate::error::spec_code_maps(message@, ne)))
                },
            },
        }
    }
}

/// What reading one server-bound sentence from the line at `pos` yields.
pub open spec fn spec_server_sentence_at(
    s: Seq<char>,
    pos: int,
    r: Result<ServerSentences, Error>,
) -> bool {
    let line = s.subrange(pos, spec_line_end(s, pos));
    if line.len() == 0 {
        r == Err::<ServerSentences, Error>(Error::Io(IoErrorKind::UnexpectedEof))
    } else {
        match spec_split_words(spec_strip_newlines(line)) {
            None => r == Err::<ServerSentences, Error>(Error::Nut(NutError::NotProcessable)),
            Some(toks) => match r {
                Ok(sent) => spec_server_decodes(toks, Some(sent)),
                Err(e) => spec_server_decodes(toks, None::<ServerSentences>) && e == Error::Nut(
                    NutError::InvalidArgument,
                ),
            },
        }
    }
}

/// Reading one more line moves the position by one line end.
pub proof fn lemma_pos_after_snoc(s: Seq<char>, pos: int, k: nat)
    ensures
        spec_pos_after(s, pos, k + 1) == spec_line_end(s, spec_pos_after(s, pos, k)),
    decreases k,
{
    if k == 0 {
        assert(spec_pos_after(s, pos, 1nat) == spec_pos_after(s, spec_line_end(s, pos), 0nat));
    } else {
        lemma_pos_after_snoc(s, spec_line_end(s, pos), (k - 1) as nat);
        assert(spec_pos_after(s, pos, k + 1) == spec_pos_after(
            s,
            spec_line_end(s, pos),
            ((k + 1) - 1) as nat,
        ));
        assert(spec_pos_after(s, pos, k) == spec_pos_after(
            s,
            spec_line_end(s, pos),
            (k - 1) as nat,
        ));
    }
}

impl ConnectionStream {
    /// Reads one client-bound sentence, per [`spec_client_sentence_at`].
    /// Only a buffered stream serves reads; the line is consumed even when
    /// it does not parse.
    pub fn read_client_sentence(&mut self) -> (r: Result<ClientSentences, Error>)
        requires
            stream_inv(*old(self)),
        ensures
            stream_inv(*final(self)),
            spec_same_shape(*old(self), *final(self)),
            spec_mock(*final(self)).spec_input() == spec_mock(*old(self)).spec_input(),
            spec_mock(*final(self)).spec_output() == spec_mock(*old(self)).spec_output(),
            *old(self) is Buffered ==> {
                &&& spec_mock(*final(self)).spec_pos() == spec_line_end(
                    spec_mock(*old(self)).spec_input(),
                    spec_mock(*old(self)).spec_pos(),
                )
                &&& spec_client_sentence_at(
                    spec_mock(*old(self)).spec_input(),
                    spec_mock(*old(self)).spec_pos(),
                    r,
                )
            },
            !(*old(self) is Buffered) ==> *final(self) == *old(self) && r == Err::<
                ClientSentences,
                Error,
            >(Error::Io(IoErrorKind::NotSupported)),
    {
        let line = match self.read_line() {
            Ok(line) => line,
            Err(e) => {
                return Err(e);
            },
        };
        if line.as_str().unicode_len() == 0 {
            return Err(Error::eof());
        }
        let words = match split_sentence(line.as_str()) {
            Some(words) => words,
            None => {
                return Err(Error::Nut(NutError::NotProcessable));
            },
        };
        match ClientSentences::decode(&words) {
            Some(sent) => {
                match sent {
                    ClientSentences::RespondErr { message, extras } => {
                        let ghost err_sent = ClientSentences::RespondErr {
                            message: message,
                            extras: extras,
                        };
                        let e = NutError::from_code(message.as_str());
                        proof {
                            assert(spec_client_decodes(words.deep_view(), Some(err_sent)));
                        }
                        Err(Error::Nut(e))
                    },
                    other => Ok(other),
                }
            },
            None => Err(Error::Nut(NutError::InvalidArgument)),
        }
    }

    /// Reads one server-bound sentence, per [`spec_server_sentence_at`].
    pub fn read_server_sentence(&mut self) -> (r: Result<ServerSentences, Error>)
        requires
            stream_inv(*old(self)),
        ensures
            stream_inv(*final(self)),
            spec_same_shape(*old(self), *final(self)),
            spec_mock(*final(self)).spec_input() == spec_mock(*old(self)).spec_input(),
            spec_mock(*final(self)).spec_output() == spec_mock(*old(self)).spec_output(),
            *old(self) is Buffered ==> {
                &&& spec_mock(*final(self)).spec_pos() == spec_line_end(
                    spec_mock(*old(self)).spec_input(),
                    spec_mock(*old(self)).spec_pos(),
                )
                &&& spec_server_sentence_at(
                    spec_mock(*old(self)).spec_input(),
                    spec_mock(*old(self)).spec_pos(),
                    r,
                )
            },
            !(*old(self) is Buffered) ==> *final(self) == *old(self) && r == Err::<
                ServerSentences,
                Error,
            >(Error::Io(IoErrorKind::NotSupported)),
    {
        let line = match self.read_line() {
            Ok(line) => line,
            Err(e) => {
                return Err(e);
            },
        };
        if line.as_str().unicode_len() == 0 {
            return Err(Error::eof());
        }
        let words = match split_sentence(line.as_str()) {
            Some(words) => words,
            None => {
                return Err(Error::Nut(NutError::NotProcessable));
            },
        };
        match ServerSentences::decode(&words) {
            Some(sent) => Ok(sent),
            None => Err(Error::Nut(NutError::InvalidArgument)),
        }
    }

    /// Reads client-bound sentences until one matches the terminator; the
    /// terminator is consumed and not part of the result. At most a
    /// thousand sentences are read; past that the read fails with a
    /// generic protocol error.
    pub fn read_client_sentences_until(&mut self, terminator: &ClientSentences) -> (r: Result<
        Vec<ClientSentences>,
        Error,
    >)
        requires
            stream_inv(*old(self)),
            *old(self) is Buffered,
        ensures
            stream_inv(*final(self)),
            spec_same_shape(*old(self), *final(self)),
            spec_mock(*final(self)).spec_input() == spec_mock(*old(self)).spec_input(),
            spec_mock(*final(self)).spec_output() == spec_mock(*old(self)).spec_output(),
            ({
                let s = spec_mock(*old(self)).spec_input();
                let pos0 = spec_mock(*old(self)).spec_pos();
                match r {
                    Ok(items) => {
                        &&& items@.len() < 1000
                        &&& forall|i: int|
                            0 <= i < items@.len() ==> #[trigger] spec_client_sentence_at(
                                s,
                                spec_pos_after(s, pos0, i as nat),
                                Ok(items@[i]),
                            ) && !spec_client_equiv(items@[i], *terminator)
                        &&& exists|end_sent: ClientSentences|
                            #[trigger] spec_client_sentence_at(
                                s,
                                spec_pos_after(s, pos0, items@.len() as nat),
                                Ok(end_sent),
                            ) && spec_client_equiv(end_sent, *terminator)
                        &&& spec_mock(*final(self)).spec_pos() == spec_pos_after(
                            s,
                            pos0,
                            (items@.len() + 1) as nat,
                        )
                    },
                    Err(e) => {
                        ||| exists|pre: Seq<ClientSentences>|
                            {
                                &&& pre.len() < 1000
                                &&& forall|i: int|
                                    0 <= i < pre.len() ==> #[trigger] spec_client_sentence_at(
                                        s,
                                        spec_pos_after(s, pos0, i as nat),
                                        Ok(pre[i]),
                                    ) && !spec_client_equiv(pre[i], *terminator)
                                &&& #[trigger] spec_client_sentence_at(
                                    s,
                                    spec_pos_after(s, pos0, pre.len()),
                                    Err(e),
                                )
                                &&& spec_mock(*final(self)).spec_pos() == spec_pos_after(
                                    s,
                                    pos0,
                                    (pre.len() + 1) as nat,
                                )
                            }
                        ||| exists|pre: Seq<ClientSentences>|
                            {
                                &&& pre.len() == 1000
                                &&& forall|i: int|
                                    0 <= i < pre.len() ==> #[trigger] spec_client_sentence_at(
                                        s,
                                        spec_pos_after(s, pos0, i as nat),
                                        Ok(pre[i]),
                                    ) && !spec_client_equiv(pre[i], *terminator)
                                &&& e matches Error::Nut(ne) && ne is Generic
                                &&& spec_mock(*final(self)).spec_pos() == spec_pos_after(
                                    s,
                                    pos0,
                                    1000nat,
                                )
                            }
                    },
                }
            }),
    {
        let ghost s = spec_mock(*old(self)).spec_input();
        let ghost pos0 = spec_mock(*old(self)).spec_pos();
        let mut items: Vec<ClientSentences> = Vec::new();
        let mut k: usize = 0;
        proof {
            lemma_with_mock_self(*self);
        }
        while k < 1000
            invariant
                stream_inv(*self),
                spec_same_shape(*old(self), *self),
                *self is Buffered,
                spec_mock(*self).spec_input() == s,
                spec_mock(*self).spec_output() == spec_mock(*old(self)).spec_output(),
                s == spec_mock(*old(self)).spec_input(),
                pos0 == spec_mock(*old(self)).spec_pos(),
                k == items@.len(),
                k <= 1000,
                spec_mock(*self).spec_pos() == spec_pos_after(s, pos0, k as nat),
                forall|i: int|
                    0 <= i < items@.len() ==> #[trigger] spec_client_sentence_at(
                        s,
                        spec_pos_after(s, pos0, i as nat),
                        Ok(items@[i]),
                    ) && !spec_client_equiv(items@[i], *terminator),
            decreases 1000 - k,
        {
            let ghost prev = *self;
            let next = self.read_client_sentence();
            proof {
                lemma_with_mock_compose(*old(self), prev);
                assert(spec_same_shape(*old(self), *self));
                lemma_pos_after_snoc(s, pos0, k as nat);
            }
            match next {
                Ok(sent) => {
                    if sent.equiv(terminator) {
                        proof {
                            assert(spec_client_sentence_at(
                                s,
                                spec_pos_after(s, pos0, items@.len() as nat),
                                Ok(sent),
                            ) && spec_client_equiv(sent, *terminator));
                        }
                        return Ok(items);
                    }
                    items.push(sent);
                    k = k + 1;
                },
                Err(e) => {
                    proof {
                        assert(items@.len() < 1000);
                        assert(spec_client_sentence_at(
                            s,
                            spec_pos_after(s, pos0, items@.len()),
                            Err::<ClientSentences, Error>(e),
                        ));
                    }
                    return Err(e);
                },
            }
        }
        let err = Error::generic("Reached maximum read capacity");
        proof {
            assert(items@.len() == 1000);
        }
        Err(err)
    }
}

/// Replacing the in-memory stream keeps the TLS session in place.
pub proof fn lemma_with_mock_tls(a: ConnectionStream, m: MockStream)
    ensures
        spec_tls_session(spec_with_mock(a, m)) == spec_tls_session(a),
    decreases a,
{
    match a {
        ConnectionStream::Mock(_) => {},
        ConnectionStream::Buffered(b) => {
            lemma_with_mock_tls(*b, m);
        },
        ConnectionStream::SslClient(b, _) => {},
        ConnectionStream::SslServer(b, _) => {
            lemma_with_mock_tls(*b, m);
        },
    }
}

/// Replacing the in-memory stream keeps every wrapper in place: a stream
/// buffered exactly once stays buffered exactly once.
pub proof fn lemma_shape_preserves_buffering(a: ConnectionStream, b: ConnectionStream)
    requires
        spec_same_shape(a, b),
        a matches ConnectionStream::Buffered(x) && !(*x is Buffered),
    ensures
        b matches ConnectionStream::Buffered(y) && !(*y is Buffered),
{
    let m = spec_mock(b);
    match a {
        ConnectionStream::Buffered(x) => {
            assert(b == ConnectionStream::Buffered(Box::new(spec_with_mock(*x, m))));
            match *x {
                ConnectionStream::Mock(_) => {},
                ConnectionStream::Buffered(_) => {},
                ConnectionStream::SslClient(_, _) => {},
                ConnectionStream::SslServer(_, _) => {},
            }
        },
        _ => {},
    }
}

/// An empty prefix of sentences writes nothing.
proof fn lemma_client_lines_snoc_base(ss: Seq<ClientSentences>, k: int)
    requires
        0 <= k <= ss.len(),
    ensures
        k == 0 ==> ConnectionStream::spec_client_lines(ss.subrange(0, k)) == Seq::<char>::empty(),
{
    if k == 0 {
        assert(ss.subrange(0, 0) =~= Seq::<ClientSentences>::empty());
    }
}

/// Writing one more sentence extends the written lines by its line.
proof fn lemma_client_lines_snoc(ss: Seq<ClientSentences>, i: int)
    requires
        0 <= i < ss.len(),
    ensures
        ConnectionStream::spec_client_lines(ss.subrange(0, i + 1))
            == ConnectionStream::spec_client_lines(ss.subrange(0, i)) + spec_join_line(
            spec_client_encode(ss[i]),
        ),
    decreases i,
{
    if i == 0 {
        let one = ss.subrange(0, 1);
        assert(one[0] == ss[0]);
        assert(one.drop_first() =~= Seq::<ClientSentences>::empty());
        assert(ConnectionStream::spec_client_lines(Seq::<ClientSentences>::empty())
            == Seq::<char>::empty());
        assert(ConnectionStream::spec_client_lines(one) =~= spec_join_line(
            spec_client_encode(ss[0]),
        ));
        assert(ss.subrange(0, 0) =~= Seq::<ClientSentences>::empty());
        assert(ConnectionStream::spec_client_lines(ss.subrange(0, 0)) + spec_join_line(
            spec_client_encode(ss[0]),
        ) =~= spec_join_line(spec_client_encode(ss[0])));
    } else {
        lemma_client_lines_snoc(ss.drop_first(), i - 1);
        let a = ss.subrange(0, i + 1);
        let b = ss.subrange(0, i);
        assert(a.drop_first() =~= ss.drop_first().subrange(0, i));
        assert(b.drop_first() =~= ss.drop_first().subrange(0, i - 1));
        assert(a[0] == ss[0]);
        assert(b[0] == ss[0]);
        assert(ss.drop_first().subrange(0, i - 1 + 1) =~= ss.drop_first().subrange(0, i));
        assert(ss.drop_first()[i - 1] == ss[i]);
        assert(ConnectionStream::spec_client_lines(a) =~= ConnectionStream::spec_client_lines(b)
            + spec_join_line(spec_client_encode(ss[i])));
    }
}

/// Putting a stream's own in-memory stream back changes nothing.
pub proof fn lemma_with_mock_self(a: ConnectionStream)
    ensures
        spec_with_mock(a, spec_mock(a)) == a,
    decreases a,
{
    match a {
        ConnectionStream::Mock(_) => {},
        ConnectionStream::Buffered(b) => {
            lemma_with_mock_self(*b);
        },
        ConnectionStream::SslClient(b, _) => {
            lemma_with_mock_self(*b);
        },
        ConnectionStream::SslServer(b, _) => {
            lemma_with_mock_self(*b);
        },
    }
}

/// Replacing the mock twice keeps only the last replacement.
pub proof fn lemma_with_mock_compose(a: ConnectionStream, b: ConnectionStream)
    requires
        spec_same_shape(a, b),
    ensures
        forall|m: MockStream| #[trigger] spec_with_mock(b, m) == spec_with_mock(a, m),
    decreases a,
{
    assert forall|m: MockStream| #[trigger] spec_with_mock(b, m) == spec_with_mock(a, m) by {
        lemma_with_mock_compose_one(a, spec_mock(b), m);
    }
}

/// Replacing the mock, then replacing it again, is one replacement.
proof fn lemma_with_mock_compose_one(a: ConnectionStream, m1: MockStream, m2: MockStream)
    ensures
        spec_with_mock(spec_with_mock(a, m1), m2) == spec_with_mock(a, m2),
    decreases a,
{
    match a {
        ConnectionStream::Mock(_) => {},
        ConnectionStream::Buffered(b) => {
            lemma_with_mock_compose_one(*b, m1, m2);
        },
        ConnectionStream::SslClient(b, _) => {
            lemma_with_mock_compose_one(*b, m1, m2);
        },
        ConnectionStream::SslServer(b, _) => {
            lemma_with_mock_compose_one(*b, m1, m2);
        },
    }
}

} // verus!
