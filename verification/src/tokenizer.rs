//! The sentence tokenizer: splits one wire line into words minding single
//! and double quotes, and joins words back into a line, re-quoting words
//! that hold whitespace, quotes or other shell metacharacters.
//!
//! Joining then splitting returns the original words; see
//! [`lemma_split_join_roundtrip`].

use vstd::prelude::*;

use crate::text::{is_plain_char, is_safe_char, is_space_char, push_char, safe_char, space_char};

verus! {

/// Tokenizer state: between words, inside a bare word, inside a
/// single-quoted span, or inside a double-quoted span.
#[derive(Clone, Copy, Debug, PartialEq, Eq, Structural)]
pub enum SplitMode {
    Between,
    InWord,
    Single,
    Double,
}

/// A line with every trailing newline removed.
pub open spec fn spec_strip_newlines(s: Seq<char>) -> Seq<char>
    decreases s.len(),
{
    if s.len() > 0 && s[s.len() - 1] == '\n' {
        spec_strip_newlines(s.drop_last())
    } else {
        s
    }
}

/// One step per character: the complete splitting of `s` starting in the
/// given mode, with `cur` the word collected so far and `done` the words
/// already finished. `None` means the quoting is unbalanced.
pub open spec fn spec_split_from(
    s: Seq<char>,
    mode: SplitMode,
    cur: Seq<char>,
    done: Seq<Seq<char>>,
) -> Option<Seq<Seq<char>>>
    decreases s.len(),
{
    if s.len() == 0 {
        match mode {
            SplitMode::Between => Some(done),
            SplitMode::InWord => Some(done.push(cur)),
            SplitMode::Single => None,
            SplitMode::Double => None,
        }
    } else {
        let c = s[0];
        let rest = s.drop_first();
        match mode {
            SplitMode::Between => if is_space_char(c) {
                spec_split_from(rest, SplitMode::Between, cur, done)
            } else if c == '\'' {
                spec_split_from(rest, SplitMode::Single, Seq::empty(), done)
            } else if c == '"' {
                spec_split_from(rest, SplitMode::Double, Seq::empty(), done)
            } else {
                spec_split_from(rest, SplitMode::InWord, seq![c], done)
            },
            SplitMode::InWord => if is_space_char(c) {
                spec_split_from(rest, SplitMode::Between, Seq::empty(), done.push(cur))
            } else if c == '\'' {
                spec_split_from(rest, SplitMode::Single, cur, done)
            } else if c == '"' {
                spec_split_from(rest, SplitMode::Double, cur, done)
            } else {
                spec_split_from(rest, SplitMode::InWord, cur.push(c), done)
            },
            SplitMode::Single => if c == '\'' {
                spec_split_from(rest, SplitMode::InWord, cur, done)
            } else {
                spec_split_from(rest, SplitMode::Single, cur.push(c), done)
            },
            SplitMode::Double => if c == '"' {
                spec_split_from(rest, SplitMode::InWord, cur, done)
            } else if c == '\\' {
                if s.len() == 1 {
                    None
                } else {
                    spec_split_from(rest.drop_first(), SplitMode::Double, cur.push(s[1]), done)
                }
            } else {
                spec_split_from(rest, SplitMode::Double, cur.push(c), done)
            },
        }
    }
}

/// The words of a line (with its newline already stripped), or `None` when
/// a quote is left unbalanced.
pub open spec fn spec_split_words(s: Seq<char>) -> Option<Seq<Seq<char>>> {
    spec_split_from(s, SplitMode::Between, Seq::empty(), Seq::empty())
}

/// Whether a word must be quoted before it is emitted: empty words and
/// words holding anything outside the safe character set.
pub open spec fn spec_needs_quoting(t: Seq<char>) -> bool {
    t.len() == 0 || exists|i: int| 0 <= i < t.len() && !is_safe_char(t[i])
}

/// Escapes a word for a double-quoted span: `"` and `\` get a backslash.
pub open spec fn spec_escape_dq(t: Seq<char>) -> Seq<char>
    decreases t.len(),
{
    if t.len() == 0 {
        Seq::empty()
    } else {
        (if t[0] == '"' || t[0] == '\\' {
            seq!['\\', t[0]]
        } else {
            seq![t[0]]
        }) + spec_escape_dq(t.drop_first())
    }
}

/// A word as it is emitted: bare when safe, in single quotes unless it
/// holds a single quote, else in double quotes with escaping.
pub open spec fn spec_quote(t: Seq<char>) -> Seq<char> {
    if !spec_needs_quoting(t) {
        t
    } else if !t.contains('\'') {
        seq!['\''] + t + seq!['\'']
    } else {
        seq!['"'] + spec_escape_dq(t) + seq!['"']
    }
}

/// Words joined by single spaces, each quoted as needed; no newline.
pub open spec fn spec_join_words(ts: Seq<Seq<char>>) -> Seq<char>
    decreases ts.len(),
{
    if ts.len() == 0 {
        Seq::empty()
    } else if ts.len() == 1 {
        spec_quote(ts[0])
    } else {
        spec_quote(ts[0]) + seq![' '] + spec_join_words(ts.drop_first())
    }
}

/// A full wire line: the joined words followed by one newline.
pub open spec fn spec_join_line(ts: Seq<Seq<char>>) -> Seq<char> {
    spec_join_words(ts) + seq!['\n']
}

/// Splits a sentence line into words, after stripping trailing newlines.
/// Returns `None` when a quote is unbalanced.
pub fn split_sentence(line: &str) -> (r: Option<Vec<String>>)
    ensures
        match r {
            Some(v) => spec_split_words(spec_strip_newlines(line@)) == Some(v.deep_view()),
            None => spec_split_words(spec_strip_newlines(line@)) is None,
        },
{
    let n = line.unicode_len();
    let mut end: usize = n;
    proof {
        assert(line@.subrange(0, n as int) =~= line@);
    }
    while end > 0 && line.get_char(end - 1) == '\n'
        invariant
            end <= n,
            n == line@.len(),
            spec_strip_newlines(line@) == spec_strip_newlines(line@.subrange(0, end as int)),
        decreases end,
    {
        proof {
            assert(line@.subrange(0, end as int)[end as int - 1] == line@[end as int - 1]);
            assert(line@.subrange(0, end as int).drop_last() =~= line@.subrange(0, end as int - 1));
        }
        end = end - 1;
    }
    proof {
        if end > 0 {
            assert(line@.subrange(0, end as int)[end as int - 1] == line@[end as int - 1]);
        }
        assert(spec_strip_newlines(line@.subrange(0, end as int)) == line@.subrange(0, end as int));
    }
    let ghost s0 = line@.subrange(0, end as int);
    let mut done: Vec<String> = Vec::new();
    let mut cur: String = String::new();
    let mut mode = SplitMode::Between;
    let mut i: usize = 0;
    proof {
        assert(s0 == spec_strip_newlines(line@));
        assert(done.deep_view() =~= Seq::<Seq<char>>::empty());
        assert(line@.subrange(0, end as int) == s0);
    }
    while i < end
        invariant
            i <= end,
            end <= line@.len(),
            s0 == line@.subrange(0, end as int),
            s0 == spec_strip_newlines(line@),
            mode == SplitMode::Between ==> cur@ == Seq::<char>::empty(),
            spec_split_from(s0, SplitMode::Between, Seq::empty(), Seq::empty())
                == spec_split_from(
                line@.subrange(i as int, end as int),
                mode,
                cur@,
                done.deep_view(),
            ),
        decreases end - i,
    {
        let ghost suf = line@.subrange(i as int, end as int);
        proof {
            assert(suf.len() > 0);
            assert(suf[0] == line@[i as int]);
            assert(suf.drop_first() =~= line@.subrange(i as int + 1, end as int));
        }
        let c = line.get_char(i);
        match mode {
            SplitMode::Between => {
                if space_char(c) {
                    i = i + 1;
                } else if c == '\'' {
                    mode = SplitMode::Single;
                    i = i + 1;
                } else if c == '"' {
                    mode = SplitMode::Double;
                    i = i + 1;
                } else {
                    push_char(&mut cur, c);
                    proof {
                        assert(cur@ =~= seq![c]);
                    }
                    mode = SplitMode::InWord;
                    i = i + 1;
                }
            },
            SplitMode::InWord => {
                if space_char(c) {
                    let ghost old_done = done.deep_view();
                    let ghost cur_view = cur@;
                    done.push(cur);
                    cur = String::new();
                    proof {
                        assert(done.deep_view() =~= old_done.push(cur_view));
                    }
                    mode = SplitMode::Between;
                    i = i + 1;
                } else if c == '\'' {
                    mode = SplitMode::Single;
                    i = i + 1;
                } else if c == '"' {
                    mode = SplitMode::Double;
                    i = i + 1;
                } else {
                    push_char(&mut cur, c);
                    i = i + 1;
                }
            },
            SplitMode::Single => {
                if c == '\'' {
                    mode = SplitMode::InWord;
                    i = i + 1;
                } else {
                    push_char(&mut cur, c);
                    i = i + 1;
                }
            },
            SplitMode::Double => {
                if c == '"' {
                    mode = SplitMode::InWord;
                    i = i + 1;
                } else if c == '\\' {
                    if i + 1 == end {
                        return None;
                    }
                    proof {
                        assert(suf[1] == line@[i as int + 1]);
                        assert(suf.drop_first().drop_first() =~= line@.subrange(
                            i as int + 2,
                            end as int,
                        ));
                    }
                    let c2 = line.get_char(i + 1);
                    push_char(&mut cur, c2);
                    i = i + 2;
                } else {
                    push_char(&mut cur, c);
                    i = i + 1;
                }
            },
        }
    }
    proof {
        assert(line@.subrange(i as int, end as int) =~= Seq::<char>::empty());
    }
    match mode {
        SplitMode::Between => Some(done),
        SplitMode::InWord => {
            let ghost old_done = done.deep_view();
            let ghost cur_view = cur@;
            done.push(cur);
            proof {
                assert(done.deep_view() =~= old_done.push(cur_view));
            }
            Some(done)
        },
        SplitMode::Single => None,
        SplitMode::Double => None,
    }
}

/// Emits one word, quoted as [`spec_quote`] says.
fn quote_word(t: &str) -> (r: String)
    ensures
        r@ == spec_quote(t@),
{
    let n = t.unicode_len();
    let mut needs: bool = n == 0;
    let mut has_single: bool = false;
    let mut i: usize = 0;
    while i < n
        invariant
            i <= n,
            n == t@.len(),
            needs == (n == 0 || exists|j: int| 0 <= j < i && !is_safe_char(t@[j])),
            has_single == (exists|j: int| 0 <= j < i && t@[j] == '\''),
        decreases n - i,
    {
        let c = t.get_char(i);
        if !safe_char(c) {
            needs = true;
        }
        if c == '\'' {
            has_single = true;
        }
        i = i + 1;
    }
    if !needs {
        proof {
            assert(!spec_needs_quoting(t@));
        }
        return t.to_owned();
    }
    proof {
        assert(spec_needs_quoting(t@));
        assert(has_single == t@.contains('\'')) by {
            if t@.contains('\'') {
                let k = choose|k: int| 0 <= k < t@.len() && t@[k] == '\'';
                assert(0 <= k < n && t@[k] == '\'');
            }
        }
    }
    if !has_single {
        let mut r = String::new();
        push_char(&mut r, '\'');
        let mut i: usize = 0;
        while i < n
            invariant
                i <= n,
                n == t@.len(),
                r@ == seq!['\''] + t@.subrange(0, i as int),
            decreases n - i,
        {
            let c = t.get_char(i);
            push_char(&mut r, c);
            proof {
                assert(r@ =~= seq!['\''] + t@.subrange(0, i as int + 1));
            }
            i = i + 1;
        }
        push_char(&mut r, '\'');
        proof {
            assert(t@.subrange(0, n as int) =~= t@);
            assert(r@ =~= seq!['\''] + t@ + seq!['\'']);
        }
        r
    } else {
        let mut r = String::new();
        push_char(&mut r, '"');
        let mut i: usize = 0;
        while i < n
            invariant
                i <= n,
                n == t@.len(),
                r@ == seq!['"'] + spec_escape_dq(t@.subrange(0, i as int)),
            decreases n - i,
        {
            let c = t.get_char(i);
            proof {
                lemma_escape_dq_snoc(t@.subrange(0, i as int), c);
                assert(t@.subrange(0, i as int).push(c) =~= t@.subrange(0, i as int + 1));
            }
            if c == '"' || c == '\\' {
                push_char(&mut r, '\\');
                push_char(&mut r, c);
                proof {
                    assert(r@ =~= seq!['"'] + spec_escape_dq(t@.subrange(0, i as int + 1)));
                }
            } else {
                push_char(&mut r, c);
                proof {
                    assert(r@ =~= seq!['"'] + spec_escape_dq(t@.subrange(0, i as int + 1)));
                }
            }
            i = i + 1;
        }
        push_char(&mut r, '"');
        proof {
            assert(t@.subrange(0, n as int) =~= t@);
            assert(r@ =~= seq!['"'] + spec_escape_dq(t@) + seq!['"']);
        }
        r
    }
}

/// Escaping distributes over appending one character.
proof fn lemma_escape_dq_snoc(t: Seq<char>, c: char)
    ensures
        spec_escape_dq(t.push(c)) == spec_escape_dq(t) + (if c == '"' || c == '\\' {
            seq!['\\', c]
        } else {
            seq![c]
        }),
    decreases t.len(),
{
    let e1: Seq<char> = if c == '"' || c == '\\' {
        seq!['\\', c]
    } else {
        seq![c]
    };
    if t.len() == 0 {
        assert(t.push(c) =~= seq![c]);
        assert(t.push(c)[0] == c);
        assert(t.push(c).drop_first() =~= Seq::<char>::empty());
        assert(spec_escape_dq(Seq::<char>::empty()) == Seq::<char>::empty());
        assert(spec_escape_dq(t.push(c)) =~= e1 + Seq::<char>::empty());
        assert(e1 + Seq::<char>::empty() =~= e1);
        assert(spec_escape_dq(t) + e1 =~= e1);
    } else {
        assert(t.push(c).drop_first() =~= t.drop_first().push(c));
        lemma_escape_dq_snoc(t.drop_first(), c);
        assert(spec_escape_dq(t.push(c)) =~= spec_escape_dq(t) + e1);
    }
}

/// Joining distributes over appending one word.
proof fn lemma_join_words_snoc(ts: Seq<Seq<char>>, t: Seq<char>)
    ensures
        spec_join_words(ts.push(t)) == if ts.len() == 0 {
            spec_quote(t)
        } else {
            spec_join_words(ts) + seq![' '] + spec_quote(t)
        },
    decreases ts.len(),
{
    if ts.len() == 0 {
        assert(ts.push(t) =~= seq![t]);
        assert(spec_join_words(ts.push(t)) =~= spec_quote(t));
    } else if ts.len() == 1 {
        assert(ts.push(t).drop_first() =~= seq![t]);
        assert(ts.push(t)[0] == ts[0]);
        assert(seq![t][0] == t);
        assert(spec_join_words(seq![t]) == spec_quote(t));
        assert(spec_join_words(ts.push(t)) =~= spec_quote(ts[0]) + seq![' '] + spec_quote(t));
    } else {
        assert(ts.push(t).drop_first() =~= ts.drop_first().push(t));
        lemma_join_words_snoc(ts.drop_first(), t);
        assert(spec_join_words(ts.push(t)) =~= spec_join_words(ts) + seq![' '] + spec_quote(t));
    }
}

/// Joins words into one sentence without the terminating newline.
pub fn join_words(words: &Vec<String>) -> (r: String)
    ensures
        r@ == spec_join_words(words.deep_view()),
{
    let mut r = String::new();
    let mut i: usize = 0;
    proof {
        assert(words.deep_view().subrange(0, 0) =~= Seq::<Seq<char>>::empty());
    }
    while i < words.len()
        invariant
            i <= words@.len(),
            words.deep_view().len() == words@.len(),
            r@ == spec_join_words(words.deep_view().subrange(0, i as int)),
        decreases words@.len() - i,
    {
        let q = quote_word(words[i].as_str());
        proof {
            assert(words.deep_view()[i as int] == words@[i as int]@);
            lemma_join_words_snoc(words.deep_view().subrange(0, i as int), words@[i as int]@);
            assert(words.deep_view().subrange(0, i as int).push(words@[i as int]@)
                =~= words.deep_view().subrange(0, i as int + 1));
        }
        if i > 0 {
            push_char(&mut r, ' ');
        }
        r.append(q.as_str());
        proof {
            assert(r@ =~= spec_join_words(words.deep_view().subrange(0, i as int + 1)));
        }
        i = i + 1;
    }
    proof {
        assert(words.deep_view().subrange(0, words@.len() as int) =~= words.deep_view());
    }
    r
}

/// Joins words into one full wire line, terminated by a newline.
pub fn join_sentence(words: &Vec<String>) -> (r: String)
    ensures
        r@ == spec_join_line(words.deep_view()),
{
    let mut r = join_words(words);
    push_char(&mut r, '\n');
    proof {
        assert(r@ =~= spec_join_line(words.deep_view()));
    }
    r
}

/// Reading a run of plain characters accumulates them into the word.
proof fn lemma_split_plain(t: Seq<char>, tail: Seq<char>, cur: Seq<char>, done: Seq<Seq<char>>)
    requires
        forall|i: int| 0 <= i < t.len() ==> is_plain_char(#[trigger] t[i]),
    ensures
        spec_split_from(t + tail, SplitMode::InWord, cur, done) == spec_split_from(
            tail,
            SplitMode::InWord,
            cur + t,
            done,
        ),
    decreases t.len(),
{
    if t.len() == 0 {
        assert(t + tail =~= tail);
        assert(cur + t =~= cur);
    } else {
        let s = t + tail;
        assert(s[0] == t[0]);
        assert(s.len() > 0);
        assert(is_plain_char(t[0]));
        assert(s.drop_first() =~= t.drop_first() + tail);
        lemma_split_plain(t.drop_first(), tail, cur.push(t[0]), done);
        assert(cur.push(t[0]) + t.drop_first() =~= cur + t);
    }
}

/// Reading a single-quoted span accumulates it and returns to the word.
proof fn lemma_split_single(t: Seq<char>, tail: Seq<char>, cur: Seq<char>, done: Seq<Seq<char>>)
    requires
        !t.contains('\''),
    ensures
        spec_split_from(t + (seq!['\''] + tail), SplitMode::Single, cur, done) == spec_split_from(
            tail,
            SplitMode::InWord,
            cur + t,
            done,
        ),
    decreases t.len(),
{
    if t.len() == 0 {
        let s = t + (seq!['\''] + tail);
        assert(s =~= seq!['\''] + tail);
        assert(s[0] == '\'');
        assert(s.drop_first() =~= tail);
        assert(cur + t =~= cur);
    } else {
        let s = t + (seq!['\''] + tail);
        assert(s[0] == t[0]);
        assert(t[0] != '\'') by {
            assert(t.contains(t[0]));
        }
        assert(s.drop_first() =~= t.drop_first() + (seq!['\''] + tail));
        assert(!t.drop_first().contains('\'')) by {
            if t.drop_first().contains('\'') {
                let k = choose|k: int| 0 <= k < t.drop_first().len() && t.drop_first()[k] == '\'';
                assert(t[k + 1] == '\'');
                assert(t.contains('\''));
            }
        }
        lemma_split_single(t.drop_first(), tail, cur.push(t[0]), done);
        assert(cur.push(t[0]) + t.drop_first() =~= cur + t);
    }
}

/// Reading a double-quoted escaped span accumulates the original word and
/// returns to the word.
proof fn lemma_split_double(t: Seq<char>, tail: Seq<char>, cur: Seq<char>, done: Seq<Seq<char>>)
    ensures
        spec_split_from(spec_escape_dq(t) + (seq!['"'] + tail), SplitMode::Double, cur, done)
            == spec_split_from(tail, SplitMode::InWord, cur + t, done),
    decreases t.len(),
{
    if t.len() == 0 {
        let s = spec_escape_dq(t) + (seq!['"'] + tail);
        assert(s =~= seq!['"'] + tail);
        assert(s[0] == '"');
        assert(s.drop_first() =~= tail);
        assert(cur + t =~= cur);
    } else {
        let c = t[0];
        let e = spec_escape_dq(t);
        let s = e + (seq!['"'] + tail);
        if c == '"' || c == '\\' {
            assert(e =~= seq!['\\', c] + spec_escape_dq(t.drop_first()));
            assert(s[0] == '\\');
            assert(s[1] == c);
            assert(s.len() >= 2 + tail.len() + 1);
            assert(s.drop_first().drop_first() =~= spec_escape_dq(t.drop_first()) + (seq!['"']
                + tail));
            lemma_split_double(t.drop_first(), tail, cur.push(c), done);
            assert(cur.push(c) + t.drop_first() =~= cur + t);
        } else {
            assert(e =~= seq![c] + spec_escape_dq(t.drop_first()));
            assert(s[0] == c);
            assert(s.drop_first() =~= spec_escape_dq(t.drop_first()) + (seq!['"'] + tail));
            lemma_split_double(t.drop_first(), tail, cur.push(c), done);
            assert(cur.push(c) + t.drop_first() =~= cur + t);
        }
    }
}

/// Reading one quoted word from between words collects exactly that word.
proof fn lemma_split_quoted(t: Seq<char>, tail: Seq<char>, done: Seq<Seq<char>>)
    ensures
        spec_split_from(spec_quote(t) + tail, SplitMode::Between, Seq::empty(), done)
            == spec_split_from(tail, SplitMode::InWord, t, done),
{
    if !spec_needs_quoting(t) {
        assert(t.len() > 0);
        assert(forall|i: int| 0 <= i < t.len() ==> is_plain_char(#[trigger] t[i])) by {
            assert forall|i: int| 0 <= i < t.len() implies is_plain_char(#[trigger] t[i]) by {
                assert(is_safe_char(t[i]));
                crate::text::lemma_safe_char_plain(t[i]);
            }
        }
        let s = t + tail;
        assert(s[0] == t[0]);
        assert(is_plain_char(t[0]));
        assert(s.drop_first() =~= t.drop_first() + tail);
        lemma_split_plain(t.drop_first(), tail, seq![t[0]], done);
        assert(seq![t[0]] + t.drop_first() =~= t);
    } else if !t.contains('\'') {
        let s = spec_quote(t) + tail;
        assert(s =~= seq!['\''] + (t + (seq!['\''] + tail)));
        assert(s[0] == '\'');
        assert(s.drop_first() =~= t + (seq!['\''] + tail));
        lemma_split_single(t, tail, Seq::empty(), done);
        assert(Seq::empty() + t =~= t);
    } else {
        let s = spec_quote(t) + tail;
        assert(s =~= seq!['"'] + (spec_escape_dq(t) + (seq!['"'] + tail)));
        assert(s[0] == '"');
        assert(s.drop_first() =~= spec_escape_dq(t) + (seq!['"'] + tail));
        lemma_split_double(t, tail, Seq::empty(), done);
        assert(Seq::empty() + t =~= t);
    }
}

/// Splitting a joined word list, starting with any words already done,
/// appends exactly the list.
proof fn lemma_split_join_from(ts: Seq<Seq<char>>, done: Seq<Seq<char>>)
    ensures
        spec_split_from(spec_join_words(ts), SplitMode::Between, Seq::empty(), done) == Some(
            done + ts,
        ),
    decreases ts.len(),
{
    if ts.len() == 0 {
        assert(done + ts =~= done);
    } else if ts.len() == 1 {
        assert(spec_join_words(ts) =~= spec_quote(ts[0]) + Seq::<char>::empty());
        lemma_split_quoted(ts[0], Seq::empty(), done);
        assert(done.push(ts[0]) =~= done + ts);
    } else {
        let tail = seq![' '] + spec_join_words(ts.drop_first());
        assert(spec_join_words(ts) =~= spec_quote(ts[0]) + tail);
        lemma_split_quoted(ts[0], tail, done);
        assert(tail[0] == ' ');
        assert(is_space_char(' '));
        assert(tail.drop_first() =~= spec_join_words(ts.drop_first()));
        lemma_split_join_from(ts.drop_first(), done.push(ts[0]));
        assert(done.push(ts[0]) + ts.drop_first() =~= done + ts);
    }
}

/// Tokenizer round-trip: for every list of words, none of which holds a
/// newline, splitting the joined line yields the original list again.
pub proof fn lemma_split_join_roundtrip(ts: Seq<Seq<char>>)
    requires
        forall|i: int| 0 <= i < ts.len() ==> !#[trigger] ts[i].contains('\n'),
    ensures
        spec_split_words(spec_join_words(ts)) == Some(ts),
{
    lemma_split_join_from(ts, Seq::empty());
    assert(Seq::empty() + ts =~= ts);
}

} // verus!
