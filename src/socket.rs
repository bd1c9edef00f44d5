//! The framing of requests and replies on the window manager's socket.
use vstd::prelude::*;
use vstd::string::*;

use crate::errors::ReplyError;
use crate::text::{chars_of, pieces, spans_within, split, split_spans};

verus! {

/// The byte that opens a reply by which the window manager refuses a request.
pub const BELL: char = '\u{7}';

/// Where the socket is when the environment names none.
pub const DEFAULT_SOCKET_PATH: &'static str = "/tmp/bspwm_0_0-socket";

/// The text of a request: each token followed by a NUL.
pub open spec fn request_text(tokens: Seq<Seq<char>>) -> Seq<char>
    decreases tokens.len(),
{
    if tokens.len() == 0 {
        Seq::empty()
    } else {
        request_text(tokens.drop_last()) + tokens.last() + seq!['\0']
    }
}

/// The views of a list of strings.
pub open spec fn texts(v: Seq<String>) -> Seq<Seq<char>> {
    Seq::new(v.len(), |i: int| v[i]@)
}

/// The lines of a text as `BufRead::lines` gives them: the pieces between
/// line feeds, but for an empty piece after the last line feed.
pub open spec fn lines(s: Seq<char>) -> Seq<Seq<char>> {
    let p = split(s, '\n', '\n');
    if p.last().len() == 0 {
        p.drop_last()
    } else {
        p
    }
}

/// What a reply says: nothing at all, a refusal with its message, or lines
/// of data.
pub enum Reply {
    Empty,
    Refused(Seq<char>),
    Data(Seq<Seq<char>>),
}

/// How a raw reply reads: no line is `Empty`; a first line that opens with
/// the bell is `Refused` with the rest of that line; else all lines are data.
pub open spec fn reply_of(raw: Seq<char>) -> Reply {
    let ls = lines(raw);
    if ls.len() == 0 {
        Reply::Empty
    } else if ls[0].len() > 0 && ls[0][0] == BELL {
        Reply::Refused(ls[0].drop_first())
    } else {
        Reply::Data(ls)
    }
}

/// Whether `r` is what a reply `m` gives when it is not data: `NoReply` for
/// an empty one, `RequestFailed` with the message for a refusal.
pub open spec fn refusal_matches<T>(m: Reply, r: Result<T, ReplyError>) -> bool {
    match m {
        Reply::Empty => r matches Err(ReplyError::NoReply),
        Reply::Refused(msg) => match r {
            Err(ReplyError::RequestFailed(x)) => x@ == msg,
            _ => false,
        },
        Reply::Data(_) => false,
    }
}

/// The socket to connect to: the one that the environment names, else the
/// default one.
pub fn socket_path(from_environment: Option<String>) -> (r: String)
    ensures
        r@ == match from_environment {
            Some(p) => p@,
            None => DEFAULT_SOCKET_PATH@,
        },
{
    match from_environment {
        Some(p) => p,
        None => DEFAULT_SOCKET_PATH.to_owned(),
    }
}

/// Frames a request: each token followed by a NUL.
pub fn encode_request(tokens: &Vec<String>) -> (r: String)
    ensures
        r@ == request_text(texts(tokens@)),
{
    let mut r = String::new();
    let nul = "\0";
    proof {
        reveal_strlit("\0");
    }
    let mut i: usize = 0;
    while i < tokens.len()
        invariant
            i <= tokens.len(),
            nul@ == seq!['\0'],
            r@ == request_text(texts(tokens@).take(i as int)),
        decreases tokens.len() - i,
    {
        r.append(tokens[i].as_str());
        r.append(nul);
        proof {
            let t = texts(tokens@);
            assert(t.take(i + 1).drop_last() =~= t.take(i as int));
        }
        i += 1;
    }
    proof {
        assert(texts(tokens@).take(i as int) =~= texts(tokens@));
    }
    r
}

/// Decodes a raw reply: its lines of data, or the refusal or absence of a
/// reply as an error.
pub fn decode_reply(raw: &str) -> (r: Result<Vec<String>, ReplyError>)
    ensures
        match reply_of(raw@) {
            Reply::Data(ls) => match r {
                Ok(v) => texts(v@) == ls,
                Err(_) => false,
            },
            m => refusal_matches(m, r),
        },
{
    let cs = chars_of(raw);
    proof {
        assert(cs@.subrange(0, cs@.len() as int) =~= raw@);
        crate::text::lemma_split_not_empty(raw@, '\n', '\n');
    }
    let spans = split_spans(&cs, 0, cs.len(), '\n', '\n');
    let ghost p = pieces(cs@, spans@);
    let last = spans[spans.len() - 1];
    let n: usize = if last.0 == last.1 {
        spans.len() - 1
    } else {
        spans.len()
    };
    let ghost ls = lines(raw@);
    assert(ls =~= p.take(n as int));
    if n == 0 {
        return Err(ReplyError::NoReply);
    }
    let first = spans[0];
    assert(ls[0] == cs@.subrange(first.0 as int, first.1 as int));
    if first.0 < first.1 && cs[first.0] == BELL {
        let message = raw.substring_char(first.0 + 1, first.1).to_owned();
        assert(message@ =~= ls[0].drop_first());
        return Err(ReplyError::RequestFailed(message));
    }
    let mut out: Vec<String> = Vec::new();
    let mut i: usize = 0;
    while i < n
        invariant
            n <= spans.len(),
            cs@ == raw@,
            spans_within(cs@, spans@, 0, cs@.len() as int),
            p == pieces(cs@, spans@),
            i <= n,
            texts(out@) == p.take(i as int),
        decreases n - i,
    {
        let (lo, hi) = spans[i];
        let line = raw.substring_char(lo, hi).to_owned();
        let ghost before = out@;
        assert(line@ == p[i as int]);
        out.push(line);
        proof {
            assert(texts(out@) =~= texts(before).push(line@));
            assert(p.take(i + 1) =~= p.take(i as int).push(p[i as int]));
        }
        i += 1;
    }
    Ok(out)
}

} // verus!
