//! Event records cut into tokens, and what every kind of record shares: the
//! leading tag and the least number of fields that follow it.
use vstd::prelude::*;
use vstd::string::*;

use crate::errors::ParseError;
use crate::events::{DesktopEvent, Event, MonitorEvent, NodeEvent, PointerActionInfo};
use crate::numbers::{id_at, id_of};
use crate::properties::Rectangle;
use crate::Id;
use crate::text::{chars_of, pieces, span_is, spans_within, split, split_spans, trim, trimmed_bounds};

verus! {

/// The tokens of a record: the record without whitespace at either end,
/// cut at every single space.
pub open spec fn tokens(s: Seq<char>) -> Seq<Seq<char>> {
    split(trim(s), ' ', ' ')
}

/// What is wrong with the head of a record of kind `tag` that has `n`
/// fields: another tag (`InvalidEvent`), or fewer than `n + 1` tokens
/// (`InsufficientData`).
pub open spec fn header_error(t: Seq<Seq<char>>, tag: Seq<char>, n: int) -> Option<ParseError> {
    if t[0] != tag {
        Some(ParseError::InvalidEvent)
    } else if t.len() < n + 1 {
        Some(ParseError::InsufficientData)
    } else {
        None
    }
}

/// A record cut into tokens, each kept as a span of the record's characters.
pub struct Tokens<'a> {
    pub text: &'a str,
    pub chars: Vec<char>,
    pub spans: Vec<(usize, usize)>,
}

impl<'a> Tokens<'a> {
    pub open spec fn view(&self) -> Seq<Seq<char>> {
        pieces(self.chars@, self.spans@)
    }

    pub open spec fn wf(&self) -> bool {
        &&& self.chars@ == self.text@
        &&& spans_within(self.chars@, self.spans@, 0, self.chars@.len() as int)
        &&& self.spans@.len() >= 1
    }

    /// Cuts a record into its tokens.
    pub fn of(text: &'a str) -> (r: Tokens<'a>)
        ensures
            r.wf(),
            r.text == text,
            r@ == tokens(text@),
    {
        let chars = chars_of(text);
        let (lo, hi) = trimmed_bounds(&chars);
        let spans = split_spans(&chars, lo, hi, ' ', ' ');
        proof {
            crate::text::lemma_split_not_empty(chars@.subrange(lo as int, hi as int), ' ', ' ');
        }
        Tokens { text, chars, spans }
    }

    /// The number of tokens.
    pub fn len(&self) -> (r: usize)
        requires
            self.wf(),
        ensures
            r == self@.len(),
            r >= 1,
    {
        self.spans.len()
    }

    /// Where token `i` lies in `chars`.
    pub fn span(&self, i: usize) -> (r: (usize, usize))
        requires
            self.wf(),
            i < self@.len(),
        ensures
            r.0 <= r.1 <= self.chars@.len(),
            self.chars@.subrange(r.0 as int, r.1 as int) == self@[i as int],
    {
        self.spans[i]
    }

    /// Whether token `i` is the text `lit`.
    pub fn is(&self, i: usize, lit: &str) -> (r: bool)
        requires
            self.wf(),
            i < self@.len(),
        ensures
            r == (self@[i as int] == lit@),
    {
        let (lo, hi) = self.span(i);
        span_is(&self.chars, lo, hi, lit)
    }

    /// Checks the head of a record of kind `tag` with `n` fields.
    pub fn expect(&self, tag: &str, n: usize) -> (r: Result<(), ParseError>)
        requires
            self.wf(),
        ensures
            r == match header_error(self@, tag@, n as int) {
                Some(e) => Err(e),
                None => Ok(()),
            },
    {
        if !self.is(0, tag) {
            Err(ParseError::InvalidEvent)
        } else if self.len() < n || self.len() - n < 1 {
            Err(ParseError::InsufficientData)
        } else {
            Ok(())
        }
    }

    /// Token `i` read as an identifier.
    pub fn id(&self, i: usize) -> (r: Result<u32, ParseError>)
        requires
            self.wf(),
            i < self@.len(),
        ensures
            r == match id_of(self@[i as int]) {
                Some(v) => Ok(v),
                None => Err(ParseError::ConversionFailed),
            },
    {
        let (lo, hi) = self.span(i);
        match id_at(&self.chars, lo, hi) {
            Some(v) => Ok(v),
            None => Err(ParseError::ConversionFailed),
        }
    }

    /// Token `i` read as a geometry.
    pub fn rectangle(&self, i: usize) -> (r: Result<Rectangle, ParseError>)
        requires
            self.wf(),
            i < self@.len(),
        ensures
            r == Rectangle::spec_from_text(self@[i as int]),
    {
        let (lo, hi) = self.span(i);
        Rectangle::from_chars(&self.chars, lo, hi)
    }

    /// Token `i` as it stands.
    pub fn text_at(&self, i: usize) -> (r: String)
        requires
            self.wf(),
            i < self@.len(),
        ensures
            r@ == self@[i as int],
    {
        let (lo, hi) = self.span(i);
        self.text.substring_char(lo, hi).to_owned()
    }
}

/// Whether `tag` is the tag of an event that the decoders know.
pub open spec fn known_tag(tag: Seq<char>) -> bool {
    ||| NodeEvent::has_tag(tag)
    ||| DesktopEvent::has_tag(tag)
    ||| MonitorEvent::has_tag(tag)
    ||| tag == "pointer_action"@
}

impl Event {
    /// What the tokens `t` of a record decode to. The tag picks the category
    /// (node, desktop, monitor, pointer action: no tag is in two of them) and
    /// the kind; an unknown tag is `ConversionFailed`.
    pub open spec fn read_from(t: Seq<Seq<char>>, r: Result<Event, ParseError>) -> bool {
        if NodeEvent::has_tag(t[0]) {
            match r {
                Ok(Event::NodeEvent(x)) => NodeEvent::read_from(t, Ok(x)),
                Ok(_) => false,
                Err(e) => NodeEvent::read_from(t, Err(e)),
            }
        } else if DesktopEvent::has_tag(t[0]) {
            match r {
                Ok(Event::DesktopEvent(x)) => DesktopEvent::read_from(t, Ok(x)),
                Ok(_) => false,
                Err(e) => DesktopEvent::read_from(t, Err(e)),
            }
        } else if MonitorEvent::has_tag(t[0]) {
            match r {
                Ok(Event::MonitorEvent(x)) => MonitorEvent::read_from(t, Ok(x)),
                Ok(_) => false,
                Err(e) => MonitorEvent::read_from(t, Err(e)),
            }
        } else if t[0] == "pointer_action"@ {
            match r {
                Ok(Event::PointerAction(x)) => PointerActionInfo::read_from(t, Ok(x)),
                Ok(_) => false,
                Err(e) => PointerActionInfo::read_from(t, Err(e)),
            }
        } else {
            r == Err::<Event, ParseError>(ParseError::ConversionFailed)
        }
    }

    pub(crate) fn from_tokens(t: &Tokens) -> (r: Result<Event, ParseError>)
        requires
            t.wf(),
        ensures
            Event::read_from(t@, r),
    {
        if NodeEvent::is_tag(t) {
            match NodeEvent::from_tokens(t) {
                Ok(x) => Ok(Event::NodeEvent(x)),
                Err(e) => Err(e),
            }
        } else if DesktopEvent::is_tag(t) {
            match DesktopEvent::from_tokens(t) {
                Ok(x) => Ok(Event::DesktopEvent(x)),
                Err(e) => Err(e),
            }
        } else if MonitorEvent::is_tag(t) {
            match MonitorEvent::from_tokens(t) {
                Ok(x) => Ok(Event::MonitorEvent(x)),
                Err(e) => Err(e),
            }
        } else if t.is(0, "pointer_action") {
            match PointerActionInfo::from_tokens(t) {
                Ok(x) => Ok(Event::PointerAction(x)),
                Err(e) => Err(e),
            }
        } else {
            Err(ParseError::ConversionFailed)
        }
    }

    /// Decodes one event record.
    pub fn parse(input: &str) -> (r: Result<Event, ParseError>)
        ensures
            Event::read_from(tokens(input@), r),
    {
        let t = Tokens::of(input);
        Event::from_tokens(&t)
    }
}

impl std::str::FromStr for Event {
    type Err = ParseError;

    fn from_str(input: &str) -> Result<Event, ParseError> {
        Event::parse(input)
    }
}

/// Reads an identifier: an optional `0x`, then hexadecimal digits.
pub fn from_hex_to_id(input: &str) -> (r: Result<Id, ParseError>)
    ensures
        r == match id_of(input@) {
            Some(v) => Ok(v),
            None => Err(ParseError::ConversionFailed),
        },
{
    let cs = chars_of(input);
    proof {
        assert(cs@.subrange(0, cs@.len() as int) =~= input@);
    }
    match id_at(&cs, 0, cs.len()) {
        Some(v) => Ok(v),
        None => Err(ParseError::ConversionFailed),
    }
}

} // verus!
