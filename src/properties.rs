//! The small value types that protocol records carry, and how each is
//! read from a token.
use vstd::prelude::*;

use crate::errors::ParseError;
use crate::numbers::{int_at, int_of, int_text, lemma_int_round_trip, lemma_int_text_chars};
use crate::parser::{tokens, Tokens};
use crate::text::{chars_of, lemma_plain_concat, lemma_split_concat, lemma_split_none, plain, span_is, split, split_spans, pieces, spans_within};

verus! {

/// An axis-aligned rectangle, written `<width>x<height>+<x>+<y>`.
#[derive(Debug, Clone, Copy, PartialEq, Eq, Structural)]
pub struct Rectangle {
    pub x: i32,
    pub y: i32,
    pub width: i32,
    pub height: i32,
}

impl Rectangle {
    /// What a geometry token stands for: the token cut at every `+` and `x`
    /// must give at least four parts (else `InsufficientData`), and the first
    /// four must be decimal `i32`s: width, height, x and y (else
    /// `ConversionFailed`).
    pub open spec fn spec_from_text(tok: Seq<char>) -> Result<Rectangle, ParseError> {
        let p = split(tok, '+', 'x');
        if p.len() < 4 {
            Err(ParseError::InsufficientData)
        } else {
            match (int_of(p[0]), int_of(p[1]), int_of(p[2]), int_of(p[3])) {
                (Some(width), Some(height), Some(x), Some(y)) => Ok(
                    Rectangle { x, y, width, height },
                ),
                _ => Err(ParseError::ConversionFailed),
            }
        }
    }

    /// How the window manager writes a rectangle whose x and y are not
    /// negative.
    pub open spec fn spec_text(self) -> Seq<char> {
        int_text(self.width as int) + seq!['x'] + int_text(self.height as int) + seq!['+']
            + int_text(self.x as int) + seq!['+'] + int_text(self.y as int)
    }

    /// Reads the geometry token `cs[lo..hi]`.
    pub fn from_chars(cs: &Vec<char>, lo: usize, hi: usize) -> (r: Result<Rectangle, ParseError>)
        requires
            lo <= hi <= cs.len(),
        ensures
            r == Rectangle::spec_from_text(cs@.subrange(lo as int, hi as int)),
    {
        let parts = split_spans(cs, lo, hi, '+', 'x');
        if parts.len() < 4 {
            return Err(ParseError::InsufficientData);
        }
        proof {
            assert(pieces(cs@, parts@)[0] == cs@.subrange(parts@[0].0 as int, parts@[0].1 as int));
            assert(pieces(cs@, parts@)[1] == cs@.subrange(parts@[1].0 as int, parts@[1].1 as int));
            assert(pieces(cs@, parts@)[2] == cs@.subrange(parts@[2].0 as int, parts@[2].1 as int));
            assert(pieces(cs@, parts@)[3] == cs@.subrange(parts@[3].0 as int, parts@[3].1 as int));
        }
        let width = int_at(cs, parts[0].0, parts[0].1);
        let height = int_at(cs, parts[1].0, parts[1].1);
        let x = int_at(cs, parts[2].0, parts[2].1);
        let y = int_at(cs, parts[3].0, parts[3].1);
        match (width, height, x, y) {
            (Some(width), Some(height), Some(x), Some(y)) => Ok(Rectangle { x, y, width, height }),
            _ => Err(ParseError::ConversionFailed),
        }
    }

    /// Reads a whole geometry text.
    pub fn parse(s: &str) -> (r: Result<Rectangle, ParseError>)
        ensures
            r == Rectangle::spec_from_text(s@),
    {
        let cs = chars_of(s);
        proof {
            assert(cs@.subrange(0, cs@.len() as int) =~= s@);
        }
        Rectangle::from_chars(&cs, 0, cs.len())
    }

    /// Every rectangle reads back from its text, which is a plain token.
    pub proof fn lemma_text_round_trip(self)
        ensures
            Rectangle::spec_from_text(self.spec_text()) == Ok::<Rectangle, ParseError>(self),
            plain(self.spec_text()),
    {
        let w = int_text(self.width as int);
        let h = int_text(self.height as int);
        let x = int_text(self.x as int);
        let y = int_text(self.y as int);
        lemma_int_text_chars(self.width as int);
        lemma_int_text_chars(self.height as int);
        lemma_int_text_chars(self.x as int);
        lemma_int_text_chars(self.y as int);
        lemma_int_round_trip(self.width);
        lemma_int_round_trip(self.height);
        lemma_int_round_trip(self.x);
        lemma_int_round_trip(self.y);
        lemma_split_none(w, '+', 'x');
        lemma_split_none(h, '+', 'x');
        lemma_split_none(x, '+', 'x');
        lemma_split_none(y, '+', 'x');
        let s1 = w + seq!['x'] + h;
        let s2 = s1 + seq!['+'] + x;
        let s3 = s2 + seq!['+'] + y;
        lemma_split_concat(w, 'x', h, '+', 'x');
        lemma_split_concat(s1, '+', x, '+', 'x');
        lemma_split_concat(s2, '+', y, '+', 'x');
        assert(split(s3, '+', 'x') =~= seq![w, h, x, y]);
        lemma_plain_concat(w, 'x', h);
        lemma_plain_concat(s1, '+', x);
        lemma_plain_concat(s2, '+', y);
    }
}

impl std::str::FromStr for Rectangle {
    type Err = ParseError;

    fn from_str(s: &str) -> Result<Rectangle, ParseError> {
        Rectangle::parse(s)
    }
}

/// How a desktop arranges its windows.
#[derive(Debug, Clone, Copy, PartialEq, Eq, Structural)]
pub enum Layout {
    Tiled,
    Monocle,
}

impl Layout {
    /// How the protocol writes this value.
    pub open spec fn spec_text(self) -> Seq<char> {
        match self {
            Layout::Tiled => "tiled"@,
            Layout::Monocle => "monocle"@,
        }
    }

    /// The value that a token names, if any.
    pub open spec fn spec_from_text(tok: Seq<char>) -> Option<Layout> {
        if tok == "tiled"@ {
            Some(Layout::Tiled)
        } else if tok == "monocle"@ {
            Some(Layout::Monocle)
        } else {
            None
        }
    }

    /// How the protocol writes this value.
    pub fn as_str(&self) -> (r: &'static str)
        ensures
            r@ == self.spec_text(),
    {
        match self {
            Layout::Tiled => "tiled",
            Layout::Monocle => "monocle",
        }
    }

    /// Reads the token `cs[lo..hi]`.
    pub fn from_chars(cs: &Vec<char>, lo: usize, hi: usize) -> (r: Option<Layout>)
        requires
            lo <= hi <= cs.len(),
        ensures
            r == Layout::spec_from_text(cs@.subrange(lo as int, hi as int)),
    {
        if span_is(cs, lo, hi, "tiled") {
            Some(Layout::Tiled)
        } else if span_is(cs, lo, hi, "monocle") {
            Some(Layout::Monocle)
        } else {
            None
        }
    }

    /// Reads a whole text as a value; any other text is refused.
    pub fn parse(s: &str) -> (r: Result<Layout, ParseError>)
        ensures
            r == match Layout::spec_from_text(s@) {
                Some(v) => Ok(v),
                None => Err(ParseError::ConversionFailed),
            },
    {
        let cs = chars_of(s);
        proof {
            assert(cs@.subrange(0, cs@.len() as int) =~= s@);
        }
        match Layout::from_chars(&cs, 0, cs.len()) {
            Some(v) => Ok(v),
            None => Err(ParseError::ConversionFailed),
        }
    }

    /// Every value reads back from its own text.
    pub proof fn lemma_text_round_trip(self)
        ensures
            Layout::spec_from_text(self.spec_text()) == Some(self),
    {
        reveal_strlit("tiled");
        reveal_strlit("monocle");
        assert("tiled"@.len() != "monocle"@.len());
    }

    /// The text of every value is a plain token.
    pub proof fn lemma_text_plain(self)
        ensures
            plain(self.spec_text()),
    {
        match self {
            Layout::Tiled => {
                reveal_strlit("tiled");
                assert(plain("tiled"@));
            },
            Layout::Monocle => {
                reveal_strlit("monocle");
                assert(plain("monocle"@));
            },
        }
    }
}

impl std::str::FromStr for Layout {
    type Err = ParseError;

    fn from_str(s: &str) -> Result<Layout, ParseError> {
        Layout::parse(s)
    }
}

/// A direction on the screen.
#[derive(Debug, Clone, Copy, PartialEq, Eq, Structural)]
pub enum Dir {
    South,
    North,
    West,
    East,
}

impl Dir {
    /// How the protocol writes this value.
    pub open spec fn spec_text(self) -> Seq<char> {
        match self {
            Dir::South => "south"@,
            Dir::North => "north"@,
            Dir::West => "west"@,
            Dir::East => "east"@,
        }
    }

    /// The value that a token names, if any.
    pub open spec fn spec_from_text(tok: Seq<char>) -> Option<Dir> {
        if tok == "south"@ {
            Some(Dir::South)
        } else if tok == "north"@ {
            Some(Dir::North)
        } else if tok == "west"@ {
            Some(Dir::West)
        } else if tok == "east"@ {
            Some(Dir::East)
        } else {
            None
        }
    }

    /// How the protocol writes this value.
    pub fn as_str(&self) -> (r: &'static str)
        ensures
            r@ == self.spec_text(),
    {
        match self {
            Dir::South => "south",
            Dir::North => "north",
            Dir::West => "west",
            Dir::East => "east",
        }
    }

    /// Reads the token `cs[lo..hi]`.
    pub fn from_chars(cs: &Vec<char>, lo: usize, hi: usize) -> (r: Option<Dir>)
        requires
            lo <= hi <= cs.len(),
        ensures
            r == Dir::spec_from_text(cs@.subrange(lo as int, hi as int)),
    {
        if span_is(cs, lo, hi, "south") {
            Some(Dir::South)
        } else if span_is(cs, lo, hi, "north") {
            Some(Dir::North)
        } else if span_is(cs, lo, hi, "west") {
            Some(Dir::West)
        } else if span_is(cs, lo, hi, "east") {
            Some(Dir::East)
        } else {
            None
        }
    }

    /// Reads a whole text as a value; any other text is refused.
    pub fn parse(s: &str) -> (r: Result<Dir, ParseError>)
        ensures
            r == match Dir::spec_from_text(s@) {
                Some(v) => Ok(v),
                None => Err(ParseError::ConversionFailed),
            },
    {
        let cs = chars_of(s);
        proof {
            assert(cs@.subrange(0, cs@.len() as int) =~= s@);
        }
        match Dir::from_chars(&cs, 0, cs.len()) {
            Some(v) => Ok(v),
            None => Err(ParseError::ConversionFailed),
        }
    }

    /// Every value reads back from its own text.
    pub proof fn lemma_text_round_trip(self)
        ensures
            Dir::spec_from_text(self.spec_text()) == Some(self),
    {
        reveal_strlit("south");
        reveal_strlit("north");
        reveal_strlit("west");
        reveal_strlit("east");
        assert("south"@[0] != "north"@[0]);
        assert("south"@.len() != "west"@.len());
        assert("south"@.len() != "east"@.len());
        assert("north"@.len() != "west"@.len());
        assert("north"@.len() != "east"@.len());
        assert("west"@[0] != "east"@[0]);
    }

    /// The text of every value is a plain token.
    pub proof fn lemma_text_plain(self)
        ensures
            plain(self.spec_text()),
    {
        match self {
            Dir::South => {
                reveal_strlit("south");
                assert(plain("south"@));
            },
            Dir::North => {
                reveal_strlit("north");
                assert(plain("north"@));
            },
            Dir::West => {
                reveal_strlit("west");
                assert(plain("west"@));
            },
            Dir::East => {
                reveal_strlit("east");
                assert(plain("east"@));
            },
        }
    }
}

impl std::str::FromStr for Dir {
    type Err = ParseError;

    fn from_str(s: &str) -> Result<Dir, ParseError> {
        Dir::parse(s)
    }
}

/// A direction in a cycle.
#[derive(Debug, Clone, Copy, PartialEq, Eq, Structural)]
pub enum CycleDir {
    Next,
    Prev,
}

/// How a container splits its area.
#[derive(Debug, Clone, Copy, PartialEq, Eq, Structural)]
pub enum SplitType {
    Vertical,
    Horizontal,
}

/// Where a node went in the stacking order, relative to another.
#[derive(Debug, Clone, Copy, PartialEq, Eq, Structural)]
pub enum Stack {
    Below,
    Above,
}

impl Stack {
    /// How the protocol writes this value.
    pub open spec fn spec_text(self) -> Seq<char> {
        match self {
            Stack::Below => "below"@,
            Stack::Above => "above"@,
        }
    }

    /// The value that a token names, if any.
    pub open spec fn spec_from_text(tok: Seq<char>) -> Option<Stack> {
        if tok == "below"@ {
            Some(Stack::Below)
        } else if tok == "above"@ {
            Some(Stack::Above)
        } else {
            None
        }
    }

    /// How the protocol writes this value.
    pub fn as_str(&self) -> (r: &'static str)
        ensures
            r@ == self.spec_text(),
    {
        match self {
            Stack::Below => "below",
            Stack::Above => "above",
        }
    }

    /// Reads the token `cs[lo..hi]`.
    pub fn from_chars(cs: &Vec<char>, lo: usize, hi: usize) -> (r: Option<Stack>)
        requires
            lo <= hi <= cs.len(),
        ensures
            r == Stack::spec_from_text(cs@.subrange(lo as int, hi as int)),
    {
        if span_is(cs, lo, hi, "below") {
            Some(Stack::Below)
        } else if span_is(cs, lo, hi, "above") {
            Some(Stack::Above)
        } else {
            None
        }
    }

    /// Reads a whole text as a value; any other text is refused.
    pub fn parse(s: &str) -> (r: Result<Stack, ParseError>)
        ensures
            r == match Stack::spec_from_text(s@) {
                Some(v) => Ok(v),
                None => Err(ParseError::ConversionFailed),
            },
    {
        let cs = chars_of(s);
        proof {
            assert(cs@.subrange(0, cs@.len() as int) =~= s@);
        }
        match Stack::from_chars(&cs, 0, cs.len()) {
            Some(v) => Ok(v),
            None => Err(ParseError::ConversionFailed),
        }
    }

    /// Every value reads back from its own text.
    pub proof fn lemma_text_round_trip(self)
        ensures
            Stack::spec_from_text(self.spec_text()) == Some(self),
    {
        reveal_strlit("below");
        reveal_strlit("above");
        assert("below"@[0] != "above"@[0]);
    }

    /// The text of every value is a plain token.
    pub proof fn lemma_text_plain(self)
        ensures
            plain(self.spec_text()),
    {
        match self {
            Stack::Below => {
                reveal_strlit("below");
                assert(plain("below"@));
            },
            Stack::Above => {
                reveal_strlit("above");
                assert(plain("above"@));
            },
        }
    }
}

impl std::str::FromStr for Stack {
    type Err = ParseError;

    fn from_str(s: &str) -> Result<Stack, ParseError> {
        Stack::parse(s)
    }
}

/// The state of a window.
#[derive(Debug, Clone, Copy, PartialEq, Eq, Structural)]
pub enum State {
    Tiled,
    PseudoTiled,
    Floating,
    Fullscreen,
}

impl State {
    /// How the protocol writes this value.
    pub open spec fn spec_text(self) -> Seq<char> {
        match self {
            State::Tiled => "tiled"@,
            State::PseudoTiled => "pseudo_tiled"@,
            State::Floating => "floating"@,
            State::Fullscreen => "fullscreen"@,
        }
    }

    /// The value that a token names, if any.
    pub open spec fn spec_from_text(tok: Seq<char>) -> Option<State> {
        if tok == "tiled"@ {
            Some(State::Tiled)
        } else if tok == "pseudo_tiled"@ {
            Some(State::PseudoTiled)
        } else if tok == "floating"@ {
            Some(State::Floating)
        } else if tok == "fullscreen"@ {
            Some(State::Fullscreen)
        } else {
            None
        }
    }

    /// How the protocol writes this value.
    pub fn as_str(&self) -> (r: &'static str)
        ensures
            r@ == self.spec_text(),
    {
        match self {
            State::Tiled => "tiled",
            State::PseudoTiled => "pseudo_tiled",
            State::Floating => "floating",
            State::Fullscreen => "fullscreen",
        }
    }

    /// Reads the token `cs[lo..hi]`.
    pub fn from_chars(cs: &Vec<char>, lo: usize, hi: usize) -> (r: Option<State>)
        requires
            lo <= hi <= cs.len(),
        ensures
            r == State::spec_from_text(cs@.subrange(lo as int, hi as int)),
    {
        if span_is(cs, lo, hi, "tiled") {
            Some(State::Tiled)
        } else if span_is(cs, lo, hi, "pseudo_tiled") {
            Some(State::PseudoTiled)
        } else if span_is(cs, lo, hi, "floating") {
            Some(State::Floating)
        } else if span_is(cs, lo, hi, "fullscreen") {
            Some(State::Fullscreen)
        } else {
            None
        }
    }

    /// Reads a whole text as a value; any other text is refused.
    pub fn parse(s: &str) -> (r: Result<State, ParseError>)
        ensures
            r == match State::spec_from_text(s@) {
                Some(v) => Ok(v),
                None => Err(ParseError::ConversionFailed),
            },
    {
        let cs = chars_of(s);
        proof {
            assert(cs@.subrange(0, cs@.len() as int) =~= s@);
        }
        match State::from_chars(&cs, 0, cs.len()) {
            Some(v) => Ok(v),
            None => Err(ParseError::ConversionFailed),
        }
    }

    /// Every value reads back from its own text.
    pub proof fn lemma_text_round_trip(self)
        ensures
            State::spec_from_text(self.spec_text()) == Some(self),
    {
        reveal_strlit("tiled");
        reveal_strlit("pseudo_tiled");
        reveal_strlit("floating");
        reveal_strlit("fullscreen");
        assert("tiled"@.len() != "pseudo_tiled"@.len());
        assert("tiled"@.len() != "floating"@.len());
        assert("tiled"@.len() != "fullscreen"@.len());
        assert("pseudo_tiled"@.len() != "floating"@.len());
        assert("pseudo_tiled"@.len() != "fullscreen"@.len());
        assert("floating"@.len() != "fullscreen"@.len());
    }

    /// The text of every value is a plain token.
    pub proof fn lemma_text_plain(self)
        ensures
            plain(self.spec_text()),
    {
        match self {
            State::Tiled => {
                reveal_strlit("tiled");
                assert(plain("tiled"@));
            },
            State::PseudoTiled => {
                reveal_strlit("pseudo_tiled");
                assert(plain("pseudo_tiled"@));
            },
            State::Floating => {
                reveal_strlit("floating");
                assert(plain("floating"@));
            },
            State::Fullscreen => {
                reveal_strlit("fullscreen");
                assert(plain("fullscreen"@));
            },
        }
    }
}

impl std::str::FromStr for State {
    type Err = ParseError;

    fn from_str(s: &str) -> Result<State, ParseError> {
        State::parse(s)
    }
}

/// Whether a state or flag was turned on or off.
#[derive(Debug, Clone, Copy, PartialEq, Eq, Structural)]
pub enum Switch {
    On,
    Off,
}

impl Switch {
    /// How the protocol writes this value.
    pub open spec fn spec_text(self) -> Seq<char> {
        match self {
            Switch::On => "on"@,
            Switch::Off => "off"@,
        }
    }

    /// The value that a token names, if any.
    pub open spec fn spec_from_text(tok: Seq<char>) -> Option<Switch> {
        if tok == "on"@ {
            Some(Switch::On)
        } else if tok == "off"@ {
            Some(Switch::Off)
        } else {
            None
        }
    }

    /// How the protocol writes this value.
    pub fn as_str(&self) -> (r: &'static str)
        ensures
            r@ == self.spec_text(),
    {
        match self {
            Switch::On => "on",
            Switch::Off => "off",
        }
    }

    /// Reads the token `cs[lo..hi]`.
    pub fn from_chars(cs: &Vec<char>, lo: usize, hi: usize) -> (r: Option<Switch>)
        requires
            lo <= hi <= cs.len(),
        ensures
            r == Switch::spec_from_text(cs@.subrange(lo as int, hi as int)),
    {
        if span_is(cs, lo, hi, "on") {
            Some(Switch::On)
        } else if span_is(cs, lo, hi, "off") {
            Some(Switch::Off)
        } else {
            None
        }
    }

    /// Reads a whole text as a value; any other text is refused.
    pub fn parse(s: &str) -> (r: Result<Switch, ParseError>)
        ensures
            r == match Switch::spec_from_text(s@) {
                Some(v) => Ok(v),
                None => Err(ParseError::ConversionFailed),
            },
    {
        let cs = chars_of(s);
        proof {
            assert(cs@.subrange(0, cs@.len() as int) =~= s@);
        }
        match Switch::from_chars(&cs, 0, cs.len()) {
            Some(v) => Ok(v),
            None => Err(ParseError::ConversionFailed),
        }
    }

    /// Every value reads back from its own text.
    pub proof fn lemma_text_round_trip(self)
        ensures
            Switch::spec_from_text(self.spec_text()) == Some(self),
    {
        reveal_strlit("on");
        reveal_strlit("off");
        assert("on"@.len() != "off"@.len());
    }

    /// The text of every value is a plain token.
    pub proof fn lemma_text_plain(self)
        ensures
            plain(self.spec_text()),
    {
        match self {
            Switch::On => {
                reveal_strlit("on");
                assert(plain("on"@));
            },
            Switch::Off => {
                reveal_strlit("off");
                assert(plain("off"@));
            },
        }
    }
}

impl std::str::FromStr for Switch {
    type Err = ParseError;

    fn from_str(s: &str) -> Result<Switch, ParseError> {
        Switch::parse(s)
    }
}

/// A flag of a node.
#[derive(Debug, Clone, Copy, PartialEq, Eq, Structural)]
pub enum Flag {
    Hidden,
    Sticky,
    Private,
    Locked,
    Marked,
    Urgent,
}

impl Flag {
    /// How the protocol writes this value.
    pub open spec fn spec_text(self) -> Seq<char> {
        match self {
            Flag::Hidden => "hidden"@,
            Flag::Sticky => "sticky"@,
            Flag::Private => "private"@,
            Flag::Locked => "locked"@,
            Flag::Marked => "marked"@,
            Flag::Urgent => "urgent"@,
        }
    }

    /// The value that a token names, if any.
    pub open spec fn spec_from_text(tok: Seq<char>) -> Option<Flag> {
        if tok == "hidden"@ {
            Some(Flag::Hidden)
        } else if tok == "sticky"@ {
            Some(Flag::Sticky)
        } else if tok == "private"@ {
            Some(Flag::Private)
        } else if tok == "locked"@ {
            Some(Flag::Locked)
        } else if tok == "marked"@ {
            Some(Flag::Marked)
        } else if tok == "urgent"@ {
            Some(Flag::Urgent)
        } else {
            None
        }
    }

    /// How the protocol writes this value.
    pub fn as_str(&self) -> (r: &'static str)
        ensures
            r@ == self.spec_text(),
    {
        match self {
            Flag::Hidden => "hidden",
            Flag::Sticky => "sticky",
            Flag::Private => "private",
            Flag::Locked => "locked",
            Flag::Marked => "marked",
            Flag::Urgent => "urgent",
        }
    }

    /// Reads the token `cs[lo..hi]`.
    pub fn from_chars(cs: &Vec<char>, lo: usize, hi: usize) -> (r: Option<Flag>)
        requires
            lo <= hi <= cs.len(),
        ensures
            r == Flag::spec_from_text(cs@.subrange(lo as int, hi as int)),
    {
        if span_is(cs, lo, hi, "hidden") {
            Some(Flag::Hidden)
        } else if span_is(cs, lo, hi, "sticky") {
            Some(Flag::Sticky)
        } else if span_is(cs, lo, hi, "private") {
            Some(Flag::Private)
        } else if span_is(cs, lo, hi, "locked") {
            Some(Flag::Locked)
        } else if span_is(cs, lo, hi, "marked") {
            Some(Flag::Marked)
        } else if span_is(cs, lo, hi, "urgent") {
            Some(Flag::Urgent)
        } else {
            None
        }
    }

    /// Reads a whole text as a value; any other text is refused.
    pub fn parse(s: &str) -> (r: Result<Flag, ParseError>)
        ensures
            r == match Flag::spec_from_text(s@) {
                Some(v) => Ok(v),
                None => Err(ParseError::ConversionFailed),
            },
    {
        let cs = chars_of(s);
        proof {
            assert(cs@.subrange(0, cs@.len() as int) =~= s@);
        }
        match Flag::from_chars(&cs, 0, cs.len()) {
            Some(v) => Ok(v),
            None => Err(ParseError::ConversionFailed),
        }
    }

    /// Every value reads back from its own text.
    pub proof fn lemma_text_round_trip(self)
        ensures
            Flag::spec_from_text(self.spec_text()) == Some(self),
    {
        reveal_strlit("hidden");
        reveal_strlit("sticky");
        reveal_strlit("private");
        reveal_strlit("locked");
        reveal_strlit("marked");
        reveal_strlit("urgent");
        assert("hidden"@[0] != "sticky"@[0]);
        assert("hidden"@.len() != "private"@.len());
        assert("hidden"@[0] != "locked"@[0]);
        assert("hidden"@[0] != "marked"@[0]);
        assert("hidden"@[0] != "urgent"@[0]);
        assert("sticky"@.len() != "private"@.len());
        assert("sticky"@[0] != "locked"@[0]);
        assert("sticky"@[0] != "marked"@[0]);
        assert("sticky"@[0] != "urgent"@[0]);
        assert("private"@.len() != "locked"@.len());
        assert("private"@.len() != "marked"@.len());
        assert("private"@.len() != "urgent"@.len());
        assert("locked"@[0] != "marked"@[0]);
        assert("locked"@[0] != "urgent"@[0]);
        assert("marked"@[0] != "urgent"@[0]);
    }

    /// The text of every value is a plain token.
    pub proof fn lemma_text_plain(self)
        ensures
            plain(self.spec_text()),
    {
        match self {
            Flag::Hidden => {
                reveal_strlit("hidden");
                assert(plain("hidden"@));
            },
            Flag::Sticky => {
                reveal_strlit("sticky");
                assert(plain("sticky"@));
            },
            Flag::Private => {
                reveal_strlit("private");
                assert(plain("private"@));
            },
            Flag::Locked => {
                reveal_strlit("locked");
                assert(plain("locked"@));
            },
            Flag::Marked => {
                reveal_strlit("marked");
                assert(plain("marked"@));
            },
            Flag::Urgent => {
                reveal_strlit("urgent");
                assert(plain("urgent"@));
            },
        }
    }
}

impl std::str::FromStr for Flag {
    type Err = ParseError;

    fn from_str(s: &str) -> Result<Flag, ParseError> {
        Flag::parse(s)
    }
}

/// The stacking layer of a node.
#[derive(Debug, Clone, Copy, PartialEq, Eq, Structural)]
pub enum Layer {
    Below,
    Normal,
    Above,
}

impl Layer {
    /// How the protocol writes this value.
    pub open spec fn spec_text(self) -> Seq<char> {
        match self {
            Layer::Below => "below"@,
            Layer::Normal => "normal"@,
            Layer::Above => "above"@,
        }
    }

    /// The value that a token names, if any.
    pub open spec fn spec_from_text(tok: Seq<char>) -> Option<Layer> {
        if tok == "below"@ {
            Some(Layer::Below)
        } else if tok == "normal"@ {
            Some(Layer::Normal)
        } else if tok == "above"@ {
            Some(Layer::Above)
        } else {
            None
        }
    }

    /// How the protocol writes this value.
    pub fn as_str(&self) -> (r: &'static str)
        ensures
            r@ == self.spec_text(),
    {
        match self {
            Layer::Below => "below",
            Layer::Normal => "normal",
            Layer::Above => "above",
        }
    }

    /// Reads the token `cs[lo..hi]`.
    pub fn from_chars(cs: &Vec<char>, lo: usize, hi: usize) -> (r: Option<Layer>)
        requires
            lo <= hi <= cs.len(),
        ensures
            r == Layer::spec_from_text(cs@.subrange(lo as int, hi as int)),
    {
        if span_is(cs, lo, hi, "below") {
            Some(Layer::Below)
        } else if span_is(cs, lo, hi, "normal") {
            Some(Layer::Normal)
        } else if span_is(cs, lo, hi, "above") {
            Some(Layer::Above)
        } else {
            None
        }
    }

    /// Reads a whole text as a value; any other text is refused.
    pub fn parse(s: &str) -> (r: Result<Layer, ParseError>)
        ensures
            r == match Layer::spec_from_text(s@) {
                Some(v) => Ok(v),
                None => Err(ParseError::ConversionFailed),
            },
    {
        let cs = chars_of(s);
        proof {
            assert(cs@.subrange(0, cs@.len() as int) =~= s@);
        }
        match Layer::from_chars(&cs, 0, cs.len()) {
            Some(v) => Ok(v),
            None => Err(ParseError::ConversionFailed),
        }
    }

    /// Every value reads back from its own text.
    pub proof fn lemma_text_round_trip(self)
        ensures
            Layer::spec_from_text(self.spec_text()) == Some(self),
    {
        reveal_strlit("below");
        reveal_strlit("normal");
        reveal_strlit("above");
        assert("below"@.len() != "normal"@.len());
        assert("below"@[0] != "above"@[0]);
        assert("normal"@.len() != "above"@.len());
    }

    /// The text of every value is a plain token.
    pub proof fn lemma_text_plain(self)
        ensures
            plain(self.spec_text()),
    {
        match self {
            Layer::Below => {
                reveal_strlit("below");
                assert(plain("below"@));
            },
            Layer::Normal => {
                reveal_strlit("normal");
                assert(plain("normal"@));
            },
            Layer::Above => {
                reveal_strlit("above");
                assert(plain("above"@));
            },
        }
    }
}

impl std::str::FromStr for Layer {
    type Err = ParseError;

    fn from_str(s: &str) -> Result<Layer, ParseError> {
        Layer::parse(s)
    }
}

/// A pointer action.
#[derive(Debug, Clone, Copy, PartialEq, Eq, Structural)]
pub enum Action {
    Move,
    ResizeCorner,
    ResizeSide,
}

impl Action {
    /// How the protocol writes this value.
    pub open spec fn spec_text(self) -> Seq<char> {
        match self {
            Action::Move => "move"@,
            Action::ResizeCorner => "resize_corner"@,
            Action::ResizeSide => "resize_side"@,
        }
    }

    /// The value that a token names, if any.
    pub open spec fn spec_from_text(tok: Seq<char>) -> Option<Action> {
        if tok == "move"@ {
            Some(Action::Move)
        } else if tok == "resize_corner"@ {
            Some(Action::ResizeCorner)
        } else if tok == "resize_side"@ {
            Some(Action::ResizeSide)
        } else {
            None
        }
    }

    /// How the protocol writes this value.
    pub fn as_str(&self) -> (r: &'static str)
        ensures
            r@ == self.spec_text(),
    {
        match self {
            Action::Move => "move",
            Action::ResizeCorner => "resize_corner",
            Action::ResizeSide => "resize_side",
        }
    }

    /// Reads the token `cs[lo..hi]`.
    pub fn from_chars(cs: &Vec<char>, lo: usize, hi: usize) -> (r: Option<Action>)
        requires
            lo <= hi <= cs.len(),
        ensures
            r == Action::spec_from_text(cs@.subrange(lo as int, hi as int)),
    {
        if span_is(cs, lo, hi, "move") {
            Some(Action::Move)
        } else if span_is(cs, lo, hi, "resize_corner") {
            Some(Action::ResizeCorner)
        } else if span_is(cs, lo, hi, "resize_side") {
            Some(Action::ResizeSide)
        } else {
            None
        }
    }

    /// Reads a whole text as a value; any other text is refused.
    pub fn parse(s: &str) -> (r: Result<Action, ParseError>)
        ensures
            r == match Action::spec_from_text(s@) {
                Some(v) => Ok(v),
                None => Err(ParseError::ConversionFailed),
            },
    {
        let cs = chars_of(s);
        proof {
            assert(cs@.subrange(0, cs@.len() as int) =~= s@);
        }
        match Action::from_chars(&cs, 0, cs.len()) {
            Some(v) => Ok(v),
            None => Err(ParseError::ConversionFailed),
        }
    }

    /// Every value reads back from its own text.
    pub proof fn lemma_text_round_trip(self)
        ensures
            Action::spec_from_text(self.spec_text()) == Some(self),
    {
        reveal_strlit("move");
        reveal_strlit("resize_corner");
        reveal_strlit("resize_side");
        assert("move"@.len() != "resize_corner"@.len());
        assert("move"@.len() != "resize_side"@.len());
        assert("resize_corner"@.len() != "resize_side"@.len());
    }

    /// The text of every value is a plain token.
    pub proof fn lemma_text_plain(self)
        ensures
            plain(self.spec_text()),
    {
        match self {
            Action::Move => {
                reveal_strlit("move");
                assert(plain("move"@));
            },
            Action::ResizeCorner => {
                reveal_strlit("resize_corner");
                assert(plain("resize_corner"@));
            },
            Action::ResizeSide => {
                reveal_strlit("resize_side");
                assert(plain("resize_side"@));
            },
        }
    }
}

impl std::str::FromStr for Action {
    type Err = ParseError;

    fn from_str(s: &str) -> Result<Action, ParseError> {
        Action::parse(s)
    }
}

/// Whether a pointer action begins or ends.
#[derive(Debug, Clone, Copy, PartialEq, Eq, Structural)]
pub enum ActionState {
    Begin,
    End,
}

impl ActionState {
    /// How the protocol writes this value.
    pub open spec fn spec_text(self) -> Seq<char> {
        match self {
            ActionState::Begin => "begin"@,
            ActionState::End => "end"@,
        }
    }

    /// The value that a token names, if any.
    pub open spec fn spec_from_text(tok: Seq<char>) -> Option<ActionState> {
        if tok == "begin"@ {
            Some(ActionState::Begin)
        } else if tok == "end"@ {
            Some(ActionState::End)
        } else {
            None
        }
    }

    /// How the protocol writes this value.
    pub fn as_str(&self) -> (r: &'static str)
        ensures
            r@ == self.spec_text(),
    {
        match self {
            ActionState::Begin => "begin",
            ActionState::End => "end",
        }
    }

    /// Reads the token `cs[lo..hi]`.
    pub fn from_chars(cs: &Vec<char>, lo: usize, hi: usize) -> (r: Option<ActionState>)
        requires
            lo <= hi <= cs.len(),
        ensures
            r == ActionState::spec_from_text(cs@.subrange(lo as int, hi as int)),
    {
        if span_is(cs, lo, hi, "begin") {
            Some(ActionState::Begin)
        } else if span_is(cs, lo, hi, "end") {
            Some(ActionState::End)
        } else {
            None
        }
    }

    /// Reads a whole text as a value; any other text is refused.
    pub fn parse(s: &str) -> (r: Result<ActionState, ParseError>)
        ensures
            r == match ActionState::spec_from_text(s@) {
                Some(v) => Ok(v),
                None => Err(ParseError::ConversionFailed),
            },
    {
        let cs = chars_of(s);
        proof {
            assert(cs@.subrange(0, cs@.len() as int) =~= s@);
        }
        match ActionState::from_chars(&cs, 0, cs.len()) {
            Some(v) => Ok(v),
            None => Err(ParseError::ConversionFailed),
        }
    }

    /// Every value reads back from its own text.
    pub proof fn lemma_text_round_trip(self)
        ensures
            ActionState::spec_from_text(self.spec_text()) == Some(self),
    {
        reveal_strlit("begin");
        reveal_strlit("end");
        assert("begin"@.len() != "end"@.len());
    }

    /// The text of every value is a plain token.
    pub proof fn lemma_text_plain(self)
        ensures
            plain(self.spec_text()),
    {
        match self {
            ActionState::Begin => {
                reveal_strlit("begin");
                assert(plain("begin"@));
            },
            ActionState::End => {
                reveal_strlit("end");
                assert(plain("end"@));
            },
        }
    }
}

impl std::str::FromStr for ActionState {
    type Err = ParseError;

    fn from_str(s: &str) -> Result<ActionState, ParseError> {
        ActionState::parse(s)
    }
}

/// A plain decimal numeral: digits with at most one `.`, which has a digit
/// on each side.
pub open spec fn is_ratio_text(s: Seq<char>) -> bool {
    &&& s.len() > 0
    &&& 48 <= s[0] as u32 <= 57
    &&& 48 <= s.last() as u32 <= 57
    &&& forall|i: int| 0 <= i < s.len() ==> (48 <= #[trigger] s[i] as u32 <= 57 || s[i] == '.')
    &&& forall|i: int, j: int| 0 <= i < s.len() && 0 <= j < s.len() && #[trigger] s[i] == '.' && #[trigger] s[j] == '.' ==> i == j
}

/// Whether `cs[lo..hi]` is a plain decimal numeral (`is_ratio_text`).
pub fn ratio_at(cs: &Vec<char>, lo: usize, hi: usize) -> (r: bool)
    requires
        lo <= hi <= cs.len(),
    ensures
        r == is_ratio_text(cs@.subrange(lo as int, hi as int)),
{
    let ghost s = cs@.subrange(lo as int, hi as int);
    if lo == hi {
        return false;
    }
    let first = cs[lo] as u32;
    let last = cs[hi - 1] as u32;
    if first < 48 || first > 57 || last < 48 || last > 57 {
        return false;
    }
    let mut dot: Option<usize> = None;
    let mut i: usize = lo;
    while i < hi
        invariant
            lo <= i <= hi <= cs.len(),
            s == cs@.subrange(lo as int, hi as int),
            forall|k: int| 0 <= k < i - lo ==> (48 <= #[trigger] s[k] as u32 <= 57 || s[k] == '.'),
            match dot {
                None => forall|k: int| 0 <= k < i - lo ==> #[trigger] s[k] != '.',
                Some(d) => lo <= d < i && s[d - lo] == '.' && forall|k: int|
                    0 <= k < i - lo && k != d - lo ==> #[trigger] s[k] != '.',
            },
        decreases hi - i,
    {
        let c = cs[i];
        let v = c as u32;
        if c == '.' {
            match dot {
                Some(d) => {
                    assert(s[d - lo] == '.' && s[i - lo] == '.');
                    return false;
                },
                None => {
                    dot = Some(i);
                },
            }
        } else if v < 48 || v > 57 {
            assert(!(48 <= s[i - lo] as u32 <= 57 || s[i - lo] == '.'));
            return false;
        }
        i += 1;
    }
    true
}

/// Where a new node will go: beside the node in a direction, at a split
/// ratio, or nowhere (the pre-selection is cancelled).
#[derive(Debug, Clone, PartialEq, Eq)]
pub enum Presel {
    Dir(Dir),
    /// The split ratio, as the decimal numeral that the window manager sent.
    Ratio(String),
    Cancel,
}

impl Presel {
    /// What the tokens from `t[i]` on say of a pre-selection: `dir` and a
    /// direction, `ratio` and a decimal numeral, or `cancel`. A missing
    /// second token is `InsufficientData`; any other text is
    /// `ConversionFailed`.
    pub open spec fn read_from(t: Seq<Seq<char>>, i: int, r: Result<Presel, ParseError>) -> bool {
        if t[i] == "dir"@ {
            if t.len() <= i + 1 {
                r == Err::<Presel, ParseError>(ParseError::InsufficientData)
            } else {
                match Dir::spec_from_text(t[i + 1]) {
                    Some(d) => r == Ok::<Presel, ParseError>(Presel::Dir(d)),
                    None => r == Err::<Presel, ParseError>(ParseError::ConversionFailed),
                }
            }
        } else if t[i] == "ratio"@ {
            if t.len() <= i + 1 {
                r == Err::<Presel, ParseError>(ParseError::InsufficientData)
            } else if is_ratio_text(t[i + 1]) {
                match r {
                    Ok(Presel::Ratio(x)) => x@ == t[i + 1],
                    _ => false,
                }
            } else {
                r == Err::<Presel, ParseError>(ParseError::ConversionFailed)
            }
        } else if t[i] == "cancel"@ {
            r == Ok::<Presel, ParseError>(Presel::Cancel)
        } else {
            r == Err::<Presel, ParseError>(ParseError::ConversionFailed)
        }
    }

    /// Reads the pre-selection that starts at token `i`.
    pub fn from_tokens(t: &Tokens, i: usize) -> (r: Result<Presel, ParseError>)
        requires
            t.wf(),
            i < t@.len(),
        ensures
            Presel::read_from(t@, i as int, r),
    {
        if t.is(i, "dir") {
            if t.len() <= i + 1 {
                return Err(ParseError::InsufficientData);
            }
            let (lo, hi) = t.span(i + 1);
            match Dir::from_chars(&t.chars, lo, hi) {
                Some(d) => Ok(Presel::Dir(d)),
                None => Err(ParseError::ConversionFailed),
            }
        } else if t.is(i, "ratio") {
            if t.len() <= i + 1 {
                return Err(ParseError::InsufficientData);
            }
            let (lo, hi) = t.span(i + 1);
            if ratio_at(&t.chars, lo, hi) {
                Ok(Presel::Ratio(t.text_at(i + 1)))
            } else {
                Err(ParseError::ConversionFailed)
            }
        } else if t.is(i, "cancel") {
            Ok(Presel::Cancel)
        } else {
            Err(ParseError::ConversionFailed)
        }
    }

    /// Reads a pre-selection written on its own: `dir west`, `ratio 0.5`,
    /// `cancel`.
    pub fn parse(s: &str) -> (r: Result<Presel, ParseError>)
        ensures
            Presel::read_from(tokens(s@), 0, r),
    {
        let t = Tokens::of(s);
        Presel::from_tokens(&t, 0)
    }
}

impl std::str::FromStr for Presel {
    type Err = ParseError;

    fn from_str(s: &str) -> Result<Presel, ParseError> {
        Presel::parse(s)
    }
}

impl Presel {
    /// The tokens by which the window manager writes a pre-selection.
    pub open spec fn spec_tokens(self) -> Seq<Seq<char>> {
        match self {
            Presel::Dir(d) => seq!["dir"@, d.spec_text()],
            Presel::Ratio(x) => seq!["ratio"@, x@],
            Presel::Cancel => seq!["cancel"@],
        }
    }

    /// A ratio is a numeral; nothing else is asked of a pre-selection.
    pub open spec fn well_formed(self) -> bool {
        match self {
            Presel::Ratio(x) => is_ratio_text(x@),
            _ => true,
        }
    }

    /// Equal but for how the ratio text is held.
    pub open spec fn same(self, other: Presel) -> bool {
        match (self, other) {
            (Presel::Ratio(a), Presel::Ratio(b)) => a@ == b@,
            _ => self == other,
        }
    }

    /// The tokens of a pre-selection are plain.
    pub proof fn lemma_tokens_plain(self)
        requires
            self.well_formed(),
        ensures
            forall|i: int| 0 <= i < self.spec_tokens().len() ==> plain(#[trigger] self.spec_tokens()[i]),
    {
        reveal_strlit("dir");
        reveal_strlit("ratio");
        reveal_strlit("cancel");
        assert(plain("dir"@));
        assert(plain("ratio"@));
        assert(plain("cancel"@));
        match self {
            Presel::Dir(d) => {
                d.lemma_text_plain();
            },
            Presel::Ratio(x) => {
                assert forall|i: int| 0 <= i < x@.len() implies !crate::text::is_whitespace(#[trigger] x@[i]) by {
                    assert(48 <= x@[i] as u32 <= 57 || x@[i] == '.');
                }
            },
            Presel::Cancel => {},
        }
    }

    /// Tokens that write a pre-selection read back as that pre-selection.
    pub proof fn lemma_round_trip(self, t: Seq<Seq<char>>, i: int, r: Result<Presel, ParseError>)
        requires
            self.well_formed(),
            0 <= i,
            t.len() == i + self.spec_tokens().len(),
            forall|k: int| 0 <= k < self.spec_tokens().len() ==> t[i + k] == #[trigger] self.spec_tokens()[k],
            Presel::read_from(t, i, r),
        ensures
            r matches Ok(x) && x.same(self),
    {
        reveal_strlit("dir");
        reveal_strlit("ratio");
        reveal_strlit("cancel");
        assert("dir"@.len() != "ratio"@.len());
        assert("dir"@.len() != "cancel"@.len());
        assert("ratio"@.len() != "cancel"@.len());
        assert(t[i] == self.spec_tokens()[0]);
        match self {
            Presel::Dir(d) => {
                assert(t[i + 1] == self.spec_tokens()[1]);
                d.lemma_text_round_trip();
            },
            Presel::Ratio(x) => {
                assert(t[i + 1] == self.spec_tokens()[1]);
            },
            Presel::Cancel => {},
        }
    }
}

impl Presel {
    /// The tokens decide the outcome.
    pub proof fn lemma_deterministic(t: Seq<Seq<char>>, i: int, r1: Result<Presel, ParseError>, r2: Result<Presel, ParseError>)
        requires
            Presel::read_from(t, i, r1),
            Presel::read_from(t, i, r2),
        ensures
            match (r1, r2) {
                (Ok(a), Ok(b)) => a.same(b),
                (Err(x), Err(y)) => x == y,
                _ => false,
            },
    {
    }
}

} // verus!
