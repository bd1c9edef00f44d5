//! The settings of the window manager: reading and changing them.
use vstd::prelude::*;
use vstd::string::*;

use crate::errors::{ParseError, ReplyError};
use crate::numbers::{int_text, int_to_text, integer_of, parse_integer};
use crate::query::{option_tokens, push_option, sel_view};
use crate::selectors::{selector_text, DesktopSelector, MonitorSelector, NodeSelector};
use crate::socket::{decode_reply, encode_request, refusal_matches, reply_of, request_text, texts, Reply};
use crate::text::{chars_of, span_is};

verus! {

/// The tokens of a request that reads a setting.
pub open spec fn get_tokens(name: Seq<char>) -> Seq<Seq<char>> {
    seq!["config"@, name]
}

/// The tokens of a request that changes a setting, for the items that the
/// selectors pick where there are any.
pub open spec fn set_tokens(
    monitor_selector: Option<Seq<char>>,
    desktop_selector: Option<Seq<char>>,
    node_selector: Option<Seq<char>>,
    name: Seq<char>,
    value: Seq<char>,
) -> Seq<Seq<char>> {
    seq!["config"@] + option_tokens("--monitor"@, monitor_selector) + option_tokens(
        "--desktop"@,
        desktop_selector,
    ) + option_tokens("--node"@, node_selector) + seq![name, value]
}

/// What an exchange that gave `got` makes the read of a setting return:
/// the single line of the reply; more lines or none are `ConversionFailed`.
pub open spec fn got_line(got: Result<String, ReplyError>, r: Result<String, ReplyError>) -> bool {
    match got {
        Err(e) => r matches Err(x) && x == e,
        Ok(raw) => match reply_of(raw@) {
            Reply::Data(ls) => if ls.len() == 1 {
                match r {
                    Ok(s) => s@ == ls[0],
                    Err(_) => false,
                }
            } else {
                r matches Err(ReplyError::ParseError(ParseError::ConversionFailed))
            },
            m => refusal_matches(m, r),
        },
    }
}

/// As `got_line`, with the line read as a value by `of`.
pub open spec fn got_value<T>(
    got: Result<String, ReplyError>,
    r: Result<T, ReplyError>,
    of: spec_fn(Seq<char>) -> Option<T>,
) -> bool {
    match got {
        Err(e) => r matches Err(x) && x == e,
        Ok(raw) => match reply_of(raw@) {
            Reply::Data(ls) => if ls.len() == 1 {
                match of(ls[0]) {
                    Some(v) => r == Ok::<T, ReplyError>(v),
                    None => r matches Err(ReplyError::ParseError(ParseError::ConversionFailed)),
                }
            } else {
                r matches Err(ReplyError::ParseError(ParseError::ConversionFailed))
            },
            m => refusal_matches(m, r),
        },
    }
}

/// What an exchange that gave `got` makes a change of a setting return: an
/// empty reply is success, a refusal its message, and data is unexpected.
pub open spec fn got_done(got: Result<String, ReplyError>, r: Result<(), ReplyError>) -> bool {
    match got {
        Err(e) => r matches Err(x) && x == e,
        Ok(raw) => match reply_of(raw@) {
            Reply::Empty => r == Ok::<(), ReplyError>(()),
            Reply::Refused(msg) => match r {
                Err(ReplyError::RequestFailed(x)) => x@ == msg,
                _ => false,
            },
            Reply::Data(_) => r matches Err(ReplyError::ParseError(ParseError::ConversionFailed)),
        },
    }
}

pub open spec fn bool_of(t: Seq<char>) -> Option<bool> {
    if t == "true"@ {
        Some(true)
    } else if t == "false"@ {
        Some(false)
    } else {
        None
    }
}

pub open spec fn bool_text(b: bool) -> Seq<char> {
    if b {
        "true"@
    } else {
        "false"@
    }
}

pub open spec fn i16_of(t: Seq<char>) -> Option<i16> {
    match integer_of(t, -32768, 32767) {
        Some(v) => Some(v as i16),
        None => None,
    }
}

pub open spec fn u16_of(t: Seq<char>) -> Option<u16> {
    match integer_of(t, 0, 65535) {
        Some(v) => Some(v as u16),
        None => None,
    }
}

pub open spec fn i32_of(t: Seq<char>) -> Option<i32> {
    match integer_of(t, -2147483648, 2147483647) {
        Some(v) => Some(v as i32),
        None => None,
    }
}

/// Reads `true` or `false`, as `bool::from_str` does.
pub fn parse_bool(s: &str) -> (r: Option<bool>)
    ensures
        r == bool_of(s@),
{
    let cs = chars_of(s);
    proof {
        assert(cs@.subrange(0, cs@.len() as int) =~= s@);
    }
    if span_is(&cs, 0, cs.len(), "true") {
        Some(true)
    } else if span_is(&cs, 0, cs.len(), "false") {
        Some(false)
    } else {
        None
    }
}

/// How a setting writes a truth value.
pub fn bool_str(b: bool) -> (r: &'static str)
    ensures
        r@ == bool_text(b),
{
    if b {
        "true"
    } else {
        "false"
    }
}

/// Reads the setting `name`: the single line of the reply.
pub fn get_config_property<F>(name: &str, exchange: F) -> (r: Result<String, ReplyError>) where
    F: FnOnce(String) -> Result<String, ReplyError>,

    requires
        forall|req: String| exchange.requires((req,)),
    ensures
        exists|req: String, got: Result<String, ReplyError>|
            {
                &&& req@ == request_text(get_tokens(name@))
                &&& exchange.ensures((req,), got)
                &&& got_line(got, r)
            },
{
    let mut tokens: Vec<String> = Vec::new();
    tokens.push("config".to_owned());
    tokens.push(name.to_owned());
    assert(texts(tokens@) =~= get_tokens(name@));
    let request = encode_request(&tokens);
    let raw = match exchange(request) {
        Ok(raw) => raw,
        Err(e) => return Err(e),
    };
    let mut lines = match decode_reply(raw.as_str()) {
        Ok(lines) => lines,
        Err(e) => return Err(e),
    };
    if lines.len() != 1 {
        return Err(ReplyError::ParseError(ParseError::ConversionFailed));
    }
    match lines.pop() {
        Some(line) => Ok(line),
        None => Err(ReplyError::ParseError(ParseError::ConversionFailed)),
    }
}

/// Sends the change of the setting `name` to `value`, for the items that
/// the selectors pick where there are any.
pub fn set_config_property<F>(
    monitor_selector: Option<&str>,
    desktop_selector: Option<&str>,
    node_selector: Option<&str>,
    name: &str,
    value: String,
    exchange: F,
) -> (r: Result<(), ReplyError>) where F: FnOnce(String) -> Result<String, ReplyError>
    requires
        forall|req: String| exchange.requires((req,)),
    ensures
        exists|req: String, got: Result<String, ReplyError>|
            {
                &&& req@ == request_text(
                    set_tokens(
                        sel_view(monitor_selector),
                        sel_view(desktop_selector),
                        sel_view(node_selector),
                        name@,
                        value@,
                    ),
                )
                &&& exchange.ensures((req,), got)
                &&& got_done(got, r)
            },
{
    let mut tokens: Vec<String> = Vec::new();
    tokens.push("config".to_owned());
    assert(texts(tokens@) =~= seq!["config"@]);
    push_option(&mut tokens, "--monitor", monitor_selector);
    push_option(&mut tokens, "--desktop", desktop_selector);
    push_option(&mut tokens, "--node", node_selector);
    let ghost head = texts(tokens@);
    let ghost value_view = value@;
    let key = name.to_owned();
    let ghost before = tokens@;
    tokens.push(key);
    assert(texts(tokens@) =~= texts(before).push(name@));
    let ghost middle = tokens@;
    tokens.push(value);
    assert(texts(tokens@) =~= texts(middle).push(value_view));
    assert(texts(tokens@) =~= set_tokens(
        sel_view(monitor_selector),
        sel_view(desktop_selector),
        sel_view(node_selector),
        name@,
        value_view,
    ));
    let request = encode_request(&tokens);
    let raw = match exchange(request) {
        Ok(raw) => raw,
        Err(e) => return Err(e),
    };
    match decode_reply(raw.as_str()) {
        Err(ReplyError::NoReply) => Ok(()),
        Err(e) => Err(e),
        Ok(_) => Err(ReplyError::ParseError(ParseError::ConversionFailed)),
    }
}

/// How a new node splits the area that it is inserted in when no direction is chosen.
#[derive(Debug, Clone, Copy, PartialEq, Eq, Structural)]
pub enum Scheme {
    LongestSide,
    Alternate,
    Spiral,
}

impl Scheme {
    /// How the protocol writes this value.
    pub open spec fn spec_text(self) -> Seq<char> {
        match self {
            Scheme::LongestSide => "longest_side"@,
            Scheme::Alternate => "alternate"@,
            Scheme::Spiral => "spiral"@,
        }
    }

    /// The value that a token names, if any.
    pub open spec fn spec_from_text(tok: Seq<char>) -> Option<Scheme> {
        if tok == "longest_side"@ {
            Some(Scheme::LongestSide)
        } else if tok == "alternate"@ {
            Some(Scheme::Alternate)
        } else if tok == "spiral"@ {
            Some(Scheme::Spiral)
        } else {
            None
        }
    }

    /// How the protocol writes this value.
    pub fn as_str(&self) -> (r: &'static str)
        ensures
            r@ == self.spec_text(),
    {
        match self {
            Scheme::LongestSide => "longest_side",
            Scheme::Alternate => "alternate",
            Scheme::Spiral => "spiral",
        }
    }

    /// Reads the token `cs[lo..hi]`.
    pub fn from_chars(cs: &Vec<char>, lo: usize, hi: usize) -> (r: Option<Scheme>)
        requires
            lo <= hi <= cs.len(),
        ensures
            r == Scheme::spec_from_text(cs@.subrange(lo as int, hi as int)),
    {
        if span_is(cs, lo, hi, "longest_side") {
            Some(Scheme::LongestSide)
        } else if span_is(cs, lo, hi, "alternate") {
            Some(Scheme::Alternate)
        } else if span_is(cs, lo, hi, "spiral") {
            Some(Scheme::Spiral)
        } else {
            None
        }
    }

    /// Reads a whole text as a value; any other text is refused.
    pub fn parse(s: &str) -> (r: Result<Scheme, ParseError>)
        ensures
            r == match Scheme::spec_from_text(s@) {
                Some(v) => Ok(v),
                None => Err(ParseError::ConversionFailed),
            },
    {
        let cs = chars_of(s);
        proof {
            assert(cs@.subrange(0, cs@.len() as int) =~= s@);
        }
        match Scheme::from_chars(&cs, 0, cs.len()) {
            Some(v) => Ok(v),
            None => Err(ParseError::ConversionFailed),
        }
    }
}

impl std::str::FromStr for Scheme {
    type Err = ParseError;

    fn from_str(s: &str) -> Result<Scheme, ParseError> {
        Scheme::parse(s)
    }
}

/// Which child a new node becomes.
#[derive(Debug, Clone, Copy, PartialEq, Eq, Structural)]
pub enum Polarity {
    FirstChild,
    SecondChild,
}

impl Polarity {
    /// How the protocol writes this value.
    pub open spec fn spec_text(self) -> Seq<char> {
        match self {
            Polarity::FirstChild => "first_child"@,
            Polarity::SecondChild => "second_child"@,
        }
    }

    /// The value that a token names, if any.
    pub open spec fn spec_from_text(tok: Seq<char>) -> Option<Polarity> {
        if tok == "first_child"@ {
            Some(Polarity::FirstChild)
        } else if tok == "second_child"@ {
            Some(Polarity::SecondChild)
        } else {
            None
        }
    }

    /// How the protocol writes this value.
    pub fn as_str(&self) -> (r: &'static str)
        ensures
            r@ == self.spec_text(),
    {
        match self {
            Polarity::FirstChild => "first_child",
            Polarity::SecondChild => "second_child",
        }
    }

    /// Reads the token `cs[lo..hi]`.
    pub fn from_chars(cs: &Vec<char>, lo: usize, hi: usize) -> (r: Option<Polarity>)
        requires
            lo <= hi <= cs.len(),
        ensures
            r == Polarity::spec_from_text(cs@.subrange(lo as int, hi as int)),
    {
        if span_is(cs, lo, hi, "first_child") {
            Some(Polarity::FirstChild)
        } else if span_is(cs, lo, hi, "second_child") {
            Some(Polarity::SecondChild)
        } else {
            None
        }
    }

    /// Reads a whole text as a value; any other text is refused.
    pub fn parse(s: &str) -> (r: Result<Polarity, ParseError>)
        ensures
            r == match Polarity::spec_from_text(s@) {
                Some(v) => Ok(v),
                None => Err(ParseError::ConversionFailed),
            },
    {
        let cs = chars_of(s);
        proof {
            assert(cs@.subrange(0, cs@.len() as int) =~= s@);
        }
        match Polarity::from_chars(&cs, 0, cs.len()) {
            Some(v) => Ok(v),
            None => Err(ParseError::ConversionFailed),
        }
    }
}

impl std::str::FromStr for Polarity {
    type Err = ParseError;

    fn from_str(s: &str) -> Result<Polarity, ParseError> {
        Polarity::parse(s)
    }
}

/// How tightly directional focus picks its target.
#[derive(Debug, Clone, Copy, PartialEq, Eq, Structural)]
pub enum Tightness {
    High,
    Low,
}

impl Tightness {
    /// How the protocol writes this value.
    pub open spec fn spec_text(self) -> Seq<char> {
        match self {
            Tightness::High => "high"@,
            Tightness::Low => "low"@,
        }
    }

    /// The value that a token names, if any.
    pub open spec fn spec_from_text(tok: Seq<char>) -> Option<Tightness> {
        if tok == "high"@ {
            Some(Tightness::High)
        } else if tok == "low"@ {
            Some(Tightness::Low)
        } else {
            None
        }
    }

    /// How the protocol writes this value.
    pub fn as_str(&self) -> (r: &'static str)
        ensures
            r@ == self.spec_text(),
    {
        match self {
            Tightness::High => "high",
            Tightness::Low => "low",
        }
    }

    /// Reads the token `cs[lo..hi]`.
    pub fn from_chars(cs: &Vec<char>, lo: usize, hi: usize) -> (r: Option<Tightness>)
        requires
            lo <= hi <= cs.len(),
        ensures
            r == Tightness::spec_from_text(cs@.subrange(lo as int, hi as int)),
    {
        if span_is(cs, lo, hi, "high") {
            Some(Tightness::High)
        } else if span_is(cs, lo, hi, "low") {
            Some(Tightness::Low)
        } else {
            None
        }
    }

    /// Reads a whole text as a value; any other text is refused.
    pub fn parse(s: &str) -> (r: Result<Tightness, ParseError>)
        ensures
            r == match Tightness::spec_from_text(s@) {
                Some(v) => Ok(v),
                None => Err(ParseError::ConversionFailed),
            },
    {
        let cs = chars_of(s);
        proof {
            assert(cs@.subrange(0, cs@.len() as int) =~= s@);
        }
        match Tightness::from_chars(&cs, 0, cs.len()) {
            Some(v) => Ok(v),
            None => Err(ParseError::ConversionFailed),
        }
    }
}

impl std::str::FromStr for Tightness {
    type Err = ParseError;

    fn from_str(s: &str) -> Result<Tightness, ParseError> {
        Tightness::parse(s)
    }
}

/// The modifier key of pointer actions.
#[derive(Debug, Clone, Copy, PartialEq, Eq, Structural)]
pub enum PointerModifier {
    Shift,
    Control,
    Lock,
    Mod1,
    Mod2,
    Mod3,
    Mod4,
    Mod5,
}

impl PointerModifier {
    /// How the protocol writes this value.
    pub open spec fn spec_text(self) -> Seq<char> {
        match self {
            PointerModifier::Shift => "shift"@,
            PointerModifier::Control => "control"@,
            PointerModifier::Lock => "lock"@,
            PointerModifier::Mod1 => "mod1"@,
            PointerModifier::Mod2 => "mod2"@,
            PointerModifier::Mod3 => "mod3"@,
            PointerModifier::Mod4 => "mod4"@,
            PointerModifier::Mod5 => "mod5"@,
        }
    }

    /// The value that a token names, if any.
    pub open spec fn spec_from_text(tok: Seq<char>) -> Option<PointerModifier> {
        if tok == "shift"@ {
            Some(PointerModifier::Shift)
        } else if tok == "control"@ {
            Some(PointerModifier::Control)
        } else if tok == "lock"@ {
            Some(PointerModifier::Lock)
        } else if tok == "mod1"@ {
            Some(PointerModifier::Mod1)
        } else if tok == "mod2"@ {
            Some(PointerModifier::Mod2)
        } else if tok == "mod3"@ {
            Some(PointerModifier::Mod3)
        } else if tok == "mod4"@ {
            Some(PointerModifier::Mod4)
        } else if tok == "mod5"@ {
            Some(PointerModifier::Mod5)
        } else {
            None
        }
    }

    /// How the protocol writes this value.
    pub fn as_str(&self) -> (r: &'static str)
        ensures
            r@ == self.spec_text(),
    {
        match self {
            PointerModifier::Shift => "shift",
            PointerModifier::Control => "control",
            PointerModifier::Lock => "lock",
            PointerModifier::Mod1 => "mod1",
            PointerModifier::Mod2 => "mod2",
            PointerModifier::Mod3 => "mod3",
            PointerModifier::Mod4 => "mod4",
            PointerModifier::Mod5 => "mod5",
        }
    }

    /// Reads the token `cs[lo..hi]`.
    pub fn from_chars(cs: &Vec<char>, lo: usize, hi: usize) -> (r: Option<PointerModifier>)
        requires
            lo <= hi <= cs.len(),
        ensures
            r == PointerModifier::spec_from_text(cs@.subrange(lo as int, hi as int)),
    {
        if span_is(cs, lo, hi, "shift") {
            Some(PointerModifier::Shift)
        } else if span_is(cs, lo, hi, "control") {
            Some(PointerModifier::Control)
        } else if span_is(cs, lo, hi, "lock") {
            Some(PointerModifier::Lock)
        } else if span_is(cs, lo, hi, "mod1") {
            Some(PointerModifier::Mod1)
        } else if span_is(cs, lo, hi, "mod2") {
            Some(PointerModifier::Mod2)
        } else if span_is(cs, lo, hi, "mod3") {
            Some(PointerModifier::Mod3)
        } else if span_is(cs, lo, hi, "mod4") {
            Some(PointerModifier::Mod4)
        } else if span_is(cs, lo, hi, "mod5") {
            Some(PointerModifier::Mod5)
        } else {
            None
        }
    }

    /// Reads a whole text as a value; any other text is refused.
    pub fn parse(s: &str) -> (r: Result<PointerModifier, ParseError>)
        ensures
            r == match PointerModifier::spec_from_text(s@) {
                Some(v) => Ok(v),
                None => Err(ParseError::ConversionFailed),
            },
    {
        let cs = chars_of(s);
        proof {
            assert(cs@.subrange(0, cs@.len() as int) =~= s@);
        }
        match PointerModifier::from_chars(&cs, 0, cs.len()) {
            Some(v) => Ok(v),
            None => Err(ParseError::ConversionFailed),
        }
    }
}

impl std::str::FromStr for PointerModifier {
    type Err = ParseError;

    fn from_str(s: &str) -> Result<PointerModifier, ParseError> {
        PointerModifier::parse(s)
    }
}

/// What a pointer button does with the modifier held.
#[derive(Debug, Clone, Copy, PartialEq, Eq, Structural)]
pub enum PointerAction {
    Move,
    ResizeSide,
    ResizeCorner,
    Focus,
    Disabled,
}

impl PointerAction {
    /// How the protocol writes this value.
    pub open spec fn spec_text(self) -> Seq<char> {
        match self {
            PointerAction::Move => "move"@,
            PointerAction::ResizeSide => "resize_side"@,
            PointerAction::ResizeCorner => "resize_corner"@,
            PointerAction::Focus => "focus"@,
            PointerAction::Disabled => "none"@,
        }
    }

    /// The value that a token names, if any.
    pub open spec fn spec_from_text(tok: Seq<char>) -> Option<PointerAction> {
        if tok == "move"@ {
            Some(PointerAction::Move)
        } else if tok == "resize_side"@ {
            Some(PointerAction::ResizeSide)
        } else if tok == "resize_corner"@ {
            Some(PointerAction::ResizeCorner)
        } else if tok == "focus"@ {
            Some(PointerAction::Focus)
        } else if tok == "none"@ {
            Some(PointerAction::Disabled)
        } else {
            None
        }
    }

    /// How the protocol writes this value.
    pub fn as_str(&self) -> (r: &'static str)
        ensures
            r@ == self.spec_text(),
    {
        match self {
            PointerAction::Move => "move",
            PointerAction::ResizeSide => "resize_side",
            PointerAction::ResizeCorner => "resize_corner",
            PointerAction::Focus => "focus",
            PointerAction::Disabled => "none",
        }
    }

    /// Reads the token `cs[lo..hi]`.
    pub fn from_chars(cs: &Vec<char>, lo: usize, hi: usize) -> (r: Option<PointerAction>)
        requires
            lo <= hi <= cs.len(),
        ensures
            r == PointerAction::spec_from_text(cs@.subrange(lo as int, hi as int)),
    {
        if span_is(cs, lo, hi, "move") {
            Some(PointerAction::Move)
        } else if span_is(cs, lo, hi, "resize_side") {
            Some(PointerAction::ResizeSide)
        } else if span_is(cs, lo, hi, "resize_corner") {
            Some(PointerAction::ResizeCorner)
        } else if span_is(cs, lo, hi, "focus") {
            Some(PointerAction::Focus)
        } else if span_is(cs, lo, hi, "none") {
            Some(PointerAction::Disabled)
        } else {
            None
        }
    }

    /// Reads a whole text as a value; any other text is refused.
    pub fn parse(s: &str) -> (r: Result<PointerAction, ParseError>)
        ensures
            r == match PointerAction::spec_from_text(s@) {
                Some(v) => Ok(v),
                None => Err(ParseError::ConversionFailed),
            },
    {
        let cs = chars_of(s);
        proof {
            assert(cs@.subrange(0, cs@.len() as int) =~= s@);
        }
        match PointerAction::from_chars(&cs, 0, cs.len()) {
            Some(v) => Ok(v),
            None => Err(ParseError::ConversionFailed),
        }
    }
}

impl std::str::FromStr for PointerAction {
    type Err = ParseError;

    fn from_str(s: &str) -> Result<PointerAction, ParseError> {
        PointerAction::parse(s)
    }
}

/// Which button click focuses a window.
#[derive(Debug, Clone, Copy, PartialEq, Eq, Structural)]
pub enum ClickToFocus {
    Button1,
    Button2,
    Button3,
    Any,
    Disabled,
}

impl ClickToFocus {
    /// How the protocol writes this value.
    pub open spec fn spec_text(self) -> Seq<char> {
        match self {
            ClickToFocus::Button1 => "button1"@,
            ClickToFocus::Button2 => "button2"@,
            ClickToFocus::Button3 => "button3"@,
            ClickToFocus::Any => "any"@,
            ClickToFocus::Disabled => "none"@,
        }
    }

    /// The value that a token names, if any.
    pub open spec fn spec_from_text(tok: Seq<char>) -> Option<ClickToFocus> {
        if tok == "button1"@ {
            Some(ClickToFocus::Button1)
        } else if tok == "button2"@ {
            Some(ClickToFocus::Button2)
        } else if tok == "button3"@ {
            Some(ClickToFocus::Button3)
        } else if tok == "any"@ {
            Some(ClickToFocus::Any)
        } else if tok == "none"@ {
            Some(ClickToFocus::Disabled)
        } else {
            None
        }
    }

    /// How the protocol writes this value.
    pub fn as_str(&self) -> (r: &'static str)
        ensures
            r@ == self.spec_text(),
    {
        match self {
            ClickToFocus::Button1 => "button1",
            ClickToFocus::Button2 => "button2",
            ClickToFocus::Button3 => "button3",
            ClickToFocus::Any => "any",
            ClickToFocus::Disabled => "none",
        }
    }

    /// Reads the token `cs[lo..hi]`.
    pub fn from_chars(cs: &Vec<char>, lo: usize, hi: usize) -> (r: Option<ClickToFocus>)
        requires
            lo <= hi <= cs.len(),
        ensures
            r == ClickToFocus::spec_from_text(cs@.subrange(lo as int, hi as int)),
    {
        if span_is(cs, lo, hi, "button1") {
            Some(ClickToFocus::Button1)
        } else if span_is(cs, lo, hi, "button2") {
            Some(ClickToFocus::Button2)
        } else if span_is(cs, lo, hi, "button3") {
            Some(ClickToFocus::Button3)
        } else if span_is(cs, lo, hi, "any") {
            Some(ClickToFocus::Any)
        } else if span_is(cs, lo, hi, "none") {
            Some(ClickToFocus::Disabled)
        } else {
            None
        }
    }

    /// Reads a whole text as a value; any other text is refused.
    pub fn parse(s: &str) -> (r: Result<ClickToFocus, ParseError>)
        ensures
            r == match ClickToFocus::spec_from_text(s@) {
                Some(v) => Ok(v),
                None => Err(ParseError::ConversionFailed),
            },
    {
        let cs = chars_of(s);
        proof {
            assert(cs@.subrange(0, cs@.len() as int) =~= s@);
        }
        match ClickToFocus::from_chars(&cs, 0, cs.len()) {
            Some(v) => Ok(v),
            None => Err(ParseError::ConversionFailed),
        }
    }
}

impl std::str::FromStr for ClickToFocus {
    type Err = ParseError;

    fn from_str(s: &str) -> Result<ClickToFocus, ParseError> {
        ClickToFocus::parse(s)
    }
}

/// Reads the setting `normal_border_color`.
pub fn get_normal_border_color<F>(exchange: F) -> (r: Result<String, ReplyError>) where F: FnOnce(String) -> Result<String, ReplyError>
    requires
        forall|req: String| exchange.requires((req,)),
    ensures
        exists|req: String, got: Result<String, ReplyError>|
            {
                &&& req@ == request_text(get_tokens("normal_border_color"@))
                &&& exchange.ensures((req,), got)
                &&& got_line(got, r)
            },
{
    get_config_property("normal_border_color", exchange)
}

/// Reads the setting `active_border_color`.
pub fn get_active_border_color<F>(exchange: F) -> (r: Result<String, ReplyError>) where F: FnOnce(String) -> Result<String, ReplyError>
    requires
        forall|req: String| exchange.requires((req,)),
    ensures
        exists|req: String, got: Result<String, ReplyError>|
            {
                &&& req@ == request_text(get_tokens("active_border_color"@))
                &&& exchange.ensures((req,), got)
                &&& got_line(got, r)
            },
{
    get_config_property("active_border_color", exchange)
}

/// Reads the setting `focused_border_color`.
pub fn get_focused_border_color<F>(exchange: F) -> (r: Result<String, ReplyError>) where F: FnOnce(String) -> Result<String, ReplyError>
    requires
        forall|req: String| exchange.requires((req,)),
    ensures
        exists|req: String, got: Result<String, ReplyError>|
            {
                &&& req@ == request_text(get_tokens("focused_border_color"@))
                &&& exchange.ensures((req,), got)
                &&& got_line(got, r)
            },
{
    get_config_property("focused_border_color", exchange)
}

/// Reads the setting `presel_feedback_color`.
pub fn get_presel_feedback_color<F>(exchange: F) -> (r: Result<String, ReplyError>) where F: FnOnce(String) -> Result<String, ReplyError>
    requires
        forall|req: String| exchange.requires((req,)),
    ensures
        exists|req: String, got: Result<String, ReplyError>|
            {
                &&& req@ == request_text(get_tokens("presel_feedback_color"@))
                &&& exchange.ensures((req,), got)
                &&& got_line(got, r)
            },
{
    get_config_property("presel_feedback_color", exchange)
}

/// Reads the setting `status_prefix`.
pub fn get_status_prefix<F>(exchange: F) -> (r: Result<String, ReplyError>) where F: FnOnce(String) -> Result<String, ReplyError>
    requires
        forall|req: String| exchange.requires((req,)),
    ensures
        exists|req: String, got: Result<String, ReplyError>|
            {
                &&& req@ == request_text(get_tokens("status_prefix"@))
                &&& exchange.ensures((req,), got)
                &&& got_line(got, r)
            },
{
    get_config_property("status_prefix", exchange)
}

/// Reads the setting `external_rules_command`.
pub fn get_external_rules_command<F>(exchange: F) -> (r: Result<String, ReplyError>) where F: FnOnce(String) -> Result<String, ReplyError>
    requires
        forall|req: String| exchange.requires((req,)),
    ensures
        exists|req: String, got: Result<String, ReplyError>|
            {
                &&& req@ == request_text(get_tokens("external_rules_command"@))
                &&& exchange.ensures((req,), got)
                &&& got_line(got, r)
            },
{
    get_config_property("external_rules_command", exchange)
}

/// Reads the setting `automatic_scheme`.
pub fn get_automatic_scheme<F>(exchange: F) -> (r: Result<Scheme, ReplyError>) where F: FnOnce(String) -> Result<String, ReplyError>
    requires
        forall|req: String| exchange.requires((req,)),
    ensures
        exists|req: String, got: Result<String, ReplyError>|
            {
                &&& req@ == request_text(get_tokens("automatic_scheme"@))
                &&& exchange.ensures((req,), got)
                &&& got_value(got, r, |t: Seq<char>| Scheme::spec_from_text(t))
            },
{
    let line = match get_config_property("automatic_scheme", exchange) {
        Ok(line) => line,
        Err(e) => return Err(e),
    };
    match Scheme::parse(line.as_str()) {
        Ok(v) => Ok(v),
        Err(e) => Err(ReplyError::ParseError(e)),
    }
}

/// Reads the setting `initial_polarity`.
pub fn get_initial_polarity<F>(exchange: F) -> (r: Result<Polarity, ReplyError>) where F: FnOnce(String) -> Result<String, ReplyError>
    requires
        forall|req: String| exchange.requires((req,)),
    ensures
        exists|req: String, got: Result<String, ReplyError>|
            {
                &&& req@ == request_text(get_tokens("initial_polarity"@))
                &&& exchange.ensures((req,), got)
                &&& got_value(got, r, |t: Seq<char>| Polarity::spec_from_text(t))
            },
{
    let line = match get_config_property("initial_polarity", exchange) {
        Ok(line) => line,
        Err(e) => return Err(e),
    };
    match Polarity::parse(line.as_str()) {
        Ok(v) => Ok(v),
        Err(e) => Err(ReplyError::ParseError(e)),
    }
}

/// Reads the setting `directional_focus_tightness`.
pub fn get_directional_focus_tightness<F>(exchange: F) -> (r: Result<Tightness, ReplyError>) where F: FnOnce(String) -> Result<String, ReplyError>
    requires
        forall|req: String| exchange.requires((req,)),
    ensures
        exists|req: String, got: Result<String, ReplyError>|
            {
                &&& req@ == request_text(get_tokens("directional_focus_tightness"@))
                &&& exchange.ensures((req,), got)
                &&& got_value(got, r, |t: Seq<char>| Tightness::spec_from_text(t))
            },
{
    let line = match get_config_property("directional_focus_tightness", exchange) {
        Ok(line) => line,
        Err(e) => return Err(e),
    };
    match Tightness::parse(line.as_str()) {
        Ok(v) => Ok(v),
        Err(e) => Err(ReplyError::ParseError(e)),
    }
}

/// Reads the setting `removal_adjustment`.
pub fn get_removal_adjustment<F>(exchange: F) -> (r: Result<bool, ReplyError>) where F: FnOnce(String) -> Result<String, ReplyError>
    requires
        forall|req: String| exchange.requires((req,)),
    ensures
        exists|req: String, got: Result<String, ReplyError>|
            {
                &&& req@ == request_text(get_tokens("removal_adjustment"@))
                &&& exchange.ensures((req,), got)
                &&& got_value(got, r, |t: Seq<char>| bool_of(t))
            },
{
    let line = match get_config_property("removal_adjustment", exchange) {
        Ok(line) => line,
        Err(e) => return Err(e),
    };
    match parse_bool(line.as_str()) {
        Some(v) => Ok(v),
        None => Err(ReplyError::ParseError(ParseError::ConversionFailed)),
    }
}

/// Reads the setting `presel_feedback`.
pub fn get_presel_feedback<F>(exchange: F) -> (r: Result<bool, ReplyError>) where F: FnOnce(String) -> Result<String, ReplyError>
    requires
        forall|req: String| exchange.requires((req,)),
    ensures
        exists|req: String, got: Result<String, ReplyError>|
            {
                &&& req@ == request_text(get_tokens("presel_feedback"@))
                &&& exchange.ensures((req,), got)
                &&& got_value(got, r, |t: Seq<char>| bool_of(t))
            },
{
    let line = match get_config_property("presel_feedback", exchange) {
        Ok(line) => line,
        Err(e) => return Err(e),
    };
    match parse_bool(line.as_str()) {
        Some(v) => Ok(v),
        None => Err(ReplyError::ParseError(ParseError::ConversionFailed)),
    }
}

/// Reads the setting `borderless_monocle`.
pub fn get_borderless_monocle<F>(exchange: F) -> (r: Result<bool, ReplyError>) where F: FnOnce(String) -> Result<String, ReplyError>
    requires
        forall|req: String| exchange.requires((req,)),
    ensures
        exists|req: String, got: Result<String, ReplyError>|
            {
                &&& req@ == request_text(get_tokens("borderless_monocle"@))
                &&& exchange.ensures((req,), got)
                &&& got_value(got, r, |t: Seq<char>| bool_of(t))
            },
{
    let line = match get_config_property("borderless_monocle", exchange) {
        Ok(line) => line,
        Err(e) => return Err(e),
    };
    match parse_bool(line.as_str()) {
        Some(v) => Ok(v),
        None => Err(ReplyError::ParseError(ParseError::ConversionFailed)),
    }
}

/// Reads the setting `gapless_monocle`.
pub fn get_gapless_monocle<F>(exchange: F) -> (r: Result<bool, ReplyError>) where F: FnOnce(String) -> Result<String, ReplyError>
    requires
        forall|req: String| exchange.requires((req,)),
    ensures
        exists|req: String, got: Result<String, ReplyError>|
            {
                &&& req@ == request_text(get_tokens("gapless_monocle"@))
                &&& exchange.ensures((req,), got)
                &&& got_value(got, r, |t: Seq<char>| bool_of(t))
            },
{
    let line = match get_config_property("gapless_monocle", exchange) {
        Ok(line) => line,
        Err(e) => return Err(e),
    };
    match parse_bool(line.as_str()) {
        Some(v) => Ok(v),
        None => Err(ReplyError::ParseError(ParseError::ConversionFailed)),
    }
}

/// Reads the setting `top_monocle_padding`.
pub fn get_top_monocle_padding<F>(exchange: F) -> (r: Result<i16, ReplyError>) where F: FnOnce(String) -> Result<String, ReplyError>
    requires
        forall|req: String| exchange.requires((req,)),
    ensures
        exists|req: String, got: Result<String, ReplyError>|
            {
                &&& req@ == request_text(get_tokens("top_monocle_padding"@))
                &&& exchange.ensures((req,), got)
                &&& got_value(got, r, |t: Seq<char>| i16_of(t))
            },
{
    let line = match get_config_property("top_monocle_padding", exchange) {
        Ok(line) => line,
        Err(e) => return Err(e),
    };
    match parse_integer(line.as_str(), -32768, 32767) {
        Some(v) => Ok(v as i16),
        None => Err(ReplyError::ParseError(ParseError::ConversionFailed)),
    }
}

/// Reads the setting `right_monocle_padding`.
pub fn get_right_monocle_padding<F>(exchange: F) -> (r: Result<i16, ReplyError>) where F: FnOnce(String) -> Result<String, ReplyError>
    requires
        forall|req: String| exchange.requires((req,)),
    ensures
        exists|req: String, got: Result<String, ReplyError>|
            {
                &&& req@ == request_text(get_tokens("right_monocle_padding"@))
                &&& exchange.ensures((req,), got)
                &&& got_value(got, r, |t: Seq<char>| i16_of(t))
            },
{
    let line = match get_config_property("right_monocle_padding", exchange) {
        Ok(line) => line,
        Err(e) => return Err(e),
    };
    match parse_integer(line.as_str(), -32768, 32767) {
        Some(v) => Ok(v as i16),
        None => Err(ReplyError::ParseError(ParseError::ConversionFailed)),
    }
}

/// Reads the setting `bottom_monocle_padding`.
pub fn get_bottom_monocle_padding<F>(exchange: F) -> (r: Result<i16, ReplyError>) where F: FnOnce(String) -> Result<String, ReplyError>
    requires
        forall|req: String| exchange.requires((req,)),
    ensures
        exists|req: String, got: Result<String, ReplyError>|
            {
                &&& req@ == request_text(get_tokens("bottom_monocle_padding"@))
                &&& exchange.ensures((req,), got)
                &&& got_value(got, r, |t: Seq<char>| i16_of(t))
            },
{
    let line = match get_config_property("bottom_monocle_padding", exchange) {
        Ok(line) => line,
        Err(e) => return Err(e),
    };
    match parse_integer(line.as_str(), -32768, 32767) {
        Some(v) => Ok(v as i16),
        None => Err(ReplyError::ParseError(ParseError::ConversionFailed)),
    }
}

/// Reads the setting `left_monocle_padding`.
pub fn get_left_monocle_padding<F>(exchange: F) -> (r: Result<i16, ReplyError>) where F: FnOnce(String) -> Result<String, ReplyError>
    requires
        forall|req: String| exchange.requires((req,)),
    ensures
        exists|req: String, got: Result<String, ReplyError>|
            {
                &&& req@ == request_text(get_tokens("left_monocle_padding"@))
                &&& exchange.ensures((req,), got)
                &&& got_value(got, r, |t: Seq<char>| i16_of(t))
            },
{
    let line = match get_config_property("left_monocle_padding", exchange) {
        Ok(line) => line,
        Err(e) => return Err(e),
    };
    match parse_integer(line.as_str(), -32768, 32767) {
        Some(v) => Ok(v as i16),
        None => Err(ReplyError::ParseError(ParseError::ConversionFailed)),
    }
}

/// Reads the setting `single_monocle`.
pub fn get_single_monocle<F>(exchange: F) -> (r: Result<bool, ReplyError>) where F: FnOnce(String) -> Result<String, ReplyError>
    requires
        forall|req: String| exchange.requires((req,)),
    ensures
        exists|req: String, got: Result<String, ReplyError>|
            {
                &&& req@ == request_text(get_tokens("single_monocle"@))
                &&& exchange.ensures((req,), got)
                &&& got_value(got, r, |t: Seq<char>| bool_of(t))
            },
{
    let line = match get_config_property("single_monocle", exchange) {
        Ok(line) => line,
        Err(e) => return Err(e),
    };
    match parse_bool(line.as_str()) {
        Some(v) => Ok(v),
        None => Err(ReplyError::ParseError(ParseError::ConversionFailed)),
    }
}

/// Reads the setting `pointer_motion_interval`.
pub fn get_pointer_motion_interval<F>(exchange: F) -> (r: Result<u16, ReplyError>) where F: FnOnce(String) -> Result<String, ReplyError>
    requires
        forall|req: String| exchange.requires((req,)),
    ensures
        exists|req: String, got: Result<String, ReplyError>|
            {
                &&& req@ == request_text(get_tokens("pointer_motion_interval"@))
                &&& exchange.ensures((req,), got)
                &&& got_value(got, r, |t: Seq<char>| u16_of(t))
            },
{
    let line = match get_config_property("pointer_motion_interval", exchange) {
        Ok(line) => line,
        Err(e) => return Err(e),
    };
    match parse_integer(line.as_str(), 0, 65535) {
        Some(v) => Ok(v as u16),
        None => Err(ReplyError::ParseError(ParseError::ConversionFailed)),
    }
}

/// Reads the setting `pointer_modifier`.
pub fn get_pointer_modifier<F>(exchange: F) -> (r: Result<PointerModifier, ReplyError>) where F: FnOnce(String) -> Result<String, ReplyError>
    requires
        forall|req: String| exchange.requires((req,)),
    ensures
        exists|req: String, got: Result<String, ReplyError>|
            {
                &&& req@ == request_text(get_tokens("pointer_modifier"@))
                &&& exchange.ensures((req,), got)
                &&& got_value(got, r, |t: Seq<char>| PointerModifier::spec_from_text(t))
            },
{
    let line = match get_config_property("pointer_modifier", exchange) {
        Ok(line) => line,
        Err(e) => return Err(e),
    };
    match PointerModifier::parse(line.as_str()) {
        Ok(v) => Ok(v),
        Err(e) => Err(ReplyError::ParseError(e)),
    }
}

/// Reads the setting `pointer_action1`.
pub fn get_pointer_action1<F>(exchange: F) -> (r: Result<PointerAction, ReplyError>) where F: FnOnce(String) -> Result<String, ReplyError>
    requires
        forall|req: String| exchange.requires((req,)),
    ensures
        exists|req: String, got: Result<String, ReplyError>|
            {
                &&& req@ == request_text(get_tokens("pointer_action1"@))
                &&& exchange.ensures((req,), got)
                &&& got_value(got, r, |t: Seq<char>| PointerAction::spec_from_text(t))
            },
{
    let line = match get_config_property("pointer_action1", exchange) {
        Ok(line) => line,
        Err(e) => return Err(e),
    };
    match PointerAction::parse(line.as_str()) {
        Ok(v) => Ok(v),
        Err(e) => Err(ReplyError::ParseError(e)),
    }
}

/// Reads the setting `pointer_action2`.
pub fn get_pointer_action2<F>(exchange: F) -> (r: Result<PointerAction, ReplyError>) where F: FnOnce(String) -> Result<String, ReplyError>
    requires
        forall|req: String| exchange.requires((req,)),
    ensures
        exists|req: String, got: Result<String, ReplyError>|
            {
                &&& req@ == request_text(get_tokens("pointer_action2"@))
                &&& exchange.ensures((req,), got)
                &&& got_value(got, r, |t: Seq<char>| PointerAction::spec_from_text(t))
            },
{
    let line = match get_config_property("pointer_action2", exchange) {
        Ok(line) => line,
        Err(e) => return Err(e),
    };
    match PointerAction::parse(line.as_str()) {
        Ok(v) => Ok(v),
        Err(e) => Err(ReplyError::ParseError(e)),
    }
}

/// Reads the setting `pointer_action3`.
pub fn get_pointer_action3<F>(exchange: F) -> (r: Result<PointerAction, ReplyError>) where F: FnOnce(String) -> Result<String, ReplyError>
    requires
        forall|req: String| exchange.requires((req,)),
    ensures
        exists|req: String, got: Result<String, ReplyError>|
            {
                &&& req@ == request_text(get_tokens("pointer_action3"@))
                &&& exchange.ensures((req,), got)
                &&& got_value(got, r, |t: Seq<char>| PointerAction::spec_from_text(t))
            },
{
    let line = match get_config_property("pointer_action3", exchange) {
        Ok(line) => line,
        Err(e) => return Err(e),
    };
    match PointerAction::parse(line.as_str()) {
        Ok(v) => Ok(v),
        Err(e) => Err(ReplyError::ParseError(e)),
    }
}

/// Reads the setting `click_to_focus`.
pub fn get_click_to_focus<F>(exchange: F) -> (r: Result<ClickToFocus, ReplyError>) where F: FnOnce(String) -> Result<String, ReplyError>
    requires
        forall|req: String| exchange.requires((req,)),
    ensures
        exists|req: String, got: Result<String, ReplyError>|
            {
                &&& req@ == request_text(get_tokens("click_to_focus"@))
                &&& exchange.ensures((req,), got)
                &&& got_value(got, r, |t: Seq<char>| ClickToFocus::spec_from_text(t))
            },
{
    let line = match get_config_property("click_to_focus", exchange) {
        Ok(line) => line,
        Err(e) => return Err(e),
    };
    match ClickToFocus::parse(line.as_str()) {
        Ok(v) => Ok(v),
        Err(e) => Err(ReplyError::ParseError(e)),
    }
}

/// Reads the setting `swallow_first_click`.
pub fn get_swallow_first_click<F>(exchange: F) -> (r: Result<bool, ReplyError>) where F: FnOnce(String) -> Result<String, ReplyError>
    requires
        forall|req: String| exchange.requires((req,)),
    ensures
        exists|req: String, got: Result<String, ReplyError>|
            {
                &&& req@ == request_text(get_tokens("swallow_first_click"@))
                &&& exchange.ensures((req,), got)
                &&& got_value(got, r, |t: Seq<char>| bool_of(t))
            },
{
    let line = match get_config_property("swallow_first_click", exchange) {
        Ok(line) => line,
        Err(e) => return Err(e),
    };
    match parse_bool(line.as_str()) {
        Some(v) => Ok(v),
        None => Err(ReplyError::ParseError(ParseError::ConversionFailed)),
    }
}

/// Reads the setting `focus_follows_pointer`.
pub fn get_focus_follows_pointer<F>(exchange: F) -> (r: Result<bool, ReplyError>) where F: FnOnce(String) -> Result<String, ReplyError>
    requires
        forall|req: String| exchange.requires((req,)),
    ensures
        exists|req: String, got: Result<String, ReplyError>|
            {
                &&& req@ == request_text(get_tokens("focus_follows_pointer"@))
                &&& exchange.ensures((req,), got)
                &&& got_value(got, r, |t: Seq<char>| bool_of(t))
            },
{
    let line = match get_config_property("focus_follows_pointer", exchange) {
        Ok(line) => line,
        Err(e) => return Err(e),
    };
    match parse_bool(line.as_str()) {
        Some(v) => Ok(v),
        None => Err(ReplyError::ParseError(ParseError::ConversionFailed)),
    }
}

/// Reads the setting `pointer_follows_focus`.
pub fn get_pointer_follows_focus<F>(exchange: F) -> (r: Result<bool, ReplyError>) where F: FnOnce(String) -> Result<String, ReplyError>
    requires
        forall|req: String| exchange.requires((req,)),
    ensures
        exists|req: String, got: Result<String, ReplyError>|
            {
                &&& req@ == request_text(get_tokens("pointer_follows_focus"@))
                &&& exchange.ensures((req,), got)
                &&& got_value(got, r, |t: Seq<char>| bool_of(t))
            },
{
    let line = match get_config_property("pointer_follows_focus", exchange) {
        Ok(line) => line,
        Err(e) => return Err(e),
    };
    match parse_bool(line.as_str()) {
        Some(v) => Ok(v),
        None => Err(ReplyError::ParseError(ParseError::ConversionFailed)),
    }
}

/// Reads the setting `pointer_follows_monitor`.
pub fn get_pointer_follows_monitor<F>(exchange: F) -> (r: Result<bool, ReplyError>) where F: FnOnce(String) -> Result<String, ReplyError>
    requires
        forall|req: String| exchange.requires((req,)),
    ensures
        exists|req: String, got: Result<String, ReplyError>|
            {
                &&& req@ == request_text(get_tokens("pointer_follows_monitor"@))
                &&& exchange.ensures((req,), got)
                &&& got_value(got, r, |t: Seq<char>| bool_of(t))
            },
{
    let line = match get_config_property("pointer_follows_monitor", exchange) {
        Ok(line) => line,
        Err(e) => return Err(e),
    };
    match parse_bool(line.as_str()) {
        Some(v) => Ok(v),
        None => Err(ReplyError::ParseError(ParseError::ConversionFailed)),
    }
}

/// Reads the setting `mapping_events_count`.
pub fn get_mapping_events_count<F>(exchange: F) -> (r: Result<i32, ReplyError>) where F: FnOnce(String) -> Result<String, ReplyError>
    requires
        forall|req: String| exchange.requires((req,)),
    ensures
        exists|req: String, got: Result<String, ReplyError>|
            {
                &&& req@ == request_text(get_tokens("mapping_events_count"@))
                &&& exchange.ensures((req,), got)
                &&& got_value(got, r, |t: Seq<char>| i32_of(t))
            },
{
    let line = match get_config_property("mapping_events_count", exchange) {
        Ok(line) => line,
        Err(e) => return Err(e),
    };
    match parse_integer(line.as_str(), -2147483648, 2147483647) {
        Some(v) => Ok(v as i32),
        None => Err(ReplyError::ParseError(ParseError::ConversionFailed)),
    }
}

/// Reads the setting `ignore_ewmh_focus`.
pub fn get_ignore_ewmh_focus<F>(exchange: F) -> (r: Result<bool, ReplyError>) where F: FnOnce(String) -> Result<String, ReplyError>
    requires
        forall|req: String| exchange.requires((req,)),
    ensures
        exists|req: String, got: Result<String, ReplyError>|
            {
                &&& req@ == request_text(get_tokens("ignore_ewmh_focus"@))
                &&& exchange.ensures((req,), got)
                &&& got_value(got, r, |t: Seq<char>| bool_of(t))
            },
{
    let line = match get_config_property("ignore_ewmh_focus", exchange) {
        Ok(line) => line,
        Err(e) => return Err(e),
    };
    match parse_bool(line.as_str()) {
        Some(v) => Ok(v),
        None => Err(ReplyError::ParseError(ParseError::ConversionFailed)),
    }
}

/// Reads the setting `ignore_ewmh_fullscreen`.
pub fn get_ignore_ewmh_fullscreen<F>(exchange: F) -> (r: Result<bool, ReplyError>) where F: FnOnce(String) -> Result<String, ReplyError>
    requires
        forall|req: String| exchange.requires((req,)),
    ensures
        exists|req: String, got: Result<String, ReplyError>|
            {
                &&& req@ == request_text(get_tokens("ignore_ewmh_fullscreen"@))
                &&& exchange.ensures((req,), got)
                &&& got_value(got, r, |t: Seq<char>| bool_of(t))
            },
{
    let line = match get_config_property("ignore_ewmh_fullscreen", exchange) {
        Ok(line) => line,
        Err(e) => return Err(e),
    };
    match parse_bool(line.as_str()) {
        Some(v) => Ok(v),
        None => Err(ReplyError::ParseError(ParseError::ConversionFailed)),
    }
}

/// Reads the setting `ignore_ewmh_struts`.
pub fn get_ignore_ewmh_struts<F>(exchange: F) -> (r: Result<bool, ReplyError>) where F: FnOnce(String) -> Result<String, ReplyError>
    requires
        forall|req: String| exchange.requires((req,)),
    ensures
        exists|req: String, got: Result<String, ReplyError>|
            {
                &&& req@ == request_text(get_tokens("ignore_ewmh_struts"@))
                &&& exchange.ensures((req,), got)
                &&& got_value(got, r, |t: Seq<char>| bool_of(t))
            },
{
    let line = match get_config_property("ignore_ewmh_struts", exchange) {
        Ok(line) => line,
        Err(e) => return Err(e),
    };
    match parse_bool(line.as_str()) {
        Some(v) => Ok(v),
        None => Err(ReplyError::ParseError(ParseError::ConversionFailed)),
    }
}

/// Reads the setting `center_pseudo_tiled`.
pub fn get_center_pseudo_tiled<F>(exchange: F) -> (r: Result<bool, ReplyError>) where F: FnOnce(String) -> Result<String, ReplyError>
    requires
        forall|req: String| exchange.requires((req,)),
    ensures
        exists|req: String, got: Result<String, ReplyError>|
            {
                &&& req@ == request_text(get_tokens("center_pseudo_tiled"@))
                &&& exchange.ensures((req,), got)
                &&& got_value(got, r, |t: Seq<char>| bool_of(t))
            },
{
    let line = match get_config_property("center_pseudo_tiled", exchange) {
        Ok(line) => line,
        Err(e) => return Err(e),
    };
    match parse_bool(line.as_str()) {
        Some(v) => Ok(v),
        None => Err(ReplyError::ParseError(ParseError::ConversionFailed)),
    }
}

/// Reads the setting `honor_size_hints`.
pub fn get_honor_size_hints<F>(exchange: F) -> (r: Result<bool, ReplyError>) where F: FnOnce(String) -> Result<String, ReplyError>
    requires
        forall|req: String| exchange.requires((req,)),
    ensures
        exists|req: String, got: Result<String, ReplyError>|
            {
                &&& req@ == request_text(get_tokens("honor_size_hints"@))
                &&& exchange.ensures((req,), got)
                &&& got_value(got, r, |t: Seq<char>| bool_of(t))
            },
{
    let line = match get_config_property("honor_size_hints", exchange) {
        Ok(line) => line,
        Err(e) => return Err(e),
    };
    match parse_bool(line.as_str()) {
        Some(v) => Ok(v),
        None => Err(ReplyError::ParseError(ParseError::ConversionFailed)),
    }
}

/// Reads the setting `remove_disabled_monitors`.
pub fn get_remove_disabled_monitors<F>(exchange: F) -> (r: Result<bool, ReplyError>) where F: FnOnce(String) -> Result<String, ReplyError>
    requires
        forall|req: String| exchange.requires((req,)),
    ensures
        exists|req: String, got: Result<String, ReplyError>|
            {
                &&& req@ == request_text(get_tokens("remove_disabled_monitors"@))
                &&& exchange.ensures((req,), got)
                &&& got_value(got, r, |t: Seq<char>| bool_of(t))
            },
{
    let line = match get_config_property("remove_disabled_monitors", exchange) {
        Ok(line) => line,
        Err(e) => return Err(e),
    };
    match parse_bool(line.as_str()) {
        Some(v) => Ok(v),
        None => Err(ReplyError::ParseError(ParseError::ConversionFailed)),
    }
}

/// Reads the setting `remove_unplugged_monitors`.
pub fn get_remove_unplugged_monitors<F>(exchange: F) -> (r: Result<bool, ReplyError>) where F: FnOnce(String) -> Result<String, ReplyError>
    requires
        forall|req: String| exchange.requires((req,)),
    ensures
        exists|req: String, got: Result<String, ReplyError>|
            {
                &&& req@ == request_text(get_tokens("remove_unplugged_monitors"@))
                &&& exchange.ensures((req,), got)
                &&& got_value(got, r, |t: Seq<char>| bool_of(t))
            },
{
    let line = match get_config_property("remove_unplugged_monitors", exchange) {
        Ok(line) => line,
        Err(e) => return Err(e),
    };
    match parse_bool(line.as_str()) {
        Some(v) => Ok(v),
        None => Err(ReplyError::ParseError(ParseError::ConversionFailed)),
    }
}

/// Reads the setting `merge_overlapping_monitors`.
pub fn get_merge_overlapping_monitors<F>(exchange: F) -> (r: Result<bool, ReplyError>) where F: FnOnce(String) -> Result<String, ReplyError>
    requires
        forall|req: String| exchange.requires((req,)),
    ensures
        exists|req: String, got: Result<String, ReplyError>|
            {
                &&& req@ == request_text(get_tokens("merge_overlapping_monitors"@))
                &&& exchange.ensures((req,), got)
                &&& got_value(got, r, |t: Seq<char>| bool_of(t))
            },
{
    let line = match get_config_property("merge_overlapping_monitors", exchange) {
        Ok(line) => line,
        Err(e) => return Err(e),
    };
    match parse_bool(line.as_str()) {
        Some(v) => Ok(v),
        None => Err(ReplyError::ParseError(ParseError::ConversionFailed)),
    }
}

/// Changes the setting `normal_border_color`.
pub fn set_normal_border_color<F>(value: String, exchange: F) -> (r: Result<(), ReplyError>) where F: FnOnce(String) -> Result<String, ReplyError>
    requires
        forall|req: String| exchange.requires((req,)),
    ensures
        exists|req: String, got: Result<String, ReplyError>|
            {
                &&& req@ == request_text(set_tokens(None, None, None, "normal_border_color"@, value@))
                &&& exchange.ensures((req,), got)
                &&& got_done(got, r)
            },
{
    set_config_property(None, None, None, "normal_border_color", value, exchange)
}

/// Changes the setting `active_border_color`.
pub fn set_active_border_color<F>(value: String, exchange: F) -> (r: Result<(), ReplyError>) where F: FnOnce(String) -> Result<String, ReplyError>
    requires
        forall|req: String| exchange.requires((req,)),
    ensures
        exists|req: String, got: Result<String, ReplyError>|
            {
                &&& req@ == request_text(set_tokens(None, None, None, "active_border_color"@, value@))
                &&& exchange.ensures((req,), got)
                &&& got_done(got, r)
            },
{
    set_config_property(None, None, None, "active_border_color", value, exchange)
}

/// Changes the setting `focused_border_color`.
pub fn set_focused_border_color<F>(value: String, exchange: F) -> (r: Result<(), ReplyError>) where F: FnOnce(String) -> Result<String, ReplyError>
    requires
        forall|req: String| exchange.requires((req,)),
    ensures
        exists|req: String, got: Result<String, ReplyError>|
            {
                &&& req@ == request_text(set_tokens(None, None, None, "focused_border_color"@, value@))
                &&& exchange.ensures((req,), got)
                &&& got_done(got, r)
            },
{
    set_config_property(None, None, None, "focused_border_color", value, exchange)
}

/// Changes the setting `presel_feedback_color`.
pub fn set_presel_feedback_color<F>(value: String, exchange: F) -> (r: Result<(), ReplyError>) where F: FnOnce(String) -> Result<String, ReplyError>
    requires
        forall|req: String| exchange.requires((req,)),
    ensures
        exists|req: String, got: Result<String, ReplyError>|
            {
                &&& req@ == request_text(set_tokens(None, None, None, "presel_feedback_color"@, value@))
                &&& exchange.ensures((req,), got)
                &&& got_done(got, r)
            },
{
    set_config_property(None, None, None, "presel_feedback_color", value, exchange)
}

/// Changes the setting `status_prefix`.
pub fn set_status_prefix<F>(value: String, exchange: F) -> (r: Result<(), ReplyError>) where F: FnOnce(String) -> Result<String, ReplyError>
    requires
        forall|req: String| exchange.requires((req,)),
    ensures
        exists|req: String, got: Result<String, ReplyError>|
            {
                &&& req@ == request_text(set_tokens(None, None, None, "status_prefix"@, value@))
                &&& exchange.ensures((req,), got)
                &&& got_done(got, r)
            },
{
    set_config_property(None, None, None, "status_prefix", value, exchange)
}

/// Changes the setting `external_rules_command`.
pub fn set_external_rules_command<F>(value: String, exchange: F) -> (r: Result<(), ReplyError>) where F: FnOnce(String) -> Result<String, ReplyError>
    requires
        forall|req: String| exchange.requires((req,)),
    ensures
        exists|req: String, got: Result<String, ReplyError>|
            {
                &&& req@ == request_text(set_tokens(None, None, None, "external_rules_command"@, value@))
                &&& exchange.ensures((req,), got)
                &&& got_done(got, r)
            },
{
    set_config_property(None, None, None, "external_rules_command", value, exchange)
}

/// Changes the setting `automatic_scheme`.
pub fn set_automatic_scheme<F>(value: Scheme, exchange: F) -> (r: Result<(), ReplyError>) where F: FnOnce(String) -> Result<String, ReplyError>
    requires
        forall|req: String| exchange.requires((req,)),
    ensures
        exists|req: String, got: Result<String, ReplyError>|
            {
                &&& req@ == request_text(set_tokens(None, None, None, "automatic_scheme"@, value.spec_text()))
                &&& exchange.ensures((req,), got)
                &&& got_done(got, r)
            },
{
    set_config_property(None, None, None, "automatic_scheme", value.as_str().to_owned(), exchange)
}

/// Changes the setting `initial_polarity`.
pub fn set_initial_polarity<F>(value: Polarity, exchange: F) -> (r: Result<(), ReplyError>) where F: FnOnce(String) -> Result<String, ReplyError>
    requires
        forall|req: String| exchange.requires((req,)),
    ensures
        exists|req: String, got: Result<String, ReplyError>|
            {
                &&& req@ == request_text(set_tokens(None, None, None, "initial_polarity"@, value.spec_text()))
                &&& exchange.ensures((req,), got)
                &&& got_done(got, r)
            },
{
    set_config_property(None, None, None, "initial_polarity", value.as_str().to_owned(), exchange)
}

/// Changes the setting `directional_focus_tightness`.
pub fn set_directional_focus_tightness<F>(value: Tightness, exchange: F) -> (r: Result<(), ReplyError>) where F: FnOnce(String) -> Result<String, ReplyError>
    requires
        forall|req: String| exchange.requires((req,)),
    ensures
        exists|req: String, got: Result<String, ReplyError>|
            {
                &&& req@ == request_text(set_tokens(None, None, None, "directional_focus_tightness"@, value.spec_text()))
                &&& exchange.ensures((req,), got)
                &&& got_done(got, r)
            },
{
    set_config_property(None, None, None, "directional_focus_tightness", value.as_str().to_owned(), exchange)
}

/// Changes the setting `removal_adjustment`.
pub fn set_removal_adjustment<F>(value: bool, exchange: F) -> (r: Result<(), ReplyError>) where F: FnOnce(String) -> Result<String, ReplyError>
    requires
        forall|req: String| exchange.requires((req,)),
    ensures
        exists|req: String, got: Result<String, ReplyError>|
            {
                &&& req@ == request_text(set_tokens(None, None, None, "removal_adjustment"@, bool_text(value)))
                &&& exchange.ensures((req,), got)
                &&& got_done(got, r)
            },
{
    set_config_property(None, None, None, "removal_adjustment", bool_str(value).to_owned(), exchange)
}

/// Changes the setting `presel_feedback`.
pub fn set_presel_feedback<F>(value: bool, exchange: F) -> (r: Result<(), ReplyError>) where F: FnOnce(String) -> Result<String, ReplyError>
    requires
        forall|req: String| exchange.requires((req,)),
    ensures
        exists|req: String, got: Result<String, ReplyError>|
            {
                &&& req@ == request_text(set_tokens(None, None, None, "presel_feedback"@, bool_text(value)))
                &&& exchange.ensures((req,), got)
                &&& got_done(got, r)
            },
{
    set_config_property(None, None, None, "presel_feedback", bool_str(value).to_owned(), exchange)
}

/// Changes the setting `borderless_monocle`.
pub fn set_borderless_monocle<F>(value: bool, exchange: F) -> (r: Result<(), ReplyError>) where F: FnOnce(String) -> Result<String, ReplyError>
    requires
        forall|req: String| exchange.requires((req,)),
    ensures
        exists|req: String, got: Result<String, ReplyError>|
            {
                &&& req@ == request_text(set_tokens(None, None, None, "borderless_monocle"@, bool_text(value)))
                &&& exchange.ensures((req,), got)
                &&& got_done(got, r)
            },
{
    set_config_property(None, None, None, "borderless_monocle", bool_str(value).to_owned(), exchange)
}

/// Changes the setting `gapless_monocle`.
pub fn set_gapless_monocle<F>(value: bool, exchange: F) -> (r: Result<(), ReplyError>) where F: FnOnce(String) -> Result<String, ReplyError>
    requires
        forall|req: String| exchange.requires((req,)),
    ensures
        exists|req: String, got: Result<String, ReplyError>|
            {
                &&& req@ == request_text(set_tokens(None, None, None, "gapless_monocle"@, bool_text(value)))
                &&& exchange.ensures((req,), got)
                &&& got_done(got, r)
            },
{
    set_config_property(None, None, None, "gapless_monocle", bool_str(value).to_owned(), exchange)
}

/// Changes the setting `top_monocle_padding`.
pub fn set_top_monocle_padding<F>(value: i16, exchange: F) -> (r: Result<(), ReplyError>) where F: FnOnce(String) -> Result<String, ReplyError>
    requires
        forall|req: String| exchange.requires((req,)),
    ensures
        exists|req: String, got: Result<String, ReplyError>|
            {
                &&& req@ == request_text(set_tokens(None, None, None, "top_monocle_padding"@, int_text(value as int)))
                &&& exchange.ensures((req,), got)
                &&& got_done(got, r)
            },
{
    set_config_property(None, None, None, "top_monocle_padding", int_to_text(value as i64), exchange)
}

/// Changes the setting `right_monocle_padding`.
pub fn set_right_monocle_padding<F>(value: i16, exchange: F) -> (r: Result<(), ReplyError>) where F: FnOnce(String) -> Result<String, ReplyError>
    requires
        forall|req: String| exchange.requires((req,)),
    ensures
        exists|req: String, got: Result<String, ReplyError>|
            {
                &&& req@ == request_text(set_tokens(None, None, None, "right_monocle_padding"@, int_text(value as int)))
                &&& exchange.ensures((req,), got)
                &&& got_done(got, r)
            },
{
    set_config_property(None, None, None, "right_monocle_padding", int_to_text(value as i64), exchange)
}

/// Changes the setting `bottom_monocle_padding`.
pub fn set_bottom_monocle_padding<F>(value: i16, exchange: F) -> (r: Result<(), ReplyError>) where F: FnOnce(String) -> Result<String, ReplyError>
    requires
        forall|req: String| exchange.requires((req,)),
    ensures
        exists|req: String, got: Result<String, ReplyError>|
            {
                &&& req@ == request_text(set_tokens(None, None, None, "bottom_monocle_padding"@, int_text(value as int)))
                &&& exchange.ensures((req,), got)
                &&& got_done(got, r)
            },
{
    set_config_property(None, None, None, "bottom_monocle_padding", int_to_text(value as i64), exchange)
}

/// Changes the setting `left_monocle_padding`.
pub fn set_left_monocle_padding<F>(value: i16, exchange: F) -> (r: Result<(), ReplyError>) where F: FnOnce(String) -> Result<String, ReplyError>
    requires
        forall|req: String| exchange.requires((req,)),
    ensures
        exists|req: String, got: Result<String, ReplyError>|
            {
                &&& req@ == request_text(set_tokens(None, None, None, "left_monocle_padding"@, int_text(value as int)))
                &&& exchange.ensures((req,), got)
                &&& got_done(got, r)
            },
{
    set_config_property(None, None, None, "left_monocle_padding", int_to_text(value as i64), exchange)
}

/// Changes the setting `single_monocle`.
pub fn set_single_monocle<F>(value: bool, exchange: F) -> (r: Result<(), ReplyError>) where F: FnOnce(String) -> Result<String, ReplyError>
    requires
        forall|req: String| exchange.requires((req,)),
    ensures
        exists|req: String, got: Result<String, ReplyError>|
            {
                &&& req@ == request_text(set_tokens(None, None, None, "single_monocle"@, bool_text(value)))
                &&& exchange.ensures((req,), got)
                &&& got_done(got, r)
            },
{
    set_config_property(None, None, None, "single_monocle", bool_str(value).to_owned(), exchange)
}

/// Changes the setting `pointer_motion_interval`.
pub fn set_pointer_motion_interval<F>(value: u16, exchange: F) -> (r: Result<(), ReplyError>) where F: FnOnce(String) -> Result<String, ReplyError>
    requires
        forall|req: String| exchange.requires((req,)),
    ensures
        exists|req: String, got: Result<String, ReplyError>|
            {
                &&& req@ == request_text(set_tokens(None, None, None, "pointer_motion_interval"@, int_text(value as int)))
                &&& exchange.ensures((req,), got)
                &&& got_done(got, r)
            },
{
    set_config_property(None, None, None, "pointer_motion_interval", int_to_text(value as i64), exchange)
}

/// Changes the setting `pointer_modifier`.
pub fn set_pointer_modifier<F>(value: PointerModifier, exchange: F) -> (r: Result<(), ReplyError>) where F: FnOnce(String) -> Result<String, ReplyError>
    requires
        forall|req: String| exchange.requires((req,)),
    ensures
        exists|req: String, got: Result<String, ReplyError>|
            {
                &&& req@ == request_text(set_tokens(None, None, None, "pointer_modifier"@, value.spec_text()))
                &&& exchange.ensures((req,), got)
                &&& got_done(got, r)
            },
{
    set_config_property(None, None, None, "pointer_modifier", value.as_str().to_owned(), exchange)
}

/// Changes the setting `pointer_action1`.
pub fn set_pointer_action1<F>(value: PointerAction, exchange: F) -> (r: Result<(), ReplyError>) where F: FnOnce(String) -> Result<String, ReplyError>
    requires
        forall|req: String| exchange.requires((req,)),
    ensures
        exists|req: String, got: Result<String, ReplyError>|
            {
                &&& req@ == request_text(set_tokens(None, None, None, "pointer_action1"@, value.spec_text()))
                &&& exchange.ensures((req,), got)
                &&& got_done(got, r)
            },
{
    set_config_property(None, None, None, "pointer_action1", value.as_str().to_owned(), exchange)
}

/// Changes the setting `pointer_action2`.
pub fn set_pointer_action2<F>(value: PointerAction, exchange: F) -> (r: Result<(), ReplyError>) where F: FnOnce(String) -> Result<String, ReplyError>
    requires
        forall|req: String| exchange.requires((req,)),
    ensures
        exists|req: String, got: Result<String, ReplyError>|
            {
                &&& req@ == request_text(set_tokens(None, None, None, "pointer_action2"@, value.spec_text()))
                &&& exchange.ensures((req,), got)
                &&& got_done(got, r)
            },
{
    set_config_property(None, None, None, "pointer_action2", value.as_str().to_owned(), exchange)
}

/// Changes the setting `pointer_action3`.
pub fn set_pointer_action3<F>(value: PointerAction, exchange: F) -> (r: Result<(), ReplyError>) where F: FnOnce(String) -> Result<String, ReplyError>
    requires
        forall|req: String| exchange.requires((req,)),
    ensures
        exists|req: String, got: Result<String, ReplyError>|
            {
                &&& req@ == request_text(set_tokens(None, None, None, "pointer_action3"@, value.spec_text()))
                &&& exchange.ensures((req,), got)
                &&& got_done(got, r)
            },
{
    set_config_property(None, None, None, "pointer_action3", value.as_str().to_owned(), exchange)
}

/// Changes the setting `click_to_focus`.
pub fn set_click_to_focus<F>(value: ClickToFocus, exchange: F) -> (r: Result<(), ReplyError>) where F: FnOnce(String) -> Result<String, ReplyError>
    requires
        forall|req: String| exchange.requires((req,)),
    ensures
        exists|req: String, got: Result<String, ReplyError>|
            {
                &&& req@ == request_text(set_tokens(None, None, None, "click_to_focus"@, value.spec_text()))
                &&& exchange.ensures((req,), got)
                &&& got_done(got, r)
            },
{
    set_config_property(None, None, None, "click_to_focus", value.as_str().to_owned(), exchange)
}

/// Changes the setting `swallow_first_click`.
pub fn set_swallow_first_click<F>(value: bool, exchange: F) -> (r: Result<(), ReplyError>) where F: FnOnce(String) -> Result<String, ReplyError>
    requires
        forall|req: String| exchange.requires((req,)),
    ensures
        exists|req: String, got: Result<String, ReplyError>|
            {
                &&& req@ == request_text(set_tokens(None, None, None, "swallow_first_click"@, bool_text(value)))
                &&& exchange.ensures((req,), got)
                &&& got_done(got, r)
            },
{
    set_config_property(None, None, None, "swallow_first_click", bool_str(value).to_owned(), exchange)
}

/// Changes the setting `focus_follows_pointer`.
pub fn set_focus_follows_pointer<F>(value: bool, exchange: F) -> (r: Result<(), ReplyError>) where F: FnOnce(String) -> Result<String, ReplyError>
    requires
        forall|req: String| exchange.requires((req,)),
    ensures
        exists|req: String, got: Result<String, ReplyError>|
            {
                &&& req@ == request_text(set_tokens(None, None, None, "focus_follows_pointer"@, bool_text(value)))
                &&& exchange.ensures((req,), got)
                &&& got_done(got, r)
            },
{
    set_config_property(None, None, None, "focus_follows_pointer", bool_str(value).to_owned(), exchange)
}

/// Changes the setting `pointer_follows_focus`.
pub fn set_pointer_follows_focus<F>(value: bool, exchange: F) -> (r: Result<(), ReplyError>) where F: FnOnce(String) -> Result<String, ReplyError>
    requires
        forall|req: String| exchange.requires((req,)),
    ensures
        exists|req: String, got: Result<String, ReplyError>|
            {
                &&& req@ == request_text(set_tokens(None, None, None, "pointer_follows_focus"@, bool_text(value)))
                &&& exchange.ensures((req,), got)
                &&& got_done(got, r)
            },
{
    set_config_property(None, None, None, "pointer_follows_focus", bool_str(value).to_owned(), exchange)
}

/// Changes the setting `pointer_follows_monitor`.
pub fn set_pointer_follows_monitor<F>(value: bool, exchange: F) -> (r: Result<(), ReplyError>) where F: FnOnce(String) -> Result<String, ReplyError>
    requires
        forall|req: String| exchange.requires((req,)),
    ensures
        exists|req: String, got: Result<String, ReplyError>|
            {
                &&& req@ == request_text(set_tokens(None, None, None, "pointer_follows_monitor"@, bool_text(value)))
                &&& exchange.ensures((req,), got)
                &&& got_done(got, r)
            },
{
    set_config_property(None, None, None, "pointer_follows_monitor", bool_str(value).to_owned(), exchange)
}

/// Changes the setting `mapping_events_count`.
pub fn set_mapping_events_count<F>(value: i32, exchange: F) -> (r: Result<(), ReplyError>) where F: FnOnce(String) -> Result<String, ReplyError>
    requires
        forall|req: String| exchange.requires((req,)),
    ensures
        exists|req: String, got: Result<String, ReplyError>|
            {
                &&& req@ == request_text(set_tokens(None, None, None, "mapping_events_count"@, int_text(value as int)))
                &&& exchange.ensures((req,), got)
                &&& got_done(got, r)
            },
{
    set_config_property(None, None, None, "mapping_events_count", int_to_text(value as i64), exchange)
}

/// Changes the setting `ignore_ewmh_focus`.
pub fn set_ignore_ewmh_focus<F>(value: bool, exchange: F) -> (r: Result<(), ReplyError>) where F: FnOnce(String) -> Result<String, ReplyError>
    requires
        forall|req: String| exchange.requires((req,)),
    ensures
        exists|req: String, got: Result<String, ReplyError>|
            {
                &&& req@ == request_text(set_tokens(None, None, None, "ignore_ewmh_focus"@, bool_text(value)))
                &&& exchange.ensures((req,), got)
                &&& got_done(got, r)
            },
{
    set_config_property(None, None, None, "ignore_ewmh_focus", bool_str(value).to_owned(), exchange)
}

/// Changes the setting `ignore_ewmh_fullscreen`.
pub fn set_ignore_ewmh_fullscreen<F>(value: bool, exchange: F) -> (r: Result<(), ReplyError>) where F: FnOnce(String) -> Result<String, ReplyError>
    requires
        forall|req: String| exchange.requires((req,)),
    ensures
        exists|req: String, got: Result<String, ReplyError>|
            {
                &&& req@ == request_text(set_tokens(None, None, None, "ignore_ewmh_fullscreen"@, bool_text(value)))
                &&& exchange.ensures((req,), got)
                &&& got_done(got, r)
            },
{
    set_config_property(None, None, None, "ignore_ewmh_fullscreen", bool_str(value).to_owned(), exchange)
}

/// Changes the setting `ignore_ewmh_struts`.
pub fn set_ignore_ewmh_struts<F>(value: bool, exchange: F) -> (r: Result<(), ReplyError>) where F: FnOnce(String) -> Result<String, ReplyError>
    requires
        forall|req: String| exchange.requires((req,)),
    ensures
        exists|req: String, got: Result<String, ReplyError>|
            {
                &&& req@ == request_text(set_tokens(None, None, None, "ignore_ewmh_struts"@, bool_text(value)))
                &&& exchange.ensures((req,), got)
                &&& got_done(got, r)
            },
{
    set_config_property(None, None, None, "ignore_ewmh_struts", bool_str(value).to_owned(), exchange)
}

/// Changes the setting `center_pseudo_tiled`.
pub fn set_center_pseudo_tiled<F>(value: bool, exchange: F) -> (r: Result<(), ReplyError>) where F: FnOnce(String) -> Result<String, ReplyError>
    requires
        forall|req: String| exchange.requires((req,)),
    ensures
        exists|req: String, got: Result<String, ReplyError>|
            {
                &&& req@ == request_text(set_tokens(None, None, None, "center_pseudo_tiled"@, bool_text(value)))
                &&& exchange.ensures((req,), got)
                &&& got_done(got, r)
            },
{
    set_config_property(None, None, None, "center_pseudo_tiled", bool_str(value).to_owned(), exchange)
}

/// Changes the setting `honor_size_hints`.
pub fn set_honor_size_hints<F>(value: bool, exchange: F) -> (r: Result<(), ReplyError>) where F: FnOnce(String) -> Result<String, ReplyError>
    requires
        forall|req: String| exchange.requires((req,)),
    ensures
        exists|req: String, got: Result<String, ReplyError>|
            {
                &&& req@ == request_text(set_tokens(None, None, None, "honor_size_hints"@, bool_text(value)))
                &&& exchange.ensures((req,), got)
                &&& got_done(got, r)
            },
{
    set_config_property(None, None, None, "honor_size_hints", bool_str(value).to_owned(), exchange)
}

/// Changes the setting `remove_disabled_monitors`.
pub fn set_remove_disabled_monitors<F>(value: bool, exchange: F) -> (r: Result<(), ReplyError>) where F: FnOnce(String) -> Result<String, ReplyError>
    requires
        forall|req: String| exchange.requires((req,)),
    ensures
        exists|req: String, got: Result<String, ReplyError>|
            {
                &&& req@ == request_text(set_tokens(None, None, None, "remove_disabled_monitors"@, bool_text(value)))
                &&& exchange.ensures((req,), got)
                &&& got_done(got, r)
            },
{
    set_config_property(None, None, None, "remove_disabled_monitors", bool_str(value).to_owned(), exchange)
}

/// Changes the setting `remove_unplugged_monitors`.
pub fn set_remove_unplugged_monitors<F>(value: bool, exchange: F) -> (r: Result<(), ReplyError>) where F: FnOnce(String) -> Result<String, ReplyError>
    requires
        forall|req: String| exchange.requires((req,)),
    ensures
        exists|req: String, got: Result<String, ReplyError>|
            {
                &&& req@ == request_text(set_tokens(None, None, None, "remove_unplugged_monitors"@, bool_text(value)))
                &&& exchange.ensures((req,), got)
                &&& got_done(got, r)
            },
{
    set_config_property(None, None, None, "remove_unplugged_monitors", bool_str(value).to_owned(), exchange)
}

/// Changes the setting `merge_overlapping_monitors`.
pub fn set_merge_overlapping_monitors<F>(value: bool, exchange: F) -> (r: Result<(), ReplyError>) where F: FnOnce(String) -> Result<String, ReplyError>
    requires
        forall|req: String| exchange.requires((req,)),
    ensures
        exists|req: String, got: Result<String, ReplyError>|
            {
                &&& req@ == request_text(set_tokens(None, None, None, "merge_overlapping_monitors"@, bool_text(value)))
                &&& exchange.ensures((req,), got)
                &&& got_done(got, r)
            },
{
    set_config_property(None, None, None, "merge_overlapping_monitors", bool_str(value).to_owned(), exchange)
}

/// Sets `border_width` for the nodes that the selectors pick.
pub fn set_border_width<F>(
    monitor_selector: Option<MonitorSelector>,
    desktop_selector: Option<DesktopSelector>,
    node_selector: Option<NodeSelector>,
    border_width: i32,
    exchange: F,
) -> (r: Result<(), ReplyError>) where F: FnOnce(String) -> Result<String, ReplyError>
    requires
        forall|req: String| exchange.requires((req,)),
    ensures
        exists|req: String, got: Result<String, ReplyError>|
            {
                &&& req@ == request_text(
                    set_tokens(
                        selector_text(monitor_selector),
                        selector_text(desktop_selector),
                        selector_text(node_selector),
                        "border_width"@,
                        int_text(border_width as int),
                    ),
                )
                &&& exchange.ensures((req,), got)
                &&& got_done(got, r)
            },
{
    let m = match monitor_selector {
        Some(s) => Some(s.0),
        None => None,
    };
    let d = match desktop_selector {
        Some(s) => Some(s.0),
        None => None,
    };
    let n = match node_selector {
        Some(s) => Some(s.0),
        None => None,
    };
    set_config_property(m, d, n, "border_width", int_to_text(border_width as i64), exchange)
}

/// Sets `window_gap` for the desktops that the selectors pick.
pub fn set_window_gap<F>(
    monitor_selector: Option<MonitorSelector>,
    desktop_selector: Option<DesktopSelector>,
    window_gap: i32,
    exchange: F,
) -> (r: Result<(), ReplyError>) where F: FnOnce(String) -> Result<String, ReplyError>
    requires
        forall|req: String| exchange.requires((req,)),
    ensures
        exists|req: String, got: Result<String, ReplyError>|
            {
                &&& req@ == request_text(
                    set_tokens(
                        selector_text(monitor_selector),
                        selector_text(desktop_selector),
                        None,
                        "window_gap"@,
                        int_text(window_gap as int),
                    ),
                )
                &&& exchange.ensures((req,), got)
                &&& got_done(got, r)
            },
{
    let m = match monitor_selector {
        Some(s) => Some(s.0),
        None => None,
    };
    let d = match desktop_selector {
        Some(s) => Some(s.0),
        None => None,
    };
    let n: Option<&str> = None;
    set_config_property(m, d, n, "window_gap", int_to_text(window_gap as i64), exchange)
}

/// Sets `top_padding` for the desktops or monitors that the selectors pick.
pub fn top_padding<F>(
    monitor_selector: Option<MonitorSelector>,
    desktop_selector: Option<DesktopSelector>,
    padding: i32,
    exchange: F,
) -> (r: Result<(), ReplyError>) where F: FnOnce(String) -> Result<String, ReplyError>
    requires
        forall|req: String| exchange.requires((req,)),
    ensures
        exists|req: String, got: Result<String, ReplyError>|
            {
                &&& req@ == request_text(
                    set_tokens(
                        selector_text(monitor_selector),
                        selector_text(desktop_selector),
                        None,
                        "top_padding"@,
                        int_text(padding as int),
                    ),
                )
                &&& exchange.ensures((req,), got)
                &&& got_done(got, r)
            },
{
    let m = match monitor_selector {
        Some(s) => Some(s.0),
        None => None,
    };
    let d = match desktop_selector {
        Some(s) => Some(s.0),
        None => None,
    };
    let n: Option<&str> = None;
    set_config_property(m, d, n, "top_padding", int_to_text(padding as i64), exchange)
}

/// Sets `right_padding` for the desktops or monitors that the selectors pick.
pub fn right_padding<F>(
    monitor_selector: Option<MonitorSelector>,
    desktop_selector: Option<DesktopSelector>,
    padding: i32,
    exchange: F,
) -> (r: Result<(), ReplyError>) where F: FnOnce(String) -> Result<String, ReplyError>
    requires
        forall|req: String| exchange.requires((req,)),
    ensures
        exists|req: String, got: Result<String, ReplyError>|
            {
                &&& req@ == request_text(
                    set_tokens(
                        selector_text(monitor_selector),
                        selector_text(desktop_selector),
                        None,
                        "right_padding"@,
                        int_text(padding as int),
                    ),
                )
                &&& exchange.ensures((req,), got)
                &&& got_done(got, r)
            },
{
    let m = match monitor_selector {
        Some(s) => Some(s.0),
        None => None,
    };
    let d = match desktop_selector {
        Some(s) => Some(s.0),
        None => None,
    };
    let n: Option<&str> = None;
    set_config_property(m, d, n, "right_padding", int_to_text(padding as i64), exchange)
}

/// Sets `bottom_padding` for the desktops or monitors that the selectors pick.
pub fn bottom_padding<F>(
    monitor_selector: Option<MonitorSelector>,
    desktop_selector: Option<DesktopSelector>,
    padding: i32,
    exchange: F,
) -> (r: Result<(), ReplyError>) where F: FnOnce(String) -> Result<String, ReplyError>
    requires
        forall|req: String| exchange.requires((req,)),
    ensures
        exists|req: String, got: Result<String, ReplyError>|
            {
                &&& req@ == request_text(
                    set_tokens(
                        selector_text(monitor_selector),
                        selector_text(desktop_selector),
                        None,
                        "bottom_padding"@,
                        int_text(padding as int),
                    ),
                )
                &&& exchange.ensures((req,), got)
                &&& got_done(got, r)
            },
{
    let m = match monitor_selector {
        Some(s) => Some(s.0),
        None => None,
    };
    let d = match desktop_selector {
        Some(s) => Some(s.0),
        None => None,
    };
    let n: Option<&str> = None;
    set_config_property(m, d, n, "bottom_padding", int_to_text(padding as i64), exchange)
}

/// Sets `left_padding` for the desktops or monitors that the selectors pick.
pub fn left_padding<F>(
    monitor_selector: Option<MonitorSelector>,
    desktop_selector: Option<DesktopSelector>,
    padding: i32,
    exchange: F,
) -> (r: Result<(), ReplyError>) where F: FnOnce(String) -> Result<String, ReplyError>
    requires
        forall|req: String| exchange.requires((req,)),
    ensures
        exists|req: String, got: Result<String, ReplyError>|
            {
                &&& req@ == request_text(
                    set_tokens(
                        selector_text(monitor_selector),
                        selector_text(desktop_selector),
                        None,
                        "left_padding"@,
                        int_text(padding as int),
                    ),
                )
                &&& exchange.ensures((req,), got)
                &&& got_done(got, r)
            },
{
    let m = match monitor_selector {
        Some(s) => Some(s.0),
        None => None,
    };
    let d = match desktop_selector {
        Some(s) => Some(s.0),
        None => None,
    };
    let n: Option<&str> = None;
    set_config_property(m, d, n, "left_padding", int_to_text(padding as i64), exchange)
}

} // verus!
