//! Decoding of the records of pointer actions.
use vstd::prelude::*;

use crate::errors::ParseError;
use crate::events::{PointerActionInfo};
use crate::numbers::id_of;
use crate::parser::{header_error, tokens, Tokens};
use crate::properties::{Action, ActionState};

verus! {

impl PointerActionInfo {
    /// What the tokens `t` of a `pointer_action` record decode to: the fields in
    /// order, the first that fails giving the error.
    pub open spec fn read_from(t: Seq<Seq<char>>, r: Result<PointerActionInfo, ParseError>) -> bool {
        match header_error(t, "pointer_action"@, 5) {
            Some(e) => r == Err::<Self, ParseError>(e),
            None => {
                match (id_of(t[1]), id_of(t[2]), id_of(t[3]), Action::spec_from_text(t[4]), ActionState::spec_from_text(t[5])) {
                    (Some(monitor_id), Some(desktop_id), Some(node_id), Some(action), Some(action_state)) => {
                        r == Ok::<Self, ParseError>(Self { monitor_id, desktop_id, node_id, action, action_state })
                    },
                    _ => r == Err::<Self, ParseError>(ParseError::ConversionFailed),
                }
            },
        }
    }

    pub(crate) fn from_tokens(t: &Tokens) -> (r: Result<PointerActionInfo, ParseError>)
        requires
            t.wf(),
        ensures
            PointerActionInfo::read_from(t@, r),
    {
        if let Err(e) = t.expect("pointer_action", 5) {
            return Err(e);
        }
        let monitor_id = match t.id(1) {
            Ok(v) => v,
            Err(e) => return Err(e),
        };
        let desktop_id = match t.id(2) {
            Ok(v) => v,
            Err(e) => return Err(e),
        };
        let node_id = match t.id(3) {
            Ok(v) => v,
            Err(e) => return Err(e),
        };
        let (lo, hi) = t.span(4);
        let action = match Action::from_chars(&t.chars, lo, hi) {
            Some(v) => v,
            None => return Err(ParseError::ConversionFailed),
        };
        let (lo, hi) = t.span(5);
        let action_state = match ActionState::from_chars(&t.chars, lo, hi) {
            Some(v) => v,
            None => return Err(ParseError::ConversionFailed),
        };
        Ok(PointerActionInfo { monitor_id, desktop_id, node_id, action, action_state })
    }

    /// Decodes a `pointer_action` record.
    pub fn parse(input: &str) -> (r: Result<PointerActionInfo, ParseError>)
        ensures
            PointerActionInfo::read_from(tokens(input@), r),
    {
        let t = Tokens::of(input);
        PointerActionInfo::from_tokens(&t)
    }
}

impl std::str::FromStr for PointerActionInfo {
    type Err = ParseError;

    fn from_str(input: &str) -> Result<PointerActionInfo, ParseError> {
        PointerActionInfo::parse(input)
    }
}

} // verus!
