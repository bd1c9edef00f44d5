//! Decoding of the records of monitor events.
use vstd::prelude::*;

use crate::errors::ParseError;
use crate::events::{MonitorAddInfo, MonitorEvent, MonitorFocusInfo, MonitorGeometryInfo, MonitorRemoveInfo, MonitorRenameInfo, MonitorSwapInfo};
use crate::numbers::id_of;
use crate::parser::{header_error, tokens, Tokens};
use crate::properties::{Rectangle};

verus! {

impl MonitorAddInfo {
    /// What the tokens `t` of a `monitor_add` record decode to: the fields in
    /// order, the first that fails giving the error.
    pub open spec fn read_from(t: Seq<Seq<char>>, r: Result<MonitorAddInfo, ParseError>) -> bool {
        match header_error(t, "monitor_add"@, 3) {
            Some(e) => r == Err::<Self, ParseError>(e),
            None => {
                match id_of(t[1]) {
                    Some(monitor_id) => {
                        match Rectangle::spec_from_text(t[3]) {
                            Err(e) => r == Err::<Self, ParseError>(e),
                            Ok(monitor_geometry) => {
                                match r {
                                    Ok(x) => x.monitor_id == monitor_id && x.monitor_name@ == t[2] && x.monitor_geometry == monitor_geometry,
                                    Err(_) => false,
                                }
                            },
                        }
                    },
                    _ => r == Err::<Self, ParseError>(ParseError::ConversionFailed),
                }
            },
        }
    }

    pub(crate) fn from_tokens(t: &Tokens) -> (r: Result<MonitorAddInfo, ParseError>)
        requires
            t.wf(),
        ensures
            MonitorAddInfo::read_from(t@, r),
    {
        if let Err(e) = t.expect("monitor_add", 3) {
            return Err(e);
        }
        let monitor_id = match t.id(1) {
            Ok(v) => v,
            Err(e) => return Err(e),
        };
        let monitor_name = t.text_at(2);
        let monitor_geometry = match t.rectangle(3) {
            Ok(v) => v,
            Err(e) => return Err(e),
        };
        Ok(MonitorAddInfo { monitor_id, monitor_name, monitor_geometry })
    }

    /// Decodes a `monitor_add` record.
    pub fn parse(input: &str) -> (r: Result<MonitorAddInfo, ParseError>)
        ensures
            MonitorAddInfo::read_from(tokens(input@), r),
    {
        let t = Tokens::of(input);
        MonitorAddInfo::from_tokens(&t)
    }
}

impl std::str::FromStr for MonitorAddInfo {
    type Err = ParseError;

    fn from_str(input: &str) -> Result<MonitorAddInfo, ParseError> {
        MonitorAddInfo::parse(input)
    }
}

impl MonitorRenameInfo {
    /// What the tokens `t` of a `monitor_rename` record decode to: the fields in
    /// order, the first that fails giving the error.
    pub open spec fn read_from(t: Seq<Seq<char>>, r: Result<MonitorRenameInfo, ParseError>) -> bool {
        match header_error(t, "monitor_rename"@, 3) {
            Some(e) => r == Err::<Self, ParseError>(e),
            None => {
                match id_of(t[1]) {
                    Some(monitor_id) => {
                        match r {
                            Ok(x) => x.monitor_id == monitor_id && x.old_name@ == t[2] && x.new_name@ == t[3],
                            Err(_) => false,
                        }
                    },
                    _ => r == Err::<Self, ParseError>(ParseError::ConversionFailed),
                }
            },
        }
    }

    pub(crate) fn from_tokens(t: &Tokens) -> (r: Result<MonitorRenameInfo, ParseError>)
        requires
            t.wf(),
        ensures
            MonitorRenameInfo::read_from(t@, r),
    {
        if let Err(e) = t.expect("monitor_rename", 3) {
            return Err(e);
        }
        let monitor_id = match t.id(1) {
            Ok(v) => v,
            Err(e) => return Err(e),
        };
        let old_name = t.text_at(2);
        let new_name = t.text_at(3);
        Ok(MonitorRenameInfo { monitor_id, old_name, new_name })
    }

    /// Decodes a `monitor_rename` record.
    pub fn parse(input: &str) -> (r: Result<MonitorRenameInfo, ParseError>)
        ensures
            MonitorRenameInfo::read_from(tokens(input@), r),
    {
        let t = Tokens::of(input);
        MonitorRenameInfo::from_tokens(&t)
    }
}

impl std::str::FromStr for MonitorRenameInfo {
    type Err = ParseError;

    fn from_str(input: &str) -> Result<MonitorRenameInfo, ParseError> {
        MonitorRenameInfo::parse(input)
    }
}

impl MonitorRemoveInfo {
    /// What the tokens `t` of a `monitor_remove` record decode to: the fields in
    /// order, the first that fails giving the error.
    pub open spec fn read_from(t: Seq<Seq<char>>, r: Result<MonitorRemoveInfo, ParseError>) -> bool {
        match header_error(t, "monitor_remove"@, 1) {
            Some(e) => r == Err::<Self, ParseError>(e),
            None => {
                match id_of(t[1]) {
                    Some(monitor_id) => {
                        r == Ok::<Self, ParseError>(Self { monitor_id })
                    },
                    _ => r == Err::<Self, ParseError>(ParseError::ConversionFailed),
                }
            },
        }
    }

    pub(crate) fn from_tokens(t: &Tokens) -> (r: Result<MonitorRemoveInfo, ParseError>)
        requires
            t.wf(),
        ensures
            MonitorRemoveInfo::read_from(t@, r),
    {
        if let Err(e) = t.expect("monitor_remove", 1) {
            return Err(e);
        }
        let monitor_id = match t.id(1) {
            Ok(v) => v,
            Err(e) => return Err(e),
        };
        Ok(MonitorRemoveInfo { monitor_id })
    }

    /// Decodes a `monitor_remove` record.
    pub fn parse(input: &str) -> (r: Result<MonitorRemoveInfo, ParseError>)
        ensures
            MonitorRemoveInfo::read_from(tokens(input@), r),
    {
        let t = Tokens::of(input);
        MonitorRemoveInfo::from_tokens(&t)
    }
}

impl std::str::FromStr for MonitorRemoveInfo {
    type Err = ParseError;

    fn from_str(input: &str) -> Result<MonitorRemoveInfo, ParseError> {
        MonitorRemoveInfo::parse(input)
    }
}

impl MonitorSwapInfo {
    /// What the tokens `t` of a `monitor_swap` record decode to: the fields in
    /// order, the first that fails giving the error.
    pub open spec fn read_from(t: Seq<Seq<char>>, r: Result<MonitorSwapInfo, ParseError>) -> bool {
        match header_error(t, "monitor_swap"@, 2) {
            Some(e) => r == Err::<Self, ParseError>(e),
            None => {
                match (id_of(t[1]), id_of(t[2])) {
                    (Some(src_monitor_id), Some(dst_monitor_id)) => {
                        r == Ok::<Self, ParseError>(Self { src_monitor_id, dst_monitor_id })
                    },
                    _ => r == Err::<Self, ParseError>(ParseError::ConversionFailed),
                }
            },
        }
    }

    pub(crate) fn from_tokens(t: &Tokens) -> (r: Result<MonitorSwapInfo, ParseError>)
        requires
            t.wf(),
        ensures
            MonitorSwapInfo::read_from(t@, r),
    {
        if let Err(e) = t.expect("monitor_swap", 2) {
            return Err(e);
        }
        let src_monitor_id = match t.id(1) {
            Ok(v) => v,
            Err(e) => return Err(e),
        };
        let dst_monitor_id = match t.id(2) {
            Ok(v) => v,
            Err(e) => return Err(e),
        };
        Ok(MonitorSwapInfo { src_monitor_id, dst_monitor_id })
    }

    /// Decodes a `monitor_swap` record.
    pub fn parse(input: &str) -> (r: Result<MonitorSwapInfo, ParseError>)
        ensures
            MonitorSwapInfo::read_from(tokens(input@), r),
    {
        let t = Tokens::of(input);
        MonitorSwapInfo::from_tokens(&t)
    }
}

impl std::str::FromStr for MonitorSwapInfo {
    type Err = ParseError;

    fn from_str(input: &str) -> Result<MonitorSwapInfo, ParseError> {
        MonitorSwapInfo::parse(input)
    }
}

impl MonitorFocusInfo {
    /// What the tokens `t` of a `monitor_focus` record decode to: the fields in
    /// order, the first that fails giving the error.
    pub open spec fn read_from(t: Seq<Seq<char>>, r: Result<MonitorFocusInfo, ParseError>) -> bool {
        match header_error(t, "monitor_focus"@, 1) {
            Some(e) => r == Err::<Self, ParseError>(e),
            None => {
                match id_of(t[1]) {
                    Some(monitor_id) => {
                        r == Ok::<Self, ParseError>(Self { monitor_id })
                    },
                    _ => r == Err::<Self, ParseError>(ParseError::ConversionFailed),
                }
            },
        }
    }

    pub(crate) fn from_tokens(t: &Tokens) -> (r: Result<MonitorFocusInfo, ParseError>)
        requires
            t.wf(),
        ensures
            MonitorFocusInfo::read_from(t@, r),
    {
        if let Err(e) = t.expect("monitor_focus", 1) {
            return Err(e);
        }
        let monitor_id = match t.id(1) {
            Ok(v) => v,
            Err(e) => return Err(e),
        };
        Ok(MonitorFocusInfo { monitor_id })
    }

    /// Decodes a `monitor_focus` record.
    pub fn parse(input: &str) -> (r: Result<MonitorFocusInfo, ParseError>)
        ensures
            MonitorFocusInfo::read_from(tokens(input@), r),
    {
        let t = Tokens::of(input);
        MonitorFocusInfo::from_tokens(&t)
    }
}

impl std::str::FromStr for MonitorFocusInfo {
    type Err = ParseError;

    fn from_str(input: &str) -> Result<MonitorFocusInfo, ParseError> {
        MonitorFocusInfo::parse(input)
    }
}

impl MonitorGeometryInfo {
    /// What the tokens `t` of a `monitor_geometry` record decode to: the fields in
    /// order, the first that fails giving the error.
    pub open spec fn read_from(t: Seq<Seq<char>>, r: Result<MonitorGeometryInfo, ParseError>) -> bool {
        match header_error(t, "monitor_geometry"@, 2) {
            Some(e) => r == Err::<Self, ParseError>(e),
            None => {
                match id_of(t[1]) {
                    Some(monitor_id) => {
                        match Rectangle::spec_from_text(t[2]) {
                            Err(e) => r == Err::<Self, ParseError>(e),
                            Ok(monitor_geometry) => {
                                r == Ok::<Self, ParseError>(Self { monitor_id, monitor_geometry })
                            },
                        }
                    },
                    _ => r == Err::<Self, ParseError>(ParseError::ConversionFailed),
                }
            },
        }
    }

    pub(crate) fn from_tokens(t: &Tokens) -> (r: Result<MonitorGeometryInfo, ParseError>)
        requires
            t.wf(),
        ensures
            MonitorGeometryInfo::read_from(t@, r),
    {
        if let Err(e) = t.expect("monitor_geometry", 2) {
            return Err(e);
        }
        let monitor_id = match t.id(1) {
            Ok(v) => v,
            Err(e) => return Err(e),
        };
        let monitor_geometry = match t.rectangle(2) {
            Ok(v) => v,
            Err(e) => return Err(e),
        };
        Ok(MonitorGeometryInfo { monitor_id, monitor_geometry })
    }

    /// Decodes a `monitor_geometry` record.
    pub fn parse(input: &str) -> (r: Result<MonitorGeometryInfo, ParseError>)
        ensures
            MonitorGeometryInfo::read_from(tokens(input@), r),
    {
        let t = Tokens::of(input);
        MonitorGeometryInfo::from_tokens(&t)
    }
}

impl std::str::FromStr for MonitorGeometryInfo {
    type Err = ParseError;

    fn from_str(input: &str) -> Result<MonitorGeometryInfo, ParseError> {
        MonitorGeometryInfo::parse(input)
    }
}

impl MonitorEvent {
    /// Whether `tag` is the tag of one of these events.
    pub open spec fn has_tag(tag: Seq<char>) -> bool {
        tag == "monitor_add"@
        || tag == "monitor_rename"@
        || tag == "monitor_remove"@
        || tag == "monitor_swap"@
        || tag == "monitor_focus"@
        || tag == "monitor_geometry"@
    }

    /// What the tokens `t` decode to: the record of the kind that the tag
    /// names, or `ConversionFailed` for any other tag.
    pub open spec fn read_from(t: Seq<Seq<char>>, r: Result<MonitorEvent, ParseError>) -> bool {
        if t[0] == "monitor_add"@ {
            match r {
                Ok(MonitorEvent::MonitorAdd(x)) => MonitorAddInfo::read_from(t, Ok(x)),
                Ok(_) => false,
                Err(e) => MonitorAddInfo::read_from(t, Err(e)),
            }
        } else if t[0] == "monitor_rename"@ {
            match r {
                Ok(MonitorEvent::MonitorRename(x)) => MonitorRenameInfo::read_from(t, Ok(x)),
                Ok(_) => false,
                Err(e) => MonitorRenameInfo::read_from(t, Err(e)),
            }
        } else if t[0] == "monitor_remove"@ {
            match r {
                Ok(MonitorEvent::MonitorRemove(x)) => MonitorRemoveInfo::read_from(t, Ok(x)),
                Ok(_) => false,
                Err(e) => MonitorRemoveInfo::read_from(t, Err(e)),
            }
        } else if t[0] == "monitor_swap"@ {
            match r {
                Ok(MonitorEvent::MonitorSwap(x)) => MonitorSwapInfo::read_from(t, Ok(x)),
                Ok(_) => false,
                Err(e) => MonitorSwapInfo::read_from(t, Err(e)),
            }
        } else if t[0] == "monitor_focus"@ {
            match r {
                Ok(MonitorEvent::MonitorFocus(x)) => MonitorFocusInfo::read_from(t, Ok(x)),
                Ok(_) => false,
                Err(e) => MonitorFocusInfo::read_from(t, Err(e)),
            }
        } else if t[0] == "monitor_geometry"@ {
            match r {
                Ok(MonitorEvent::MonitorGeometry(x)) => MonitorGeometryInfo::read_from(t, Ok(x)),
                Ok(_) => false,
                Err(e) => MonitorGeometryInfo::read_from(t, Err(e)),
            }
        } else {
            r == Err::<MonitorEvent, ParseError>(ParseError::ConversionFailed)
        }
    }

    /// Whether the first token is the tag of one of these events.
    pub fn is_tag(t: &Tokens) -> (r: bool)
        requires
            t.wf(),
        ensures
            r == MonitorEvent::has_tag(t@[0]),
    {
        t.is(0, "monitor_add")
            || t.is(0, "monitor_rename")
            || t.is(0, "monitor_remove")
            || t.is(0, "monitor_swap")
            || t.is(0, "monitor_focus")
            || t.is(0, "monitor_geometry")
    }

    pub(crate) fn from_tokens(t: &Tokens) -> (r: Result<MonitorEvent, ParseError>)
        requires
            t.wf(),
        ensures
            MonitorEvent::read_from(t@, r),
    {
        if t.is(0, "monitor_add") {
            match MonitorAddInfo::from_tokens(t) {
                Ok(x) => Ok(MonitorEvent::MonitorAdd(x)),
                Err(e) => Err(e),
            }
        } else if t.is(0, "monitor_rename") {
            match MonitorRenameInfo::from_tokens(t) {
                Ok(x) => Ok(MonitorEvent::MonitorRename(x)),
                Err(e) => Err(e),
            }
        } else if t.is(0, "monitor_remove") {
            match MonitorRemoveInfo::from_tokens(t) {
                Ok(x) => Ok(MonitorEvent::MonitorRemove(x)),
                Err(e) => Err(e),
            }
        } else if t.is(0, "monitor_swap") {
            match MonitorSwapInfo::from_tokens(t) {
                Ok(x) => Ok(MonitorEvent::MonitorSwap(x)),
                Err(e) => Err(e),
            }
        } else if t.is(0, "monitor_focus") {
            match MonitorFocusInfo::from_tokens(t) {
                Ok(x) => Ok(MonitorEvent::MonitorFocus(x)),
                Err(e) => Err(e),
            }
        } else if t.is(0, "monitor_geometry") {
            match MonitorGeometryInfo::from_tokens(t) {
                Ok(x) => Ok(MonitorEvent::MonitorGeometry(x)),
                Err(e) => Err(e),
            }
        } else {
            Err(ParseError::ConversionFailed)
        }
    }

    /// Decodes a record of one of these events.
    pub fn parse(input: &str) -> (r: Result<MonitorEvent, ParseError>)
        ensures
            MonitorEvent::read_from(tokens(input@), r),
    {
        let t = Tokens::of(input);
        MonitorEvent::from_tokens(&t)
    }
}

impl std::str::FromStr for MonitorEvent {
    type Err = ParseError;

    fn from_str(input: &str) -> Result<MonitorEvent, ParseError> {
        MonitorEvent::parse(input)
    }
}

} // verus!
