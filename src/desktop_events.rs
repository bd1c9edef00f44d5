//! Decoding of the records of desktop events.
use vstd::prelude::*;

use crate::errors::ParseError;
use crate::events::{DesktopActivateInfo, DesktopAddInfo, DesktopEvent, DesktopFocusInfo, DesktopLayoutInfo, DesktopRemoveInfo, DesktopRenameInfo, DesktopSwapInfo, DesktopTransferInfo};
use crate::numbers::id_of;
use crate::parser::{header_error, tokens, Tokens};
use crate::properties::{Layout};

verus! {

impl DesktopAddInfo {
    /// What the tokens `t` of a `desktop_add` record decode to: the fields in
    /// order, the first that fails giving the error.
    pub open spec fn read_from(t: Seq<Seq<char>>, r: Result<DesktopAddInfo, ParseError>) -> bool {
        match header_error(t, "desktop_add"@, 3) {
            Some(e) => r == Err::<Self, ParseError>(e),
            None => {
                match (id_of(t[1]), id_of(t[2])) {
                    (Some(monitor_id), Some(desktop_id)) => {
                        match r {
                            Ok(x) => x.monitor_id == monitor_id && x.desktop_id == desktop_id && x.desktop_name@ == t[3],
                            Err(_) => false,
                        }
                    },
                    _ => r == Err::<Self, ParseError>(ParseError::ConversionFailed),
                }
            },
        }
    }

    pub(crate) fn from_tokens(t: &Tokens) -> (r: Result<DesktopAddInfo, ParseError>)
        requires
            t.wf(),
        ensures
            DesktopAddInfo::read_from(t@, r),
    {
        if let Err(e) = t.expect("desktop_add", 3) {
            return Err(e);
        }
        let monitor_id = match t.id(1) {
            Ok(v) => v,
            Err(e) => return Err(e),
        };
        let desktop_id = match t.id(2) {
            Ok(v) => v,
            Err(e) => return Err(e),
        };
        let desktop_name = t.text_at(3);
        Ok(DesktopAddInfo { monitor_id, desktop_id, desktop_name })
    }

    /// Decodes a `desktop_add` record.
    pub fn parse(input: &str) -> (r: Result<DesktopAddInfo, ParseError>)
        ensures
            DesktopAddInfo::read_from(tokens(input@), r),
    {
        let t = Tokens::of(input);
        DesktopAddInfo::from_tokens(&t)
    }
}

impl std::str::FromStr for DesktopAddInfo {
    type Err = ParseError;

    fn from_str(input: &str) -> Result<DesktopAddInfo, ParseError> {
        DesktopAddInfo::parse(input)
    }
}

impl DesktopRenameInfo {
    /// What the tokens `t` of a `desktop_rename` record decode to: the fields in
    /// order, the first that fails giving the error.
    pub open spec fn read_from(t: Seq<Seq<char>>, r: Result<DesktopRenameInfo, ParseError>) -> bool {
        match header_error(t, "desktop_rename"@, 4) {
            Some(e) => r == Err::<Self, ParseError>(e),
            None => {
                match (id_of(t[1]), id_of(t[2])) {
                    (Some(monitor_id), Some(desktop_id)) => {
                        match r {
                            Ok(x) => x.monitor_id == monitor_id && x.desktop_id == desktop_id && x.old_name@ == t[3] && x.new_name@ == t[4],
                            Err(_) => false,
                        }
                    },
                    _ => r == Err::<Self, ParseError>(ParseError::ConversionFailed),
                }
            },
        }
    }

    pub(crate) fn from_tokens(t: &Tokens) -> (r: Result<DesktopRenameInfo, ParseError>)
        requires
            t.wf(),
        ensures
            DesktopRenameInfo::read_from(t@, r),
    {
        if let Err(e) = t.expect("desktop_rename", 4) {
            return Err(e);
        }
        let monitor_id = match t.id(1) {
            Ok(v) => v,
            Err(e) => return Err(e),
        };
        let desktop_id = match t.id(2) {
            Ok(v) => v,
            Err(e) => return Err(e),
        };
        let old_name = t.text_at(3);
        let new_name = t.text_at(4);
        Ok(DesktopRenameInfo { monitor_id, desktop_id, old_name, new_name })
    }

    /// Decodes a `desktop_rename` record.
    pub fn parse(input: &str) -> (r: Result<DesktopRenameInfo, ParseError>)
        ensures
            DesktopRenameInfo::read_from(tokens(input@), r),
    {
        let t = Tokens::of(input);
        DesktopRenameInfo::from_tokens(&t)
    }
}

impl std::str::FromStr for DesktopRenameInfo {
    type Err = ParseError;

    fn from_str(input: &str) -> Result<DesktopRenameInfo, ParseError> {
        DesktopRenameInfo::parse(input)
    }
}

impl DesktopRemoveInfo {
    /// What the tokens `t` of a `desktop_remove` record decode to: the fields in
    /// order, the first that fails giving the error.
    pub open spec fn read_from(t: Seq<Seq<char>>, r: Result<DesktopRemoveInfo, ParseError>) -> bool {
        match header_error(t, "desktop_remove"@, 2) {
            Some(e) => r == Err::<Self, ParseError>(e),
            None => {
                match (id_of(t[1]), id_of(t[2])) {
                    (Some(monitor_id), Some(desktop_id)) => {
                        r == Ok::<Self, ParseError>(Self { monitor_id, desktop_id })
                    },
                    _ => r == Err::<Self, ParseError>(ParseError::ConversionFailed),
                }
            },
        }
    }

    pub(crate) fn from_tokens(t: &Tokens) -> (r: Result<DesktopRemoveInfo, ParseError>)
        requires
            t.wf(),
        ensures
            DesktopRemoveInfo::read_from(t@, r),
    {
        if let Err(e) = t.expect("desktop_remove", 2) {
            return Err(e);
        }
        let monitor_id = match t.id(1) {
            Ok(v) => v,
            Err(e) => return Err(e),
        };
        let desktop_id = match t.id(2) {
            Ok(v) => v,
            Err(e) => return Err(e),
        };
        Ok(DesktopRemoveInfo { monitor_id, desktop_id })
    }

    /// Decodes a `desktop_remove` record.
    pub fn parse(input: &str) -> (r: Result<DesktopRemoveInfo, ParseError>)
        ensures
            DesktopRemoveInfo::read_from(tokens(input@), r),
    {
        let t = Tokens::of(input);
        DesktopRemoveInfo::from_tokens(&t)
    }
}

impl std::str::FromStr for DesktopRemoveInfo {
    type Err = ParseError;

    fn from_str(input: &str) -> Result<DesktopRemoveInfo, ParseError> {
        DesktopRemoveInfo::parse(input)
    }
}

impl DesktopSwapInfo {
    /// What the tokens `t` of a `desktop_swap` record decode to: the fields in
    /// order, the first that fails giving the error.
    pub open spec fn read_from(t: Seq<Seq<char>>, r: Result<DesktopSwapInfo, ParseError>) -> bool {
        match header_error(t, "desktop_swap"@, 4) {
            Some(e) => r == Err::<Self, ParseError>(e),
            None => {
                match (id_of(t[1]), id_of(t[2]), id_of(t[3]), id_of(t[4])) {
                    (Some(src_monitor_id), Some(src_desktop_id), Some(dst_monitor_id), Some(dst_desktop_id)) => {
                        r == Ok::<Self, ParseError>(Self { src_monitor_id, src_desktop_id, dst_monitor_id, dst_desktop_id })
                    },
                    _ => r == Err::<Self, ParseError>(ParseError::ConversionFailed),
                }
            },
        }
    }

    pub(crate) fn from_tokens(t: &Tokens) -> (r: Result<DesktopSwapInfo, ParseError>)
        requires
            t.wf(),
        ensures
            DesktopSwapInfo::read_from(t@, r),
    {
        if let Err(e) = t.expect("desktop_swap", 4) {
            return Err(e);
        }
        let src_monitor_id = match t.id(1) {
            Ok(v) => v,
            Err(e) => return Err(e),
        };
        let src_desktop_id = match t.id(2) {
            Ok(v) => v,
            Err(e) => return Err(e),
        };
        let dst_monitor_id = match t.id(3) {
            Ok(v) => v,
            Err(e) => return Err(e),
        };
        let dst_desktop_id = match t.id(4) {
            Ok(v) => v,
            Err(e) => return Err(e),
        };
        Ok(DesktopSwapInfo { src_monitor_id, src_desktop_id, dst_monitor_id, dst_desktop_id })
    }

    /// Decodes a `desktop_swap` record.
    pub fn parse(input: &str) -> (r: Result<DesktopSwapInfo, ParseError>)
        ensures
            DesktopSwapInfo::read_from(tokens(input@), r),
    {
        let t = Tokens::of(input);
        DesktopSwapInfo::from_tokens(&t)
    }
}

impl std::str::FromStr for DesktopSwapInfo {
    type Err = ParseError;

    fn from_str(input: &str) -> Result<DesktopSwapInfo, ParseError> {
        DesktopSwapInfo::parse(input)
    }
}

impl DesktopTransferInfo {
    /// What the tokens `t` of a `desktop_transfer` record decode to: the fields in
    /// order, the first that fails giving the error.
    pub open spec fn read_from(t: Seq<Seq<char>>, r: Result<DesktopTransferInfo, ParseError>) -> bool {
        match header_error(t, "desktop_transfer"@, 3) {
            Some(e) => r == Err::<Self, ParseError>(e),
            None => {
                match (id_of(t[1]), id_of(t[2]), id_of(t[3])) {
                    (Some(src_monitor_id), Some(src_desktop_id), Some(dst_monitor_id)) => {
                        r == Ok::<Self, ParseError>(Self { src_monitor_id, src_desktop_id, dst_monitor_id })
                    },
                    _ => r == Err::<Self, ParseError>(ParseError::ConversionFailed),
                }
            },
        }
    }

    pub(crate) fn from_tokens(t: &Tokens) -> (r: Result<DesktopTransferInfo, ParseError>)
        requires
            t.wf(),
        ensures
            DesktopTransferInfo::read_from(t@, r),
    {
        if let Err(e) = t.expect("desktop_transfer", 3) {
            return Err(e);
        }
        let src_monitor_id = match t.id(1) {
            Ok(v) => v,
            Err(e) => return Err(e),
        };
        let src_desktop_id = match t.id(2) {
            Ok(v) => v,
            Err(e) => return Err(e),
        };
        let dst_monitor_id = match t.id(3) {
            Ok(v) => v,
            Err(e) => return Err(e),
        };
        Ok(DesktopTransferInfo { src_monitor_id, src_desktop_id, dst_monitor_id })
    }

    /// Decodes a `desktop_transfer` record.
    pub fn parse(input: &str) -> (r: Result<DesktopTransferInfo, ParseError>)
        ensures
            DesktopTransferInfo::read_from(tokens(input@), r),
    {
        let t = Tokens::of(input);
        DesktopTransferInfo::from_tokens(&t)
    }
}

impl std::str::FromStr for DesktopTransferInfo {
    type Err = ParseError;

    fn from_str(input: &str) -> Result<DesktopTransferInfo, ParseError> {
        DesktopTransferInfo::parse(input)
    }
}

impl DesktopFocusInfo {
    /// What the tokens `t` of a `desktop_focus` record decode to: the fields in
    /// order, the first that fails giving the error.
    pub open spec fn read_from(t: Seq<Seq<char>>, r: Result<DesktopFocusInfo, ParseError>) -> bool {
        match header_error(t, "desktop_focus"@, 2) {
            Some(e) => r == Err::<Self, ParseError>(e),
            None => {
                match (id_of(t[1]), id_of(t[2])) {
                    (Some(monitor_id), Some(desktop_id)) => {
                        r == Ok::<Self, ParseError>(Self { monitor_id, desktop_id })
                    },
                    _ => r == Err::<Self, ParseError>(ParseError::ConversionFailed),
                }
            },
        }
    }

    pub(crate) fn from_tokens(t: &Tokens) -> (r: Result<DesktopFocusInfo, ParseError>)
        requires
            t.wf(),
        ensures
            DesktopFocusInfo::read_from(t@, r),
    {
        if let Err(e) = t.expect("desktop_focus", 2) {
            return Err(e);
        }
        let monitor_id = match t.id(1) {
            Ok(v) => v,
            Err(e) => return Err(e),
        };
        let desktop_id = match t.id(2) {
            Ok(v) => v,
            Err(e) => return Err(e),
        };
        Ok(DesktopFocusInfo { monitor_id, desktop_id })
    }

    /// Decodes a `desktop_focus` record.
    pub fn parse(input: &str) -> (r: Result<DesktopFocusInfo, ParseError>)
        ensures
            DesktopFocusInfo::read_from(tokens(input@), r),
    {
        let t = Tokens::of(input);
        DesktopFocusInfo::from_tokens(&t)
    }
}

impl std::str::FromStr for DesktopFocusInfo {
    type Err = ParseError;

    fn from_str(input: &str) -> Result<DesktopFocusInfo, ParseError> {
        DesktopFocusInfo::parse(input)
    }
}

impl DesktopActivateInfo {
    /// What the tokens `t` of a `desktop_activate` record decode to: the fields in
    /// order, the first that fails giving the error.
    pub open spec fn read_from(t: Seq<Seq<char>>, r: Result<DesktopActivateInfo, ParseError>) -> bool {
        match header_error(t, "desktop_activate"@, 2) {
            Some(e) => r == Err::<Self, ParseError>(e),
            None => {
                match (id_of(t[1]), id_of(t[2])) {
                    (Some(monitor_id), Some(desktop_id)) => {
                        r == Ok::<Self, ParseError>(Self { monitor_id, desktop_id })
                    },
                    _ => r == Err::<Self, ParseError>(ParseError::ConversionFailed),
                }
            },
        }
    }

    pub(crate) fn from_tokens(t: &Tokens) -> (r: Result<DesktopActivateInfo, ParseError>)
        requires
            t.wf(),
        ensures
            DesktopActivateInfo::read_from(t@, r),
    {
        if let Err(e) = t.expect("desktop_activate", 2) {
            return Err(e);
        }
        let monitor_id = match t.id(1) {
            Ok(v) => v,
            Err(e) => return Err(e),
        };
        let desktop_id = match t.id(2) {
            Ok(v) => v,
            Err(e) => return Err(e),
        };
        Ok(DesktopActivateInfo { monitor_id, desktop_id })
    }

    /// Decodes a `desktop_activate` record.
    pub fn parse(input: &str) -> (r: Result<DesktopActivateInfo, ParseError>)
        ensures
            DesktopActivateInfo::read_from(tokens(input@), r),
    {
        let t = Tokens::of(input);
        DesktopActivateInfo::from_tokens(&t)
    }
}

impl std::str::FromStr for DesktopActivateInfo {
    type Err = ParseError;

    fn from_str(input: &str) -> Result<DesktopActivateInfo, ParseError> {
        DesktopActivateInfo::parse(input)
    }
}

impl DesktopLayoutInfo {
    /// What the tokens `t` of a `desktop_layout` record decode to: the fields in
    /// order, the first that fails giving the error.
    pub open spec fn read_from(t: Seq<Seq<char>>, r: Result<DesktopLayoutInfo, ParseError>) -> bool {
        match header_error(t, "desktop_layout"@, 3) {
            Some(e) => r == Err::<Self, ParseError>(e),
            None => {
                match (id_of(t[1]), id_of(t[2]), Layout::spec_from_text(t[3])) {
                    (Some(monitor_id), Some(desktop_id), Some(layout)) => {
                        r == Ok::<Self, ParseError>(Self { monitor_id, desktop_id, layout })
                    },
                    _ => r == Err::<Self, ParseError>(ParseError::ConversionFailed),
                }
            },
        }
    }

    pub(crate) fn from_tokens(t: &Tokens) -> (r: Result<DesktopLayoutInfo, ParseError>)
        requires
            t.wf(),
        ensures
            DesktopLayoutInfo::read_from(t@, r),
    {
        if let Err(e) = t.expect("desktop_layout", 3) {
            return Err(e);
        }
        let monitor_id = match t.id(1) {
            Ok(v) => v,
            Err(e) => return Err(e),
        };
        let desktop_id = match t.id(2) {
            Ok(v) => v,
            Err(e) => return Err(e),
        };
        let (lo, hi) = t.span(3);
        let layout = match Layout::from_chars(&t.chars, lo, hi) {
            Some(v) => v,
            None => return Err(ParseError::ConversionFailed),
        };
        Ok(DesktopLayoutInfo { monitor_id, desktop_id, layout })
    }

    /// Decodes a `desktop_layout` record.
    pub fn parse(input: &str) -> (r: Result<DesktopLayoutInfo, ParseError>)
        ensures
            DesktopLayoutInfo::read_from(tokens(input@), r),
    {
        let t = Tokens::of(input);
        DesktopLayoutInfo::from_tokens(&t)
    }
}

impl std::str::FromStr for DesktopLayoutInfo {
    type Err = ParseError;

    fn from_str(input: &str) -> Result<DesktopLayoutInfo, ParseError> {
        DesktopLayoutInfo::parse(input)
    }
}

impl DesktopEvent {
    /// Whether `tag` is the tag of one of these events.
    pub open spec fn has_tag(tag: Seq<char>) -> bool {
        tag == "desktop_add"@
        || tag == "desktop_rename"@
        || tag == "desktop_remove"@
        || tag == "desktop_swap"@
        || tag == "desktop_transfer"@
        || tag == "desktop_focus"@
        || tag == "desktop_activate"@
        || tag == "desktop_layout"@
    }

    /// What the tokens `t` decode to: the record of the kind that the tag
    /// names, or `ConversionFailed` for any other tag.
    pub open spec fn read_from(t: Seq<Seq<char>>, r: Result<DesktopEvent, ParseError>) -> bool {
        if t[0] == "desktop_add"@ {
            match r {
                Ok(DesktopEvent::DesktopAdd(x)) => DesktopAddInfo::read_from(t, Ok(x)),
                Ok(_) => false,
                Err(e) => DesktopAddInfo::read_from(t, Err(e)),
            }
        } else if t[0] == "desktop_rename"@ {
            match r {
                Ok(DesktopEvent::DesktopRename(x)) => DesktopRenameInfo::read_from(t, Ok(x)),
                Ok(_) => false,
                Err(e) => DesktopRenameInfo::read_from(t, Err(e)),
            }
        } else if t[0] == "desktop_remove"@ {
            match r {
                Ok(DesktopEvent::DesktopRemove(x)) => DesktopRemoveInfo::read_from(t, Ok(x)),
                Ok(_) => false,
                Err(e) => DesktopRemoveInfo::read_from(t, Err(e)),
            }
        } else if t[0] == "desktop_swap"@ {
            match r {
                Ok(DesktopEvent::DesktopSwap(x)) => DesktopSwapInfo::read_from(t, Ok(x)),
                Ok(_) => false,
                Err(e) => DesktopSwapInfo::read_from(t, Err(e)),
            }
        } else if t[0] == "desktop_transfer"@ {
            match r {
                Ok(DesktopEvent::DesktopTransfer(x)) => DesktopTransferInfo::read_from(t, Ok(x)),
                Ok(_) => false,
                Err(e) => DesktopTransferInfo::read_from(t, Err(e)),
            }
        } else if t[0] == "desktop_focus"@ {
            match r {
                Ok(DesktopEvent::DesktopFocus(x)) => DesktopFocusInfo::read_from(t, Ok(x)),
                Ok(_) => false,
                Err(e) => DesktopFocusInfo::read_from(t, Err(e)),
            }
        } else if t[0] == "desktop_activate"@ {
            match r {
                Ok(DesktopEvent::DesktopActivate(x)) => DesktopActivateInfo::read_from(t, Ok(x)),
                Ok(_) => false,
                Err(e) => DesktopActivateInfo::read_from(t, Err(e)),
            }
        } else if t[0] == "desktop_layout"@ {
            match r {
                Ok(DesktopEvent::DesktopLayout(x)) => DesktopLayoutInfo::read_from(t, Ok(x)),
                Ok(_) => false,
                Err(e) => DesktopLayoutInfo::read_from(t, Err(e)),
            }
        } else {
            r == Err::<DesktopEvent, ParseError>(ParseError::ConversionFailed)
        }
    }

    /// Whether the first token is the tag of one of these events.
    pub fn is_tag(t: &Tokens) -> (r: bool)
        requires
            t.wf(),
        ensures
            r == DesktopEvent::has_tag(t@[0]),
    {
        t.is(0, "desktop_add")
            || t.is(0, "desktop_rename")
            || t.is(0, "desktop_remove")
            || t.is(0, "desktop_swap")
            || t.is(0, "desktop_transfer")
            || t.is(0, "desktop_focus")
            || t.is(0, "desktop_activate")
            || t.is(0, "desktop_layout")
    }

    pub(crate) fn from_tokens(t: &Tokens) -> (r: Result<DesktopEvent, ParseError>)
        requires
            t.wf(),
        ensures
            DesktopEvent::read_from(t@, r),
    {
        if t.is(0, "desktop_add") {
            match DesktopAddInfo::from_tokens(t) {
                Ok(x) => Ok(DesktopEvent::DesktopAdd(x)),
                Err(e) => Err(e),
            }
        } else if t.is(0, "desktop_rename") {
            match DesktopRenameInfo::from_tokens(t) {
                Ok(x) => Ok(DesktopEvent::DesktopRename(x)),
                Err(e) => Err(e),
            }
        } else if t.is(0, "desktop_remove") {
            match DesktopRemoveInfo::from_tokens(t) {
                Ok(x) => Ok(DesktopEvent::DesktopRemove(x)),
                Err(e) => Err(e),
            }
        } else if t.is(0, "desktop_swap") {
            match DesktopSwapInfo::from_tokens(t) {
                Ok(x) => Ok(DesktopEvent::DesktopSwap(x)),
                Err(e) => Err(e),
            }
        } else if t.is(0, "desktop_transfer") {
            match DesktopTransferInfo::from_tokens(t) {
                Ok(x) => Ok(DesktopEvent::DesktopTransfer(x)),
                Err(e) => Err(e),
            }
        } else if t.is(0, "desktop_focus") {
            match DesktopFocusInfo::from_tokens(t) {
                Ok(x) => Ok(DesktopEvent::DesktopFocus(x)),
                Err(e) => Err(e),
            }
        } else if t.is(0, "desktop_activate") {
            match DesktopActivateInfo::from_tokens(t) {
                Ok(x) => Ok(DesktopEvent::DesktopActivate(x)),
                Err(e) => Err(e),
            }
        } else if t.is(0, "desktop_layout") {
            match DesktopLayoutInfo::from_tokens(t) {
                Ok(x) => Ok(DesktopEvent::DesktopLayout(x)),
                Err(e) => Err(e),
            }
        } else {
            Err(ParseError::ConversionFailed)
        }
    }

    /// Decodes a record of one of these events.
    pub fn parse(input: &str) -> (r: Result<DesktopEvent, ParseError>)
        ensures
            DesktopEvent::read_from(tokens(input@), r),
    {
        let t = Tokens::of(input);
        DesktopEvent::from_tokens(&t)
    }
}

impl std::str::FromStr for DesktopEvent {
    type Err = ParseError;

    fn from_str(input: &str) -> Result<DesktopEvent, ParseError> {
        DesktopEvent::parse(input)
    }
}

} // verus!
