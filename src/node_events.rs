//! Decoding of the records of node events.
use vstd::prelude::*;

use crate::errors::ParseError;
use crate::events::{NodeActivateInfo, NodeAddInfo, NodeEvent, NodeFlagInfo, NodeFocusInfo, NodeGeometryInfo, NodeLayerInfo, NodePreselInfo, NodeRemoveInfo, NodeStackInfo, NodeStateInfo, NodeSwapInfo, NodeTransferInfo};
use crate::numbers::id_of;
use crate::parser::{header_error, tokens, Tokens};
use crate::properties::{Flag, Layer, Presel, Rectangle, Stack, State, Switch};

verus! {

impl NodeAddInfo {
    /// What the tokens `t` of a `node_add` record decode to: the fields in
    /// order, the first that fails giving the error.
    pub open spec fn read_from(t: Seq<Seq<char>>, r: Result<NodeAddInfo, ParseError>) -> bool {
        match header_error(t, "node_add"@, 4) {
            Some(e) => r == Err::<Self, ParseError>(e),
            None => {
                match (id_of(t[1]), id_of(t[2]), id_of(t[3]), id_of(t[4])) {
                    (Some(monitor_id), Some(desktop_id), Some(ip_id), Some(node_id)) => {
                        r == Ok::<Self, ParseError>(Self { monitor_id, desktop_id, ip_id, node_id })
                    },
                    _ => r == Err::<Self, ParseError>(ParseError::ConversionFailed),
                }
            },
        }
    }

    pub(crate) fn from_tokens(t: &Tokens) -> (r: Result<NodeAddInfo, ParseError>)
        requires
            t.wf(),
        ensures
            NodeAddInfo::read_from(t@, r),
    {
        if let Err(e) = t.expect("node_add", 4) {
            return Err(e);
        }
        let monitor_id = match t.id(1) {
            Ok(v) => v,
            Err(e) => return Err(e),
        };
        let desktop_id = match t.id(2) {
            Ok(v) => v,
            Err(e) => return Err(e),
        };
        let ip_id = match t.id(3) {
            Ok(v) => v,
            Err(e) => return Err(e),
        };
        let node_id = match t.id(4) {
            Ok(v) => v,
            Err(e) => return Err(e),
        };
        Ok(NodeAddInfo { monitor_id, desktop_id, ip_id, node_id })
    }

    /// Decodes a `node_add` record.
    pub fn parse(input: &str) -> (r: Result<NodeAddInfo, ParseError>)
        ensures
            NodeAddInfo::read_from(tokens(input@), r),
    {
        let t = Tokens::of(input);
        NodeAddInfo::from_tokens(&t)
    }
}

impl std::str::FromStr for NodeAddInfo {
    type Err = ParseError;

    fn from_str(input: &str) -> Result<NodeAddInfo, ParseError> {
        NodeAddInfo::parse(input)
    }
}

impl NodeRemoveInfo {
    /// What the tokens `t` of a `node_remove` record decode to: the fields in
    /// order, the first that fails giving the error.
    pub open spec fn read_from(t: Seq<Seq<char>>, r: Result<NodeRemoveInfo, ParseError>) -> bool {
        match header_error(t, "node_remove"@, 3) {
            Some(e) => r == Err::<Self, ParseError>(e),
            None => {
                match (id_of(t[1]), id_of(t[2]), id_of(t[3])) {
                    (Some(monitor_id), Some(desktop_id), Some(node_id)) => {
                        r == Ok::<Self, ParseError>(Self { monitor_id, desktop_id, node_id })
                    },
                    _ => r == Err::<Self, ParseError>(ParseError::ConversionFailed),
                }
            },
        }
    }

    pub(crate) fn from_tokens(t: &Tokens) -> (r: Result<NodeRemoveInfo, ParseError>)
        requires
            t.wf(),
        ensures
            NodeRemoveInfo::read_from(t@, r),
    {
        if let Err(e) = t.expect("node_remove", 3) {
            return Err(e);
        }
        let monitor_id = match t.id(1) {
            Ok(v) => v,
            Err(e) => return Err(e),
        };
        let desktop_id = match t.id(2) {
            Ok(v) => v,
            Err(e) => return Err(e),
        };
        let node_id = match t.id(3) {
            Ok(v) => v,
            Err(e) => return Err(e),
        };
        Ok(NodeRemoveInfo { monitor_id, desktop_id, node_id })
    }

    /// Decodes a `node_remove` record.
    pub fn parse(input: &str) -> (r: Result<NodeRemoveInfo, ParseError>)
        ensures
            NodeRemoveInfo::read_from(tokens(input@), r),
    {
        let t = Tokens::of(input);
        NodeRemoveInfo::from_tokens(&t)
    }
}

impl std::str::FromStr for NodeRemoveInfo {
    type Err = ParseError;

    fn from_str(input: &str) -> Result<NodeRemoveInfo, ParseError> {
        NodeRemoveInfo::parse(input)
    }
}

impl NodeSwapInfo {
    /// What the tokens `t` of a `node_swap` record decode to: the fields in
    /// order, the first that fails giving the error.
    pub open spec fn read_from(t: Seq<Seq<char>>, r: Result<NodeSwapInfo, ParseError>) -> bool {
        match header_error(t, "node_swap"@, 6) {
            Some(e) => r == Err::<Self, ParseError>(e),
            None => {
                match (id_of(t[1]), id_of(t[2]), id_of(t[3]), id_of(t[4]), id_of(t[5]), id_of(t[6])) {
                    (Some(src_monitor_id), Some(src_desktop_id), Some(src_node_id), Some(dst_monitor_id), Some(dst_desktop_id), Some(dst_node_id)) => {
                        r == Ok::<Self, ParseError>(Self { src_monitor_id, src_desktop_id, src_node_id, dst_monitor_id, dst_desktop_id, dst_node_id })
                    },
                    _ => r == Err::<Self, ParseError>(ParseError::ConversionFailed),
                }
            },
        }
    }

    pub(crate) fn from_tokens(t: &Tokens) -> (r: Result<NodeSwapInfo, ParseError>)
        requires
            t.wf(),
        ensures
            NodeSwapInfo::read_from(t@, r),
    {
        if let Err(e) = t.expect("node_swap", 6) {
            return Err(e);
        }
        let src_monitor_id = match t.id(1) {
            Ok(v) => v,
            Err(e) => return Err(e),
        };
        let src_desktop_id = match t.id(2) {
            Ok(v) => v,
            Err(e) => return Err(e),
        };
        let src_node_id = match t.id(3) {
            Ok(v) => v,
            Err(e) => return Err(e),
        };
        let dst_monitor_id = match t.id(4) {
            Ok(v) => v,
            Err(e) => return Err(e),
        };
        let dst_desktop_id = match t.id(5) {
            Ok(v) => v,
            Err(e) => return Err(e),
        };
        let dst_node_id = match t.id(6) {
            Ok(v) => v,
            Err(e) => return Err(e),
        };
        Ok(NodeSwapInfo { src_monitor_id, src_desktop_id, src_node_id, dst_monitor_id, dst_desktop_id, dst_node_id })
    }

    /// Decodes a `node_swap` record.
    pub fn parse(input: &str) -> (r: Result<NodeSwapInfo, ParseError>)
        ensures
            NodeSwapInfo::read_from(tokens(input@), r),
    {
        let t = Tokens::of(input);
        NodeSwapInfo::from_tokens(&t)
    }
}

impl std::str::FromStr for NodeSwapInfo {
    type Err = ParseError;

    fn from_str(input: &str) -> Result<NodeSwapInfo, ParseError> {
        NodeSwapInfo::parse(input)
    }
}

impl NodeTransferInfo {
    /// What the tokens `t` of a `node_transfer` record decode to: the fields in
    /// order, the first that fails giving the error.
    pub open spec fn read_from(t: Seq<Seq<char>>, r: Result<NodeTransferInfo, ParseError>) -> bool {
        match header_error(t, "node_transfer"@, 6) {
            Some(e) => r == Err::<Self, ParseError>(e),
            None => {
                match (id_of(t[1]), id_of(t[2]), id_of(t[3]), id_of(t[4]), id_of(t[5]), id_of(t[6])) {
                    (Some(src_monitor_id), Some(src_desktop_id), Some(src_node_id), Some(dst_monitor_id), Some(dst_desktop_id), Some(dst_node_id)) => {
                        r == Ok::<Self, ParseError>(Self { src_monitor_id, src_desktop_id, src_node_id, dst_monitor_id, dst_desktop_id, dst_node_id })
                    },
                    _ => r == Err::<Self, ParseError>(ParseError::ConversionFailed),
                }
            },
        }
    }

    pub(crate) fn from_tokens(t: &Tokens) -> (r: Result<NodeTransferInfo, ParseError>)
        requires
            t.wf(),
        ensures
            NodeTransferInfo::read_from(t@, r),
    {
        if let Err(e) = t.expect("node_transfer", 6) {
            return Err(e);
        }
        let src_monitor_id = match t.id(1) {
            Ok(v) => v,
            Err(e) => return Err(e),
        };
        let src_desktop_id = match t.id(2) {
            Ok(v) => v,
            Err(e) => return Err(e),
        };
        let src_node_id = match t.id(3) {
            Ok(v) => v,
            Err(e) => return Err(e),
        };
        let dst_monitor_id = match t.id(4) {
            Ok(v) => v,
            Err(e) => return Err(e),
        };
        let dst_desktop_id = match t.id(5) {
            Ok(v) => v,
            Err(e) => return Err(e),
        };
        let dst_node_id = match t.id(6) {
            Ok(v) => v,
            Err(e) => return Err(e),
        };
        Ok(NodeTransferInfo { src_monitor_id, src_desktop_id, src_node_id, dst_monitor_id, dst_desktop_id, dst_node_id })
    }

    /// Decodes a `node_transfer` record.
    pub fn parse(input: &str) -> (r: Result<NodeTransferInfo, ParseError>)
        ensures
            NodeTransferInfo::read_from(tokens(input@), r),
    {
        let t = Tokens::of(input);
        NodeTransferInfo::from_tokens(&t)
    }
}

impl std::str::FromStr for NodeTransferInfo {
    type Err = ParseError;

    fn from_str(input: &str) -> Result<NodeTransferInfo, ParseError> {
        NodeTransferInfo::parse(input)
    }
}

impl NodeFocusInfo {
    /// What the tokens `t` of a `node_focus` record decode to: the fields in
    /// order, the first that fails giving the error.
    pub open spec fn read_from(t: Seq<Seq<char>>, r: Result<NodeFocusInfo, ParseError>) -> bool {
        match header_error(t, "node_focus"@, 3) {
            Some(e) => r == Err::<Self, ParseError>(e),
            None => {
                match (id_of(t[1]), id_of(t[2]), id_of(t[3])) {
                    (Some(monitor_id), Some(desktop_id), Some(node_id)) => {
                        r == Ok::<Self, ParseError>(Self { monitor_id, desktop_id, node_id })
                    },
                    _ => r == Err::<Self, ParseError>(ParseError::ConversionFailed),
                }
            },
        }
    }

    pub(crate) fn from_tokens(t: &Tokens) -> (r: Result<NodeFocusInfo, ParseError>)
        requires
            t.wf(),
        ensures
            NodeFocusInfo::read_from(t@, r),
    {
        if let Err(e) = t.expect("node_focus", 3) {
            return Err(e);
        }
        let monitor_id = match t.id(1) {
            Ok(v) => v,
            Err(e) => return Err(e),
        };
        let desktop_id = match t.id(2) {
            Ok(v) => v,
            Err(e) => return Err(e),
        };
        let node_id = match t.id(3) {
            Ok(v) => v,
            Err(e) => return Err(e),
        };
        Ok(NodeFocusInfo { monitor_id, desktop_id, node_id })
    }

    /// Decodes a `node_focus` record.
    pub fn parse(input: &str) -> (r: Result<NodeFocusInfo, ParseError>)
        ensures
            NodeFocusInfo::read_from(tokens(input@), r),
    {
        let t = Tokens::of(input);
        NodeFocusInfo::from_tokens(&t)
    }
}

impl std::str::FromStr for NodeFocusInfo {
    type Err = ParseError;

    fn from_str(input: &str) -> Result<NodeFocusInfo, ParseError> {
        NodeFocusInfo::parse(input)
    }
}

impl NodeActivateInfo {
    /// What the tokens `t` of a `node_activate` record decode to: the fields in
    /// order, the first that fails giving the error.
    pub open spec fn read_from(t: Seq<Seq<char>>, r: Result<NodeActivateInfo, ParseError>) -> bool {
        match header_error(t, "node_activate"@, 3) {
            Some(e) => r == Err::<Self, ParseError>(e),
            None => {
                match (id_of(t[1]), id_of(t[2]), id_of(t[3])) {
                    (Some(monitor_id), Some(desktop_id), Some(node_id)) => {
                        r == Ok::<Self, ParseError>(Self { monitor_id, desktop_id, node_id })
                    },
                    _ => r == Err::<Self, ParseError>(ParseError::ConversionFailed),
                }
            },
        }
    }

    pub(crate) fn from_tokens(t: &Tokens) -> (r: Result<NodeActivateInfo, ParseError>)
        requires
            t.wf(),
        ensures
            NodeActivateInfo::read_from(t@, r),
    {
        if let Err(e) = t.expect("node_activate", 3) {
            return Err(e);
        }
        let monitor_id = match t.id(1) {
            Ok(v) => v,
            Err(e) => return Err(e),
        };
        let desktop_id = match t.id(2) {
            Ok(v) => v,
            Err(e) => return Err(e),
        };
        let node_id = match t.id(3) {
            Ok(v) => v,
            Err(e) => return Err(e),
        };
        Ok(NodeActivateInfo { monitor_id, desktop_id, node_id })
    }

    /// Decodes a `node_activate` record.
    pub fn parse(input: &str) -> (r: Result<NodeActivateInfo, ParseError>)
        ensures
            NodeActivateInfo::read_from(tokens(input@), r),
    {
        let t = Tokens::of(input);
        NodeActivateInfo::from_tokens(&t)
    }
}

impl std::str::FromStr for NodeActivateInfo {
    type Err = ParseError;

    fn from_str(input: &str) -> Result<NodeActivateInfo, ParseError> {
        NodeActivateInfo::parse(input)
    }
}

impl NodePreselInfo {
    /// What the tokens `t` of a `node_presel` record decode to: the fields in
    /// order, the first that fails giving the error.
    pub open spec fn read_from(t: Seq<Seq<char>>, r: Result<NodePreselInfo, ParseError>) -> bool {
        match header_error(t, "node_presel"@, 4) {
            Some(e) => r == Err::<Self, ParseError>(e),
            None => {
                match (id_of(t[1]), id_of(t[2]), id_of(t[3])) {
                    (Some(monitor_id), Some(desktop_id), Some(node_id)) => {
                        match r {
                            Ok(x) => x.monitor_id == monitor_id && x.desktop_id == desktop_id && x.node_id == node_id && Presel::read_from(t, 4, Ok(x.presel)),
                            Err(e) => Presel::read_from(t, 4, Err(e)),
                        }
                    },
                    _ => r == Err::<Self, ParseError>(ParseError::ConversionFailed),
                }
            },
        }
    }

    pub(crate) fn from_tokens(t: &Tokens) -> (r: Result<NodePreselInfo, ParseError>)
        requires
            t.wf(),
        ensures
            NodePreselInfo::read_from(t@, r),
    {
        if let Err(e) = t.expect("node_presel", 4) {
            return Err(e);
        }
        let monitor_id = match t.id(1) {
            Ok(v) => v,
            Err(e) => return Err(e),
        };
        let desktop_id = match t.id(2) {
            Ok(v) => v,
            Err(e) => return Err(e),
        };
        let node_id = match t.id(3) {
            Ok(v) => v,
            Err(e) => return Err(e),
        };
        let presel = match Presel::from_tokens(t, 4) {
            Ok(v) => v,
            Err(e) => return Err(e),
        };
        Ok(NodePreselInfo { monitor_id, desktop_id, node_id, presel })
    }

    /// Decodes a `node_presel` record.
    pub fn parse(input: &str) -> (r: Result<NodePreselInfo, ParseError>)
        ensures
            NodePreselInfo::read_from(tokens(input@), r),
    {
        let t = Tokens::of(input);
        NodePreselInfo::from_tokens(&t)
    }
}

impl std::str::FromStr for NodePreselInfo {
    type Err = ParseError;

    fn from_str(input: &str) -> Result<NodePreselInfo, ParseError> {
        NodePreselInfo::parse(input)
    }
}

impl NodeStackInfo {
    /// What the tokens `t` of a `node_stack` record decode to: the fields in
    /// order, the first that fails giving the error.
    pub open spec fn read_from(t: Seq<Seq<char>>, r: Result<NodeStackInfo, ParseError>) -> bool {
        match header_error(t, "node_stack"@, 3) {
            Some(e) => r == Err::<Self, ParseError>(e),
            None => {
                match (id_of(t[1]), Stack::spec_from_text(t[2]), id_of(t[3])) {
                    (Some(node_id_1), Some(stack), Some(node_id_2)) => {
                        r == Ok::<Self, ParseError>(Self { node_id_1, stack, node_id_2 })
                    },
                    _ => r == Err::<Self, ParseError>(ParseError::ConversionFailed),
                }
            },
        }
    }

    pub(crate) fn from_tokens(t: &Tokens) -> (r: Result<NodeStackInfo, ParseError>)
        requires
            t.wf(),
        ensures
            NodeStackInfo::read_from(t@, r),
    {
        if let Err(e) = t.expect("node_stack", 3) {
            return Err(e);
        }
        let node_id_1 = match t.id(1) {
            Ok(v) => v,
            Err(e) => return Err(e),
        };
        let (lo, hi) = t.span(2);
        let stack = match Stack::from_chars(&t.chars, lo, hi) {
            Some(v) => v,
            None => return Err(ParseError::ConversionFailed),
        };
        let node_id_2 = match t.id(3) {
            Ok(v) => v,
            Err(e) => return Err(e),
        };
        Ok(NodeStackInfo { node_id_1, stack, node_id_2 })
    }

    /// Decodes a `node_stack` record.
    pub fn parse(input: &str) -> (r: Result<NodeStackInfo, ParseError>)
        ensures
            NodeStackInfo::read_from(tokens(input@), r),
    {
        let t = Tokens::of(input);
        NodeStackInfo::from_tokens(&t)
    }
}

impl std::str::FromStr for NodeStackInfo {
    type Err = ParseError;

    fn from_str(input: &str) -> Result<NodeStackInfo, ParseError> {
        NodeStackInfo::parse(input)
    }
}

impl NodeGeometryInfo {
    /// What the tokens `t` of a `node_geometry` record decode to: the fields in
    /// order, the first that fails giving the error.
    pub open spec fn read_from(t: Seq<Seq<char>>, r: Result<NodeGeometryInfo, ParseError>) -> bool {
        match header_error(t, "node_geometry"@, 4) {
            Some(e) => r == Err::<Self, ParseError>(e),
            None => {
                match (id_of(t[1]), id_of(t[2]), id_of(t[3])) {
                    (Some(monitor_id), Some(desktop_id), Some(node_id)) => {
                        match Rectangle::spec_from_text(t[4]) {
                            Err(e) => r == Err::<Self, ParseError>(e),
                            Ok(node_geometry) => {
                                r == Ok::<Self, ParseError>(Self { monitor_id, desktop_id, node_id, node_geometry })
                            },
                        }
                    },
                    _ => r == Err::<Self, ParseError>(ParseError::ConversionFailed),
                }
            },
        }
    }

    pub(crate) fn from_tokens(t: &Tokens) -> (r: Result<NodeGeometryInfo, ParseError>)
        requires
            t.wf(),
        ensures
            NodeGeometryInfo::read_from(t@, r),
    {
        if let Err(e) = t.expect("node_geometry", 4) {
            return Err(e);
        }
        let monitor_id = match t.id(1) {
            Ok(v) => v,
            Err(e) => return Err(e),
        };
        let desktop_id = match t.id(2) {
            Ok(v) => v,
            Err(e) => return Err(e),
        };
        let node_id = match t.id(3) {
            Ok(v) => v,
            Err(e) => return Err(e),
        };
        let node_geometry = match t.rectangle(4) {
            Ok(v) => v,
            Err(e) => return Err(e),
        };
        Ok(NodeGeometryInfo { monitor_id, desktop_id, node_id, node_geometry })
    }

    /// Decodes a `node_geometry` record.
    pub fn parse(input: &str) -> (r: Result<NodeGeometryInfo, ParseError>)
        ensures
            NodeGeometryInfo::read_from(tokens(input@), r),
    {
        let t = Tokens::of(input);
        NodeGeometryInfo::from_tokens(&t)
    }
}

impl std::str::FromStr for NodeGeometryInfo {
    type Err = ParseError;

    fn from_str(input: &str) -> Result<NodeGeometryInfo, ParseError> {
        NodeGeometryInfo::parse(input)
    }
}

impl NodeStateInfo {
    /// What the tokens `t` of a `node_state` record decode to: the fields in
    /// order, the first that fails giving the error.
    pub open spec fn read_from(t: Seq<Seq<char>>, r: Result<NodeStateInfo, ParseError>) -> bool {
        match header_error(t, "node_state"@, 5) {
            Some(e) => r == Err::<Self, ParseError>(e),
            None => {
                match (id_of(t[1]), id_of(t[2]), id_of(t[3]), State::spec_from_text(t[4]), Switch::spec_from_text(t[5])) {
                    (Some(monitor_id), Some(desktop_id), Some(node_id), Some(state), Some(switch)) => {
                        r == Ok::<Self, ParseError>(Self { monitor_id, desktop_id, node_id, state, switch })
                    },
                    _ => r == Err::<Self, ParseError>(ParseError::ConversionFailed),
                }
            },
        }
    }

    pub(crate) fn from_tokens(t: &Tokens) -> (r: Result<NodeStateInfo, ParseError>)
        requires
            t.wf(),
        ensures
            NodeStateInfo::read_from(t@, r),
    {
        if let Err(e) = t.expect("node_state", 5) {
            return Err(e);
        }
        let monitor_id = match t.id(1) {
            Ok(v) => v,
            Err(e) => return Err(e),
        };
        let desktop_id = match t.id(2) {
            Ok(v) => v,
            Err(e) => return Err(e),
        };
        let node_id = match t.id(3) {
            Ok(v) => v,
            Err(e) => return Err(e),
        };
        let (lo, hi) = t.span(4);
        let state = match State::from_chars(&t.chars, lo, hi) {
            Some(v) => v,
            None => return Err(ParseError::ConversionFailed),
        };
        let (lo, hi) = t.span(5);
        let switch = match Switch::from_chars(&t.chars, lo, hi) {
            Some(v) => v,
            None => return Err(ParseError::ConversionFailed),
        };
        Ok(NodeStateInfo { monitor_id, desktop_id, node_id, state, switch })
    }

    /// Decodes a `node_state` record.
    pub fn parse(input: &str) -> (r: Result<NodeStateInfo, ParseError>)
        ensures
            NodeStateInfo::read_from(tokens(input@), r),
    {
        let t = Tokens::of(input);
        NodeStateInfo::from_tokens(&t)
    }
}

impl std::str::FromStr for NodeStateInfo {
    type Err = ParseError;

    fn from_str(input: &str) -> Result<NodeStateInfo, ParseError> {
        NodeStateInfo::parse(input)
    }
}

impl NodeFlagInfo {
    /// What the tokens `t` of a `node_flag` record decode to: the fields in
    /// order, the first that fails giving the error.
    pub open spec fn read_from(t: Seq<Seq<char>>, r: Result<NodeFlagInfo, ParseError>) -> bool {
        match header_error(t, "node_flag"@, 5) {
            Some(e) => r == Err::<Self, ParseError>(e),
            None => {
                match (id_of(t[1]), id_of(t[2]), id_of(t[3]), Flag::spec_from_text(t[4]), Switch::spec_from_text(t[5])) {
                    (Some(monitor_id), Some(desktop_id), Some(node_id), Some(flag), Some(switch)) => {
                        r == Ok::<Self, ParseError>(Self { monitor_id, desktop_id, node_id, flag, switch })
                    },
                    _ => r == Err::<Self, ParseError>(ParseError::ConversionFailed),
                }
            },
        }
    }

    pub(crate) fn from_tokens(t: &Tokens) -> (r: Result<NodeFlagInfo, ParseError>)
        requires
            t.wf(),
        ensures
            NodeFlagInfo::read_from(t@, r),
    {
        if let Err(e) = t.expect("node_flag", 5) {
            return Err(e);
        }
        let monitor_id = match t.id(1) {
            Ok(v) => v,
            Err(e) => return Err(e),
        };
        let desktop_id = match t.id(2) {
            Ok(v) => v,
            Err(e) => return Err(e),
        };
        let node_id = match t.id(3) {
            Ok(v) => v,
            Err(e) => return Err(e),
        };
        let (lo, hi) = t.span(4);
        let flag = match Flag::from_chars(&t.chars, lo, hi) {
            Some(v) => v,
            None => return Err(ParseError::ConversionFailed),
        };
        let (lo, hi) = t.span(5);
        let switch = match Switch::from_chars(&t.chars, lo, hi) {
            Some(v) => v,
            None => return Err(ParseError::ConversionFailed),
        };
        Ok(NodeFlagInfo { monitor_id, desktop_id, node_id, flag, switch })
    }

    /// Decodes a `node_flag` record.
    pub fn parse(input: &str) -> (r: Result<NodeFlagInfo, ParseError>)
        ensures
            NodeFlagInfo::read_from(tokens(input@), r),
    {
        let t = Tokens::of(input);
        NodeFlagInfo::from_tokens(&t)
    }
}

impl std::str::FromStr for NodeFlagInfo {
    type Err = ParseError;

    fn from_str(input: &str) -> Result<NodeFlagInfo, ParseError> {
        NodeFlagInfo::parse(input)
    }
}

impl NodeLayerInfo {
    /// What the tokens `t` of a `node_layer` record decode to: the fields in
    /// order, the first that fails giving the error.
    pub open spec fn read_from(t: Seq<Seq<char>>, r: Result<NodeLayerInfo, ParseError>) -> bool {
        match header_error(t, "node_layer"@, 4) {
            Some(e) => r == Err::<Self, ParseError>(e),
            None => {
                match (id_of(t[1]), id_of(t[2]), id_of(t[3]), Layer::spec_from_text(t[4])) {
                    (Some(monitor_id), Some(desktop_id), Some(node_id), Some(layer)) => {
                        r == Ok::<Self, ParseError>(Self { monitor_id, desktop_id, node_id, layer })
                    },
                    _ => r == Err::<Self, ParseError>(ParseError::ConversionFailed),
                }
            },
        }
    }

    pub(crate) fn from_tokens(t: &Tokens) -> (r: Result<NodeLayerInfo, ParseError>)
        requires
            t.wf(),
        ensures
            NodeLayerInfo::read_from(t@, r),
    {
        if let Err(e) = t.expect("node_layer", 4) {
            return Err(e);
        }
        let monitor_id = match t.id(1) {
            Ok(v) => v,
            Err(e) => return Err(e),
        };
        let desktop_id = match t.id(2) {
            Ok(v) => v,
            Err(e) => return Err(e),
        };
        let node_id = match t.id(3) {
            Ok(v) => v,
            Err(e) => return Err(e),
        };
        let (lo, hi) = t.span(4);
        let layer = match Layer::from_chars(&t.chars, lo, hi) {
            Some(v) => v,
            None => return Err(ParseError::ConversionFailed),
        };
        Ok(NodeLayerInfo { monitor_id, desktop_id, node_id, layer })
    }

    /// Decodes a `node_layer` record.
    pub fn parse(input: &str) -> (r: Result<NodeLayerInfo, ParseError>)
        ensures
            NodeLayerInfo::read_from(tokens(input@), r),
    {
        let t = Tokens::of(input);
        NodeLayerInfo::from_tokens(&t)
    }
}

impl std::str::FromStr for NodeLayerInfo {
    type Err = ParseError;

    fn from_str(input: &str) -> Result<NodeLayerInfo, ParseError> {
        NodeLayerInfo::parse(input)
    }
}

impl NodeEvent {
    /// Whether `tag` is the tag of one of these events.
    pub open spec fn has_tag(tag: Seq<char>) -> bool {
        tag == "node_add"@
        || tag == "node_remove"@
        || tag == "node_swap"@
        || tag == "node_transfer"@
        || tag == "node_focus"@
        || tag == "node_activate"@
        || tag == "node_presel"@
        || tag == "node_stack"@
        || tag == "node_geometry"@
        || tag == "node_state"@
        || tag == "node_flag"@
        || tag == "node_layer"@
    }

    /// What the tokens `t` decode to: the record of the kind that the tag
    /// names, or `ConversionFailed` for any other tag.
    pub open spec fn read_from(t: Seq<Seq<char>>, r: Result<NodeEvent, ParseError>) -> bool {
        if t[0] == "node_add"@ {
            match r {
                Ok(NodeEvent::NodeAdd(x)) => NodeAddInfo::read_from(t, Ok(x)),
                Ok(_) => false,
                Err(e) => NodeAddInfo::read_from(t, Err(e)),
            }
        } else if t[0] == "node_remove"@ {
            match r {
                Ok(NodeEvent::NodeRemove(x)) => NodeRemoveInfo::read_from(t, Ok(x)),
                Ok(_) => false,
                Err(e) => NodeRemoveInfo::read_from(t, Err(e)),
            }
        } else if t[0] == "node_swap"@ {
            match r {
                Ok(NodeEvent::NodeSwap(x)) => NodeSwapInfo::read_from(t, Ok(x)),
                Ok(_) => false,
                Err(e) => NodeSwapInfo::read_from(t, Err(e)),
            }
        } else if t[0] == "node_transfer"@ {
            match r {
                Ok(NodeEvent::NodeTransfer(x)) => NodeTransferInfo::read_from(t, Ok(x)),
                Ok(_) => false,
                Err(e) => NodeTransferInfo::read_from(t, Err(e)),
            }
        } else if t[0] == "node_focus"@ {
            match r {
                Ok(NodeEvent::NodeFocus(x)) => NodeFocusInfo::read_from(t, Ok(x)),
                Ok(_) => false,
                Err(e) => NodeFocusInfo::read_from(t, Err(e)),
            }
        } else if t[0] == "node_activate"@ {
            match r {
                Ok(NodeEvent::NodeActivate(x)) => NodeActivateInfo::read_from(t, Ok(x)),
                Ok(_) => false,
                Err(e) => NodeActivateInfo::read_from(t, Err(e)),
            }
        } else if t[0] == "node_presel"@ {
            match r {
                Ok(NodeEvent::NodePresel(x)) => NodePreselInfo::read_from(t, Ok(x)),
                Ok(_) => false,
                Err(e) => NodePreselInfo::read_from(t, Err(e)),
            }
        } else if t[0] == "node_stack"@ {
            match r {
                Ok(NodeEvent::NodeStack(x)) => NodeStackInfo::read_from(t, Ok(x)),
                Ok(_) => false,
                Err(e) => NodeStackInfo::read_from(t, Err(e)),
            }
        } else if t[0] == "node_geometry"@ {
            match r {
                Ok(NodeEvent::NodeGeometry(x)) => NodeGeometryInfo::read_from(t, Ok(x)),
                Ok(_) => false,
                Err(e) => NodeGeometryInfo::read_from(t, Err(e)),
            }
        } else if t[0] == "node_state"@ {
            match r {
                Ok(NodeEvent::NodeState(x)) => NodeStateInfo::read_from(t, Ok(x)),
                Ok(_) => false,
                Err(e) => NodeStateInfo::read_from(t, Err(e)),
            }
        } else if t[0] == "node_flag"@ {
            match r {
                Ok(NodeEvent::NodeFlag(x)) => NodeFlagInfo::read_from(t, Ok(x)),
                Ok(_) => false,
                Err(e) => NodeFlagInfo::read_from(t, Err(e)),
            }
        } else if t[0] == "node_layer"@ {
            match r {
                Ok(NodeEvent::NodeLayer(x)) => NodeLayerInfo::read_from(t, Ok(x)),
                Ok(_) => false,
                Err(e) => NodeLayerInfo::read_from(t, Err(e)),
            }
        } else {
            r == Err::<NodeEvent, ParseError>(ParseError::ConversionFailed)
        }
    }

    /// Whether the first token is the tag of one of these events.
    pub fn is_tag(t: &Tokens) -> (r: bool)
        requires
            t.wf(),
        ensures
            r == NodeEvent::has_tag(t@[0]),
    {
        t.is(0, "node_add")
            || t.is(0, "node_remove")
            || t.is(0, "node_swap")
            || t.is(0, "node_transfer")
            || t.is(0, "node_focus")
            || t.is(0, "node_activate")
            || t.is(0, "node_presel")
            || t.is(0, "node_stack")
            || t.is(0, "node_geometry")
            || t.is(0, "node_state")
            || t.is(0, "node_flag")
            || t.is(0, "node_layer")
    }

    pub(crate) fn from_tokens(t: &Tokens) -> (r: Result<NodeEvent, ParseError>)
        requires
            t.wf(),
        ensures
            NodeEvent::read_from(t@, r),
    {
        if t.is(0, "node_add") {
            match NodeAddInfo::from_tokens(t) {
                Ok(x) => Ok(NodeEvent::NodeAdd(x)),
                Err(e) => Err(e),
            }
        } else if t.is(0, "node_remove") {
            match NodeRemoveInfo::from_tokens(t) {
                Ok(x) => Ok(NodeEvent::NodeRemove(x)),
                Err(e) => Err(e),
            }
        } else if t.is(0, "node_swap") {
            match NodeSwapInfo::from_tokens(t) {
                Ok(x) => Ok(NodeEvent::NodeSwap(x)),
                Err(e) => Err(e),
            }
        } else if t.is(0, "node_transfer") {
            match NodeTransferInfo::from_tokens(t) {
                Ok(x) => Ok(NodeEvent::NodeTransfer(x)),
                Err(e) => Err(e),
            }
        } else if t.is(0, "node_focus") {
            match NodeFocusInfo::from_tokens(t) {
                Ok(x) => Ok(NodeEvent::NodeFocus(x)),
                Err(e) => Err(e),
            }
        } else if t.is(0, "node_activate") {
            match NodeActivateInfo::from_tokens(t) {
                Ok(x) => Ok(NodeEvent::NodeActivate(x)),
                Err(e) => Err(e),
            }
        } else if t.is(0, "node_presel") {
            match NodePreselInfo::from_tokens(t) {
                Ok(x) => Ok(NodeEvent::NodePresel(x)),
                Err(e) => Err(e),
            }
        } else if t.is(0, "node_stack") {
            match NodeStackInfo::from_tokens(t) {
                Ok(x) => Ok(NodeEvent::NodeStack(x)),
                Err(e) => Err(e),
            }
        } else if t.is(0, "node_geometry") {
            match NodeGeometryInfo::from_tokens(t) {
                Ok(x) => Ok(NodeEvent::NodeGeometry(x)),
                Err(e) => Err(e),
            }
        } else if t.is(0, "node_state") {
            match NodeStateInfo::from_tokens(t) {
                Ok(x) => Ok(NodeEvent::NodeState(x)),
                Err(e) => Err(e),
            }
        } else if t.is(0, "node_flag") {
            match NodeFlagInfo::from_tokens(t) {
                Ok(x) => Ok(NodeEvent::NodeFlag(x)),
                Err(e) => Err(e),
            }
        } else if t.is(0, "node_layer") {
            match NodeLayerInfo::from_tokens(t) {
                Ok(x) => Ok(NodeEvent::NodeLayer(x)),
                Err(e) => Err(e),
            }
        } else {
            Err(ParseError::ConversionFailed)
        }
    }

    /// Decodes a record of one of these events.
    pub fn parse(input: &str) -> (r: Result<NodeEvent, ParseError>)
        ensures
            NodeEvent::read_from(tokens(input@), r),
    {
        let t = Tokens::of(input);
        NodeEvent::from_tokens(&t)
    }
}

impl std::str::FromStr for NodeEvent {
    type Err = ParseError;

    fn from_str(input: &str) -> Result<NodeEvent, ParseError> {
        NodeEvent::parse(input)
    }
}

} // verus!
