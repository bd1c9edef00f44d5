//! What the record grammar guarantees: the record that the window manager
//! writes for an event decodes to that event, short records and unknown
//! tags are refused with the errors that say so, and decoding depends on
//! the record alone.
use vstd::prelude::*;

use crate::errors::ParseError;
use crate::events::{
    DesktopActivateInfo, DesktopAddInfo, DesktopEvent, DesktopFocusInfo, DesktopLayoutInfo,
    DesktopRemoveInfo, DesktopRenameInfo, DesktopSwapInfo, DesktopTransferInfo, Event,
    MonitorAddInfo, MonitorEvent, MonitorFocusInfo, MonitorGeometryInfo, MonitorRemoveInfo,
    MonitorRenameInfo, MonitorSwapInfo, NodeActivateInfo, NodeAddInfo, NodeEvent, NodeFlagInfo,
    NodeFocusInfo, NodeGeometryInfo, NodeLayerInfo, NodePreselInfo, NodeRemoveInfo, NodeStackInfo,
    NodeStateInfo, NodeSwapInfo, NodeTransferInfo, PointerActionInfo,
};
use crate::numbers::{id_of, id_text, lemma_id_round_trip, lemma_id_text_plain};
use crate::parser::{header_error, known_tag, tokens};
use crate::properties::Presel;
use crate::text::{join, lemma_tokens_of_join, plain};

verus! {

/// The tags of the grammar differ from each other, and are plain tokens.
proof fn lemma_tags_distinct()
    ensures
        plain("monitor_add"@),
        plain("monitor_rename"@),
        plain("monitor_remove"@),
        plain("monitor_swap"@),
        plain("monitor_focus"@),
        plain("monitor_geometry"@),
        plain("desktop_add"@),
        plain("desktop_rename"@),
        plain("desktop_remove"@),
        plain("desktop_swap"@),
        plain("desktop_transfer"@),
        plain("desktop_focus"@),
        plain("desktop_activate"@),
        plain("desktop_layout"@),
        plain("node_add"@),
        plain("node_remove"@),
        plain("node_swap"@),
        plain("node_transfer"@),
        plain("node_focus"@),
        plain("node_activate"@),
        plain("node_presel"@),
        plain("node_stack"@),
        plain("node_geometry"@),
        plain("node_state"@),
        plain("node_flag"@),
        plain("node_layer"@),
        plain("pointer_action"@),
        "monitor_add"@ != "monitor_rename"@,
        "monitor_add"@ != "monitor_remove"@,
        "monitor_add"@ != "monitor_swap"@,
        "monitor_add"@ != "monitor_focus"@,
        "monitor_add"@ != "monitor_geometry"@,
        "monitor_add"@ != "desktop_add"@,
        "monitor_add"@ != "desktop_rename"@,
        "monitor_add"@ != "desktop_remove"@,
        "monitor_add"@ != "desktop_swap"@,
        "monitor_add"@ != "desktop_transfer"@,
        "monitor_add"@ != "desktop_focus"@,
        "monitor_add"@ != "desktop_activate"@,
        "monitor_add"@ != "desktop_layout"@,
        "monitor_add"@ != "node_add"@,
        "monitor_add"@ != "node_remove"@,
        "monitor_add"@ != "node_swap"@,
        "monitor_add"@ != "node_transfer"@,
        "monitor_add"@ != "node_focus"@,
        "monitor_add"@ != "node_activate"@,
        "monitor_add"@ != "node_presel"@,
        "monitor_add"@ != "node_stack"@,
        "monitor_add"@ != "node_geometry"@,
        "monitor_add"@ != "node_state"@,
        "monitor_add"@ != "node_flag"@,
        "monitor_add"@ != "node_layer"@,
        "monitor_add"@ != "pointer_action"@,
        "monitor_rename"@ != "monitor_remove"@,
        "monitor_rename"@ != "monitor_swap"@,
        "monitor_rename"@ != "monitor_focus"@,
        "monitor_rename"@ != "monitor_geometry"@,
        "monitor_rename"@ != "desktop_add"@,
        "monitor_rename"@ != "desktop_rename"@,
        "monitor_rename"@ != "desktop_remove"@,
        "monitor_rename"@ != "desktop_swap"@,
        "monitor_rename"@ != "desktop_transfer"@,
        "monitor_rename"@ != "desktop_focus"@,
        "monitor_rename"@ != "desktop_activate"@,
        "monitor_rename"@ != "desktop_layout"@,
        "monitor_rename"@ != "node_add"@,
        "monitor_rename"@ != "node_remove"@,
        "monitor_rename"@ != "node_swap"@,
        "monitor_rename"@ != "node_transfer"@,
        "monitor_rename"@ != "node_focus"@,
        "monitor_rename"@ != "node_activate"@,
        "monitor_rename"@ != "node_presel"@,
        "monitor_rename"@ != "node_stack"@,
        "monitor_rename"@ != "node_geometry"@,
        "monitor_rename"@ != "node_state"@,
        "monitor_rename"@ != "node_flag"@,
        "monitor_rename"@ != "node_layer"@,
        "monitor_rename"@ != "pointer_action"@,
        "monitor_remove"@ != "monitor_swap"@,
        "monitor_remove"@ != "monitor_focus"@,
        "monitor_remove"@ != "monitor_geometry"@,
        "monitor_remove"@ != "desktop_add"@,
        "monitor_remove"@ != "desktop_rename"@,
        "monitor_remove"@ != "desktop_remove"@,
        "monitor_remove"@ != "desktop_swap"@,
        "monitor_remove"@ != "desktop_transfer"@,
        "monitor_remove"@ != "desktop_focus"@,
        "monitor_remove"@ != "desktop_activate"@,
        "monitor_remove"@ != "desktop_layout"@,
        "monitor_remove"@ != "node_add"@,
        "monitor_remove"@ != "node_remove"@,
        "monitor_remove"@ != "node_swap"@,
        "monitor_remove"@ != "node_transfer"@,
        "monitor_remove"@ != "node_focus"@,
        "monitor_remove"@ != "node_activate"@,
        "monitor_remove"@ != "node_presel"@,
        "monitor_remove"@ != "node_stack"@,
        "monitor_remove"@ != "node_geometry"@,
        "monitor_remove"@ != "node_state"@,
        "monitor_remove"@ != "node_flag"@,
        "monitor_remove"@ != "node_layer"@,
        "monitor_remove"@ != "pointer_action"@,
        "monitor_swap"@ != "monitor_focus"@,
        "monitor_swap"@ != "monitor_geometry"@,
        "monitor_swap"@ != "desktop_add"@,
        "monitor_swap"@ != "desktop_rename"@,
        "monitor_swap"@ != "desktop_remove"@,
        "monitor_swap"@ != "desktop_swap"@,
        "monitor_swap"@ != "desktop_transfer"@,
        "monitor_swap"@ != "desktop_focus"@,
        "monitor_swap"@ != "desktop_activate"@,
        "monitor_swap"@ != "desktop_layout"@,
        "monitor_swap"@ != "node_add"@,
        "monitor_swap"@ != "node_remove"@,
        "monitor_swap"@ != "node_swap"@,
        "monitor_swap"@ != "node_transfer"@,
        "monitor_swap"@ != "node_focus"@,
        "monitor_swap"@ != "node_activate"@,
        "monitor_swap"@ != "node_presel"@,
        "monitor_swap"@ != "node_stack"@,
        "monitor_swap"@ != "node_geometry"@,
        "monitor_swap"@ != "node_state"@,
        "monitor_swap"@ != "node_flag"@,
        "monitor_swap"@ != "node_layer"@,
        "monitor_swap"@ != "pointer_action"@,
        "monitor_focus"@ != "monitor_geometry"@,
        "monitor_focus"@ != "desktop_add"@,
        "monitor_focus"@ != "desktop_rename"@,
        "monitor_focus"@ != "desktop_remove"@,
        "monitor_focus"@ != "desktop_swap"@,
        "monitor_focus"@ != "desktop_transfer"@,
        "monitor_focus"@ != "desktop_focus"@,
        "monitor_focus"@ != "desktop_activate"@,
        "monitor_focus"@ != "desktop_layout"@,
        "monitor_focus"@ != "node_add"@,
        "monitor_focus"@ != "node_remove"@,
        "monitor_focus"@ != "node_swap"@,
        "monitor_focus"@ != "node_transfer"@,
        "monitor_focus"@ != "node_focus"@,
        "monitor_focus"@ != "node_activate"@,
        "monitor_focus"@ != "node_presel"@,
        "monitor_focus"@ != "node_stack"@,
        "monitor_focus"@ != "node_geometry"@,
        "monitor_focus"@ != "node_state"@,
        "monitor_focus"@ != "node_flag"@,
        "monitor_focus"@ != "node_layer"@,
        "monitor_focus"@ != "pointer_action"@,
        "monitor_geometry"@ != "desktop_add"@,
        "monitor_geometry"@ != "desktop_rename"@,
        "monitor_geometry"@ != "desktop_remove"@,
        "monitor_geometry"@ != "desktop_swap"@,
        "monitor_geometry"@ != "desktop_transfer"@,
        "monitor_geometry"@ != "desktop_focus"@,
        "monitor_geometry"@ != "desktop_activate"@,
        "monitor_geometry"@ != "desktop_layout"@,
        "monitor_geometry"@ != "node_add"@,
        "monitor_geometry"@ != "node_remove"@,
        "monitor_geometry"@ != "node_swap"@,
        "monitor_geometry"@ != "node_transfer"@,
        "monitor_geometry"@ != "node_focus"@,
        "monitor_geometry"@ != "node_activate"@,
        "monitor_geometry"@ != "node_presel"@,
        "monitor_geometry"@ != "node_stack"@,
        "monitor_geometry"@ != "node_geometry"@,
        "monitor_geometry"@ != "node_state"@,
        "monitor_geometry"@ != "node_flag"@,
        "monitor_geometry"@ != "node_layer"@,
        "monitor_geometry"@ != "pointer_action"@,
        "desktop_add"@ != "desktop_rename"@,
        "desktop_add"@ != "desktop_remove"@,
        "desktop_add"@ != "desktop_swap"@,
        "desktop_add"@ != "desktop_transfer"@,
        "desktop_add"@ != "desktop_focus"@,
        "desktop_add"@ != "desktop_activate"@,
        "desktop_add"@ != "desktop_layout"@,
        "desktop_add"@ != "node_add"@,
        "desktop_add"@ != "node_remove"@,
        "desktop_add"@ != "node_swap"@,
        "desktop_add"@ != "node_transfer"@,
        "desktop_add"@ != "node_focus"@,
        "desktop_add"@ != "node_activate"@,
        "desktop_add"@ != "node_presel"@,
        "desktop_add"@ != "node_stack"@,
        "desktop_add"@ != "node_geometry"@,
        "desktop_add"@ != "node_state"@,
        "desktop_add"@ != "node_flag"@,
        "desktop_add"@ != "node_layer"@,
        "desktop_add"@ != "pointer_action"@,
        "desktop_rename"@ != "desktop_remove"@,
        "desktop_rename"@ != "desktop_swap"@,
        "desktop_rename"@ != "desktop_transfer"@,
        "desktop_rename"@ != "desktop_focus"@,
        "desktop_rename"@ != "desktop_activate"@,
        "desktop_rename"@ != "desktop_layout"@,
        "desktop_rename"@ != "node_add"@,
        "desktop_rename"@ != "node_remove"@,
        "desktop_rename"@ != "node_swap"@,
        "desktop_rename"@ != "node_transfer"@,
        "desktop_rename"@ != "node_focus"@,
        "desktop_rename"@ != "node_activate"@,
        "desktop_rename"@ != "node_presel"@,
        "desktop_rename"@ != "node_stack"@,
        "desktop_rename"@ != "node_geometry"@,
        "desktop_rename"@ != "node_state"@,
        "desktop_rename"@ != "node_flag"@,
        "desktop_rename"@ != "node_layer"@,
        "desktop_rename"@ != "pointer_action"@,
        "desktop_remove"@ != "desktop_swap"@,
        "desktop_remove"@ != "desktop_transfer"@,
        "desktop_remove"@ != "desktop_focus"@,
        "desktop_remove"@ != "desktop_activate"@,
        "desktop_remove"@ != "desktop_layout"@,
        "desktop_remove"@ != "node_add"@,
        "desktop_remove"@ != "node_remove"@,
        "desktop_remove"@ != "node_swap"@,
        "desktop_remove"@ != "node_transfer"@,
        "desktop_remove"@ != "node_focus"@,
        "desktop_remove"@ != "node_activate"@,
        "desktop_remove"@ != "node_presel"@,
        "desktop_remove"@ != "node_stack"@,
        "desktop_remove"@ != "node_geometry"@,
        "desktop_remove"@ != "node_state"@,
        "desktop_remove"@ != "node_flag"@,
        "desktop_remove"@ != "node_layer"@,
        "desktop_remove"@ != "pointer_action"@,
        "desktop_swap"@ != "desktop_transfer"@,
        "desktop_swap"@ != "desktop_focus"@,
        "desktop_swap"@ != "desktop_activate"@,
        "desktop_swap"@ != "desktop_layout"@,
        "desktop_swap"@ != "node_add"@,
        "desktop_swap"@ != "node_remove"@,
        "desktop_swap"@ != "node_swap"@,
        "desktop_swap"@ != "node_transfer"@,
        "desktop_swap"@ != "node_focus"@,
        "desktop_swap"@ != "node_activate"@,
        "desktop_swap"@ != "node_presel"@,
        "desktop_swap"@ != "node_stack"@,
        "desktop_swap"@ != "node_geometry"@,
        "desktop_swap"@ != "node_state"@,
        "desktop_swap"@ != "node_flag"@,
        "desktop_swap"@ != "node_layer"@,
        "desktop_swap"@ != "pointer_action"@,
        "desktop_transfer"@ != "desktop_focus"@,
        "desktop_transfer"@ != "desktop_activate"@,
        "desktop_transfer"@ != "desktop_layout"@,
        "desktop_transfer"@ != "node_add"@,
        "desktop_transfer"@ != "node_remove"@,
        "desktop_transfer"@ != "node_swap"@,
        "desktop_transfer"@ != "node_transfer"@,
        "desktop_transfer"@ != "node_focus"@,
        "desktop_transfer"@ != "node_activate"@,
        "desktop_transfer"@ != "node_presel"@,
        "desktop_transfer"@ != "node_stack"@,
        "desktop_transfer"@ != "node_geometry"@,
        "desktop_transfer"@ != "node_state"@,
        "desktop_transfer"@ != "node_flag"@,
        "desktop_transfer"@ != "node_layer"@,
        "desktop_transfer"@ != "pointer_action"@,
        "desktop_focus"@ != "desktop_activate"@,
        "desktop_focus"@ != "desktop_layout"@,
        "desktop_focus"@ != "node_add"@,
        "desktop_focus"@ != "node_remove"@,
        "desktop_focus"@ != "node_swap"@,
        "desktop_focus"@ != "node_transfer"@,
        "desktop_focus"@ != "node_focus"@,
        "desktop_focus"@ != "node_activate"@,
        "desktop_focus"@ != "node_presel"@,
        "desktop_focus"@ != "node_stack"@,
        "desktop_focus"@ != "node_geometry"@,
        "desktop_focus"@ != "node_state"@,
        "desktop_focus"@ != "node_flag"@,
        "desktop_focus"@ != "node_layer"@,
        "desktop_focus"@ != "pointer_action"@,
        "desktop_activate"@ != "desktop_layout"@,
        "desktop_activate"@ != "node_add"@,
        "desktop_activate"@ != "node_remove"@,
        "desktop_activate"@ != "node_swap"@,
        "desktop_activate"@ != "node_transfer"@,
        "desktop_activate"@ != "node_focus"@,
        "desktop_activate"@ != "node_activate"@,
        "desktop_activate"@ != "node_presel"@,
        "desktop_activate"@ != "node_stack"@,
        "desktop_activate"@ != "node_geometry"@,
        "desktop_activate"@ != "node_state"@,
        "desktop_activate"@ != "node_flag"@,
        "desktop_activate"@ != "node_layer"@,
        "desktop_activate"@ != "pointer_action"@,
        "desktop_layout"@ != "node_add"@,
        "desktop_layout"@ != "node_remove"@,
        "desktop_layout"@ != "node_swap"@,
        "desktop_layout"@ != "node_transfer"@,
        "desktop_layout"@ != "node_focus"@,
        "desktop_layout"@ != "node_activate"@,
        "desktop_layout"@ != "node_presel"@,
        "desktop_layout"@ != "node_stack"@,
        "desktop_layout"@ != "node_geometry"@,
        "desktop_layout"@ != "node_state"@,
        "desktop_layout"@ != "node_flag"@,
        "desktop_layout"@ != "node_layer"@,
        "desktop_layout"@ != "pointer_action"@,
        "node_add"@ != "node_remove"@,
        "node_add"@ != "node_swap"@,
        "node_add"@ != "node_transfer"@,
        "node_add"@ != "node_focus"@,
        "node_add"@ != "node_activate"@,
        "node_add"@ != "node_presel"@,
        "node_add"@ != "node_stack"@,
        "node_add"@ != "node_geometry"@,
        "node_add"@ != "node_state"@,
        "node_add"@ != "node_flag"@,
        "node_add"@ != "node_layer"@,
        "node_add"@ != "pointer_action"@,
        "node_remove"@ != "node_swap"@,
        "node_remove"@ != "node_transfer"@,
        "node_remove"@ != "node_focus"@,
        "node_remove"@ != "node_activate"@,
        "node_remove"@ != "node_presel"@,
        "node_remove"@ != "node_stack"@,
        "node_remove"@ != "node_geometry"@,
        "node_remove"@ != "node_state"@,
        "node_remove"@ != "node_flag"@,
        "node_remove"@ != "node_layer"@,
        "node_remove"@ != "pointer_action"@,
        "node_swap"@ != "node_transfer"@,
        "node_swap"@ != "node_focus"@,
        "node_swap"@ != "node_activate"@,
        "node_swap"@ != "node_presel"@,
        "node_swap"@ != "node_stack"@,
        "node_swap"@ != "node_geometry"@,
        "node_swap"@ != "node_state"@,
        "node_swap"@ != "node_flag"@,
        "node_swap"@ != "node_layer"@,
        "node_swap"@ != "pointer_action"@,
        "node_transfer"@ != "node_focus"@,
        "node_transfer"@ != "node_activate"@,
        "node_transfer"@ != "node_presel"@,
        "node_transfer"@ != "node_stack"@,
        "node_transfer"@ != "node_geometry"@,
        "node_transfer"@ != "node_state"@,
        "node_transfer"@ != "node_flag"@,
        "node_transfer"@ != "node_layer"@,
        "node_transfer"@ != "pointer_action"@,
        "node_focus"@ != "node_activate"@,
        "node_focus"@ != "node_presel"@,
        "node_focus"@ != "node_stack"@,
        "node_focus"@ != "node_geometry"@,
        "node_focus"@ != "node_state"@,
        "node_focus"@ != "node_flag"@,
        "node_focus"@ != "node_layer"@,
        "node_focus"@ != "pointer_action"@,
        "node_activate"@ != "node_presel"@,
        "node_activate"@ != "node_stack"@,
        "node_activate"@ != "node_geometry"@,
        "node_activate"@ != "node_state"@,
        "node_activate"@ != "node_flag"@,
        "node_activate"@ != "node_layer"@,
        "node_activate"@ != "pointer_action"@,
        "node_presel"@ != "node_stack"@,
        "node_presel"@ != "node_geometry"@,
        "node_presel"@ != "node_state"@,
        "node_presel"@ != "node_flag"@,
        "node_presel"@ != "node_layer"@,
        "node_presel"@ != "pointer_action"@,
        "node_stack"@ != "node_geometry"@,
        "node_stack"@ != "node_state"@,
        "node_stack"@ != "node_flag"@,
        "node_stack"@ != "node_layer"@,
        "node_stack"@ != "pointer_action"@,
        "node_geometry"@ != "node_state"@,
        "node_geometry"@ != "node_flag"@,
        "node_geometry"@ != "node_layer"@,
        "node_geometry"@ != "pointer_action"@,
        "node_state"@ != "node_flag"@,
        "node_state"@ != "node_layer"@,
        "node_state"@ != "pointer_action"@,
        "node_flag"@ != "node_layer"@,
        "node_flag"@ != "pointer_action"@,
        "node_layer"@ != "pointer_action"@,
{
    reveal_strlit("monitor_add");
    reveal_strlit("monitor_rename");
    reveal_strlit("monitor_remove");
    reveal_strlit("monitor_swap");
    reveal_strlit("monitor_focus");
    reveal_strlit("monitor_geometry");
    reveal_strlit("desktop_add");
    reveal_strlit("desktop_rename");
    reveal_strlit("desktop_remove");
    reveal_strlit("desktop_swap");
    reveal_strlit("desktop_transfer");
    reveal_strlit("desktop_focus");
    reveal_strlit("desktop_activate");
    reveal_strlit("desktop_layout");
    reveal_strlit("node_add");
    reveal_strlit("node_remove");
    reveal_strlit("node_swap");
    reveal_strlit("node_transfer");
    reveal_strlit("node_focus");
    reveal_strlit("node_activate");
    reveal_strlit("node_presel");
    reveal_strlit("node_stack");
    reveal_strlit("node_geometry");
    reveal_strlit("node_state");
    reveal_strlit("node_flag");
    reveal_strlit("node_layer");
    reveal_strlit("pointer_action");
    assert(plain("monitor_add"@));
    assert(plain("monitor_rename"@));
    assert(plain("monitor_remove"@));
    assert(plain("monitor_swap"@));
    assert(plain("monitor_focus"@));
    assert(plain("monitor_geometry"@));
    assert(plain("desktop_add"@));
    assert(plain("desktop_rename"@));
    assert(plain("desktop_remove"@));
    assert(plain("desktop_swap"@));
    assert(plain("desktop_transfer"@));
    assert(plain("desktop_focus"@));
    assert(plain("desktop_activate"@));
    assert(plain("desktop_layout"@));
    assert(plain("node_add"@));
    assert(plain("node_remove"@));
    assert(plain("node_swap"@));
    assert(plain("node_transfer"@));
    assert(plain("node_focus"@));
    assert(plain("node_activate"@));
    assert(plain("node_presel"@));
    assert(plain("node_stack"@));
    assert(plain("node_geometry"@));
    assert(plain("node_state"@));
    assert(plain("node_flag"@));
    assert(plain("node_layer"@));
    assert(plain("pointer_action"@));
    assert("monitor_add"@.len() != "monitor_rename"@.len());
    assert("monitor_add"@.len() != "monitor_remove"@.len());
    assert("monitor_add"@.len() != "monitor_swap"@.len());
    assert("monitor_add"@.len() != "monitor_focus"@.len());
    assert("monitor_add"@.len() != "monitor_geometry"@.len());
    assert("monitor_add"@[0] != "desktop_add"@[0]);
    assert("monitor_add"@.len() != "desktop_rename"@.len());
    assert("monitor_add"@.len() != "desktop_remove"@.len());
    assert("monitor_add"@.len() != "desktop_swap"@.len());
    assert("monitor_add"@.len() != "desktop_transfer"@.len());
    assert("monitor_add"@.len() != "desktop_focus"@.len());
    assert("monitor_add"@.len() != "desktop_activate"@.len());
    assert("monitor_add"@.len() != "desktop_layout"@.len());
    assert("monitor_add"@.len() != "node_add"@.len());
    assert("monitor_add"@[0] != "node_remove"@[0]);
    assert("monitor_add"@.len() != "node_swap"@.len());
    assert("monitor_add"@.len() != "node_transfer"@.len());
    assert("monitor_add"@.len() != "node_focus"@.len());
    assert("monitor_add"@.len() != "node_activate"@.len());
    assert("monitor_add"@[0] != "node_presel"@[0]);
    assert("monitor_add"@.len() != "node_stack"@.len());
    assert("monitor_add"@.len() != "node_geometry"@.len());
    assert("monitor_add"@.len() != "node_state"@.len());
    assert("monitor_add"@.len() != "node_flag"@.len());
    assert("monitor_add"@.len() != "node_layer"@.len());
    assert("monitor_add"@.len() != "pointer_action"@.len());
    assert("monitor_rename"@[10] != "monitor_remove"@[10]);
    assert("monitor_rename"@.len() != "monitor_swap"@.len());
    assert("monitor_rename"@.len() != "monitor_focus"@.len());
    assert("monitor_rename"@.len() != "monitor_geometry"@.len());
    assert("monitor_rename"@.len() != "desktop_add"@.len());
    assert("monitor_rename"@[0] != "desktop_rename"@[0]);
    assert("monitor_rename"@[0] != "desktop_remove"@[0]);
    assert("monitor_rename"@.len() != "desktop_swap"@.len());
    assert("monitor_rename"@.len() != "desktop_transfer"@.len());
    assert("monitor_rename"@.len() != "desktop_focus"@.len());
    assert("monitor_rename"@.len() != "desktop_activate"@.len());
    assert("monitor_rename"@[0] != "desktop_layout"@[0]);
    assert("monitor_rename"@.len() != "node_add"@.len());
    assert("monitor_rename"@.len() != "node_remove"@.len());
    assert("monitor_rename"@.len() != "node_swap"@.len());
    assert("monitor_rename"@.len() != "node_transfer"@.len());
    assert("monitor_rename"@.len() != "node_focus"@.len());
    assert("monitor_rename"@.len() != "node_activate"@.len());
    assert("monitor_rename"@.len() != "node_presel"@.len());
    assert("monitor_rename"@.len() != "node_stack"@.len());
    assert("monitor_rename"@.len() != "node_geometry"@.len());
    assert("monitor_rename"@.len() != "node_state"@.len());
    assert("monitor_rename"@.len() != "node_flag"@.len());
    assert("monitor_rename"@.len() != "node_layer"@.len());
    assert("monitor_rename"@[0] != "pointer_action"@[0]);
    assert("monitor_remove"@.len() != "monitor_swap"@.len());
    assert("monitor_remove"@.len() != "monitor_focus"@.len());
    assert("monitor_remove"@.len() != "monitor_geometry"@.len());
    assert("monitor_remove"@.len() != "desktop_add"@.len());
    assert("monitor_remove"@[0] != "desktop_rename"@[0]);
    assert("monitor_remove"@[0] != "desktop_remove"@[0]);
    assert("monitor_remove"@.len() != "desktop_swap"@.len());
    assert("monitor_remove"@.len() != "desktop_transfer"@.len());
    assert("monitor_remove"@.len() != "desktop_focus"@.len());
    assert("monitor_remove"@.len() != "desktop_activate"@.len());
    assert("monitor_remove"@[0] != "desktop_layout"@[0]);
    assert("monitor_remove"@.len() != "node_add"@.len());
    assert("monitor_remove"@.len() != "node_remove"@.len());
    assert("monitor_remove"@.len() != "node_swap"@.len());
    assert("monitor_remove"@.len() != "node_transfer"@.len());
    assert("monitor_remove"@.len() != "node_focus"@.len());
    assert("monitor_remove"@.len() != "node_activate"@.len());
    assert("monitor_remove"@.len() != "node_presel"@.len());
    assert("monitor_remove"@.len() != "node_stack"@.len());
    assert("monitor_remove"@.len() != "node_geometry"@.len());
    assert("monitor_remove"@.len() != "node_state"@.len());
    assert("monitor_remove"@.len() != "node_flag"@.len());
    assert("monitor_remove"@.len() != "node_layer"@.len());
    assert("monitor_remove"@[0] != "pointer_action"@[0]);
    assert("monitor_swap"@.len() != "monitor_focus"@.len());
    assert("monitor_swap"@.len() != "monitor_geometry"@.len());
    assert("monitor_swap"@.len() != "desktop_add"@.len());
    assert("monitor_swap"@.len() != "desktop_rename"@.len());
    assert("monitor_swap"@.len() != "desktop_remove"@.len());
    assert("monitor_swap"@[0] != "desktop_swap"@[0]);
    assert("monitor_swap"@.len() != "desktop_transfer"@.len());
    assert("monitor_swap"@.len() != "desktop_focus"@.len());
    assert("monitor_swap"@.len() != "desktop_activate"@.len());
    assert("monitor_swap"@.len() != "desktop_layout"@.len());
    assert("monitor_swap"@.len() != "node_add"@.len());
    assert("monitor_swap"@.len() != "node_remove"@.len());
    assert("monitor_swap"@.len() != "node_swap"@.len());
    assert("monitor_swap"@.len() != "node_transfer"@.len());
    assert("monitor_swap"@.len() != "node_focus"@.len());
    assert("monitor_swap"@.len() != "node_activate"@.len());
    assert("monitor_swap"@.len() != "node_presel"@.len());
    assert("monitor_swap"@.len() != "node_stack"@.len());
    assert("monitor_swap"@.len() != "node_geometry"@.len());
    assert("monitor_swap"@.len() != "node_state"@.len());
    assert("monitor_swap"@.len() != "node_flag"@.len());
    assert("monitor_swap"@.len() != "node_layer"@.len());
    assert("monitor_swap"@.len() != "pointer_action"@.len());
    assert("monitor_focus"@.len() != "monitor_geometry"@.len());
    assert("monitor_focus"@.len() != "desktop_add"@.len());
    assert("monitor_focus"@.len() != "desktop_rename"@.len());
    assert("monitor_focus"@.len() != "desktop_remove"@.len());
    assert("monitor_focus"@.len() != "desktop_swap"@.len());
    assert("monitor_focus"@.len() != "desktop_transfer"@.len());
    assert("monitor_focus"@[0] != "desktop_focus"@[0]);
    assert("monitor_focus"@.len() != "desktop_activate"@.len());
    assert("monitor_focus"@.len() != "desktop_layout"@.len());
    assert("monitor_focus"@.len() != "node_add"@.len());
    assert("monitor_focus"@.len() != "node_remove"@.len());
    assert("monitor_focus"@.len() != "node_swap"@.len());
    assert("monitor_focus"@[0] != "node_transfer"@[0]);
    assert("monitor_focus"@.len() != "node_focus"@.len());
    assert("monitor_focus"@[0] != "node_activate"@[0]);
    assert("monitor_focus"@.len() != "node_presel"@.len());
    assert("monitor_focus"@.len() != "node_stack"@.len());
    assert("monitor_focus"@[0] != "node_geometry"@[0]);
    assert("monitor_focus"@.len() != "node_state"@.len());
    assert("monitor_focus"@.len() != "node_flag"@.len());
    assert("monitor_focus"@.len() != "node_layer"@.len());
    assert("monitor_focus"@.len() != "pointer_action"@.len());
    assert("monitor_geometry"@.len() != "desktop_add"@.len());
    assert("monitor_geometry"@.len() != "desktop_rename"@.len());
    assert("monitor_geometry"@.len() != "desktop_remove"@.len());
    assert("monitor_geometry"@.len() != "desktop_swap"@.len());
    assert("monitor_geometry"@[0] != "desktop_transfer"@[0]);
    assert("monitor_geometry"@.len() != "desktop_focus"@.len());
    assert("monitor_geometry"@[0] != "desktop_activate"@[0]);
    assert("monitor_geometry"@.len() != "desktop_layout"@.len());
    assert("monitor_geometry"@.len() != "node_add"@.len());
    assert("monitor_geometry"@.len() != "node_remove"@.len());
    assert("monitor_geometry"@.len() != "node_swap"@.len());
    assert("monitor_geometry"@.len() != "node_transfer"@.len());
    assert("monitor_geometry"@.len() != "node_focus"@.len());
    assert("monitor_geometry"@.len() != "node_activate"@.len());
    assert("monitor_geometry"@.len() != "node_presel"@.len());
    assert("monitor_geometry"@.len() != "node_stack"@.len());
    assert("monitor_geometry"@.len() != "node_geometry"@.len());
    assert("monitor_geometry"@.len() != "node_state"@.len());
    assert("monitor_geometry"@.len() != "node_flag"@.len());
    assert("monitor_geometry"@.len() != "node_layer"@.len());
    assert("monitor_geometry"@.len() != "pointer_action"@.len());
    assert("desktop_add"@.len() != "desktop_rename"@.len());
    assert("desktop_add"@.len() != "desktop_remove"@.len());
    assert("desktop_add"@.len() != "desktop_swap"@.len());
    assert("desktop_add"@.len() != "desktop_transfer"@.len());
    assert("desktop_add"@.len() != "desktop_focus"@.len());
    assert("desktop_add"@.len() != "desktop_activate"@.len());
    assert("desktop_add"@.len() != "desktop_layout"@.len());
    assert("desktop_add"@.len() != "node_add"@.len());
    assert("desktop_add"@[0] != "node_remove"@[0]);
    assert("desktop_add"@.len() != "node_swap"@.len());
    assert("desktop_add"@.len() != "node_transfer"@.len());
    assert("desktop_add"@.len() != "node_focus"@.len());
    assert("desktop_add"@.len() != "node_activate"@.len());
    assert("desktop_add"@[0] != "node_presel"@[0]);
    assert("desktop_add"@.len() != "node_stack"@.len());
    assert("desktop_add"@.len() != "node_geometry"@.len());
    assert("desktop_add"@.len() != "node_state"@.len());
    assert("desktop_add"@.len() != "node_flag"@.len());
    assert("desktop_add"@.len() != "node_layer"@.len());
    assert("desktop_add"@.len() != "pointer_action"@.len());
    assert("desktop_rename"@[10] != "desktop_remove"@[10]);
    assert("desktop_rename"@.len() != "desktop_swap"@.len());
    assert("desktop_rename"@.len() != "desktop_transfer"@.len());
    assert("desktop_rename"@.len() != "desktop_focus"@.len());
    assert("desktop_rename"@.len() != "desktop_activate"@.len());
    assert("desktop_rename"@[8] != "desktop_layout"@[8]);
    assert("desktop_rename"@.len() != "node_add"@.len());
    assert("desktop_rename"@.len() != "node_remove"@.len());
    assert("desktop_rename"@.len() != "node_swap"@.len());
    assert("desktop_rename"@.len() != "node_transfer"@.len());
    assert("desktop_rename"@.len() != "node_focus"@.len());
    assert("desktop_rename"@.len() != "node_activate"@.len());
    assert("desktop_rename"@.len() != "node_presel"@.len());
    assert("desktop_rename"@.len() != "node_stack"@.len());
    assert("desktop_rename"@.len() != "node_geometry"@.len());
    assert("desktop_rename"@.len() != "node_state"@.len());
    assert("desktop_rename"@.len() != "node_flag"@.len());
    assert("desktop_rename"@.len() != "node_layer"@.len());
    assert("desktop_rename"@[0] != "pointer_action"@[0]);
    assert("desktop_remove"@.len() != "desktop_swap"@.len());
    assert("desktop_remove"@.len() != "desktop_transfer"@.len());
    assert("desktop_remove"@.len() != "desktop_focus"@.len());
    assert("desktop_remove"@.len() != "desktop_activate"@.len());
    assert("desktop_remove"@[8] != "desktop_layout"@[8]);
    assert("desktop_remove"@.len() != "node_add"@.len());
    assert("desktop_remove"@.len() != "node_remove"@.len());
    assert("desktop_remove"@.len() != "node_swap"@.len());
    assert("desktop_remove"@.len() != "node_transfer"@.len());
    assert("desktop_remove"@.len() != "node_focus"@.len());
    assert("desktop_remove"@.len() != "node_activate"@.len());
    assert("desktop_remove"@.len() != "node_presel"@.len());
    assert("desktop_remove"@.len() != "node_stack"@.len());
    assert("desktop_remove"@.len() != "node_geometry"@.len());
    assert("desktop_remove"@.len() != "node_state"@.len());
    assert("desktop_remove"@.len() != "node_flag"@.len());
    assert("desktop_remove"@.len() != "node_layer"@.len());
    assert("desktop_remove"@[0] != "pointer_action"@[0]);
    assert("desktop_swap"@.len() != "desktop_transfer"@.len());
    assert("desktop_swap"@.len() != "desktop_focus"@.len());
    assert("desktop_swap"@.len() != "desktop_activate"@.len());
    assert("desktop_swap"@.len() != "desktop_layout"@.len());
    assert("desktop_swap"@.len() != "node_add"@.len());
    assert("desktop_swap"@.len() != "node_remove"@.len());
    assert("desktop_swap"@.len() != "node_swap"@.len());
    assert("desktop_swap"@.len() != "node_transfer"@.len());
    assert("desktop_swap"@.len() != "node_focus"@.len());
    assert("desktop_swap"@.len() != "node_activate"@.len());
    assert("desktop_swap"@.len() != "node_presel"@.len());
    assert("desktop_swap"@.len() != "node_stack"@.len());
    assert("desktop_swap"@.len() != "node_geometry"@.len());
    assert("desktop_swap"@.len() != "node_state"@.len());
    assert("desktop_swap"@.len() != "node_flag"@.len());
    assert("desktop_swap"@.len() != "node_layer"@.len());
    assert("desktop_swap"@.len() != "pointer_action"@.len());
    assert("desktop_transfer"@.len() != "desktop_focus"@.len());
    assert("desktop_transfer"@[8] != "desktop_activate"@[8]);
    assert("desktop_transfer"@.len() != "desktop_layout"@.len());
    assert("desktop_transfer"@.len() != "node_add"@.len());
    assert("desktop_transfer"@.len() != "node_remove"@.len());
    assert("desktop_transfer"@.len() != "node_swap"@.len());
    assert("desktop_transfer"@.len() != "node_transfer"@.len());
    assert("desktop_transfer"@.len() != "node_focus"@.len());
    assert("desktop_transfer"@.len() != "node_activate"@.len());
    assert("desktop_transfer"@.len() != "node_presel"@.len());
    assert("desktop_transfer"@.len() != "node_stack"@.len());
    assert("desktop_transfer"@.len() != "node_geometry"@.len());
    assert("desktop_transfer"@.len() != "node_state"@.len());
    assert("desktop_transfer"@.len() != "node_flag"@.len());
    assert("desktop_transfer"@.len() != "node_layer"@.len());
    assert("desktop_transfer"@.len() != "pointer_action"@.len());
    assert("desktop_focus"@.len() != "desktop_activate"@.len());
    assert("desktop_focus"@.len() != "desktop_layout"@.len());
    assert("desktop_focus"@.len() != "node_add"@.len());
    assert("desktop_focus"@.len() != "node_remove"@.len());
    assert("desktop_focus"@.len() != "node_swap"@.len());
    assert("desktop_focus"@[0] != "node_transfer"@[0]);
    assert("desktop_focus"@.len() != "node_focus"@.len());
    assert("desktop_focus"@[0] != "node_activate"@[0]);
    assert("desktop_focus"@.len() != "node_presel"@.len());
    assert("desktop_focus"@.len() != "node_stack"@.len());
    assert("desktop_focus"@[0] != "node_geometry"@[0]);
    assert("desktop_focus"@.len() != "node_state"@.len());
    assert("desktop_focus"@.len() != "node_flag"@.len());
    assert("desktop_focus"@.len() != "node_layer"@.len());
    assert("desktop_focus"@.len() != "pointer_action"@.len());
    assert("desktop_activate"@.len() != "desktop_layout"@.len());
    assert("desktop_activate"@.len() != "node_add"@.len());
    assert("desktop_activate"@.len() != "node_remove"@.len());
    assert("desktop_activate"@.len() != "node_swap"@.len());
    assert("desktop_activate"@.len() != "node_transfer"@.len());
    assert("desktop_activate"@.len() != "node_focus"@.len());
    assert("desktop_activate"@.len() != "node_activate"@.len());
    assert("desktop_activate"@.len() != "node_presel"@.len());
    assert("desktop_activate"@.len() != "node_stack"@.len());
    assert("desktop_activate"@.len() != "node_geometry"@.len());
    assert("desktop_activate"@.len() != "node_state"@.len());
    assert("desktop_activate"@.len() != "node_flag"@.len());
    assert("desktop_activate"@.len() != "node_layer"@.len());
    assert("desktop_activate"@.len() != "pointer_action"@.len());
    assert("desktop_layout"@.len() != "node_add"@.len());
    assert("desktop_layout"@.len() != "node_remove"@.len());
    assert("desktop_layout"@.len() != "node_swap"@.len());
    assert("desktop_layout"@.len() != "node_transfer"@.len());
    assert("desktop_layout"@.len() != "node_focus"@.len());
    assert("desktop_layout"@.len() != "node_activate"@.len());
    assert("desktop_layout"@.len() != "node_presel"@.len());
    assert("desktop_layout"@.len() != "node_stack"@.len());
    assert("desktop_layout"@.len() != "node_geometry"@.len());
    assert("desktop_layout"@.len() != "node_state"@.len());
    assert("desktop_layout"@.len() != "node_flag"@.len());
    assert("desktop_layout"@.len() != "node_layer"@.len());
    assert("desktop_layout"@[0] != "pointer_action"@[0]);
    assert("node_add"@.len() != "node_remove"@.len());
    assert("node_add"@.len() != "node_swap"@.len());
    assert("node_add"@.len() != "node_transfer"@.len());
    assert("node_add"@.len() != "node_focus"@.len());
    assert("node_add"@.len() != "node_activate"@.len());
    assert("node_add"@.len() != "node_presel"@.len());
    assert("node_add"@.len() != "node_stack"@.len());
    assert("node_add"@.len() != "node_geometry"@.len());
    assert("node_add"@.len() != "node_state"@.len());
    assert("node_add"@.len() != "node_flag"@.len());
    assert("node_add"@.len() != "node_layer"@.len());
    assert("node_add"@.len() != "pointer_action"@.len());
    assert("node_remove"@.len() != "node_swap"@.len());
    assert("node_remove"@.len() != "node_transfer"@.len());
    assert("node_remove"@.len() != "node_focus"@.len());
    assert("node_remove"@.len() != "node_activate"@.len());
    assert("node_remove"@[5] != "node_presel"@[5]);
    assert("node_remove"@.len() != "node_stack"@.len());
    assert("node_remove"@.len() != "node_geometry"@.len());
    assert("node_remove"@.len() != "node_state"@.len());
    assert("node_remove"@.len() != "node_flag"@.len());
    assert("node_remove"@.len() != "node_layer"@.len());
    assert("node_remove"@.len() != "pointer_action"@.len());
    assert("node_swap"@.len() != "node_transfer"@.len());
    assert("node_swap"@.len() != "node_focus"@.len());
    assert("node_swap"@.len() != "node_activate"@.len());
    assert("node_swap"@.len() != "node_presel"@.len());
    assert("node_swap"@.len() != "node_stack"@.len());
    assert("node_swap"@.len() != "node_geometry"@.len());
    assert("node_swap"@.len() != "node_state"@.len());
    assert("node_swap"@[5] != "node_flag"@[5]);
    assert("node_swap"@.len() != "node_layer"@.len());
    assert("node_swap"@.len() != "pointer_action"@.len());
    assert("node_transfer"@.len() != "node_focus"@.len());
    assert("node_transfer"@[5] != "node_activate"@[5]);
    assert("node_transfer"@.len() != "node_presel"@.len());
    assert("node_transfer"@.len() != "node_stack"@.len());
    assert("node_transfer"@[5] != "node_geometry"@[5]);
    assert("node_transfer"@.len() != "node_state"@.len());
    assert("node_transfer"@.len() != "node_flag"@.len());
    assert("node_transfer"@.len() != "node_layer"@.len());
    assert("node_transfer"@.len() != "pointer_action"@.len());
    assert("node_focus"@.len() != "node_activate"@.len());
    assert("node_focus"@.len() != "node_presel"@.len());
    assert("node_focus"@[5] != "node_stack"@[5]);
    assert("node_focus"@.len() != "node_geometry"@.len());
    assert("node_focus"@[5] != "node_state"@[5]);
    assert("node_focus"@.len() != "node_flag"@.len());
    assert("node_focus"@[5] != "node_layer"@[5]);
    assert("node_focus"@.len() != "pointer_action"@.len());
    assert("node_activate"@.len() != "node_presel"@.len());
    assert("node_activate"@.len() != "node_stack"@.len());
    assert("node_activate"@[5] != "node_geometry"@[5]);
    assert("node_activate"@.len() != "node_state"@.len());
    assert("node_activate"@.len() != "node_flag"@.len());
    assert("node_activate"@.len() != "node_layer"@.len());
    assert("node_activate"@.len() != "pointer_action"@.len());
    assert("node_presel"@.len() != "node_stack"@.len());
    assert("node_presel"@.len() != "node_geometry"@.len());
    assert("node_presel"@.len() != "node_state"@.len());
    assert("node_presel"@.len() != "node_flag"@.len());
    assert("node_presel"@.len() != "node_layer"@.len());
    assert("node_presel"@.len() != "pointer_action"@.len());
    assert("node_stack"@.len() != "node_geometry"@.len());
    assert("node_stack"@[8] != "node_state"@[8]);
    assert("node_stack"@.len() != "node_flag"@.len());
    assert("node_stack"@[5] != "node_layer"@[5]);
    assert("node_stack"@.len() != "pointer_action"@.len());
    assert("node_geometry"@.len() != "node_state"@.len());
    assert("node_geometry"@.len() != "node_flag"@.len());
    assert("node_geometry"@.len() != "node_layer"@.len());
    assert("node_geometry"@.len() != "pointer_action"@.len());
    assert("node_state"@.len() != "node_flag"@.len());
    assert("node_state"@[5] != "node_layer"@[5]);
    assert("node_state"@.len() != "pointer_action"@.len());
    assert("node_flag"@.len() != "node_layer"@.len());
    assert("node_flag"@.len() != "pointer_action"@.len());
    assert("node_layer"@.len() != "pointer_action"@.len());
}

/// How many fields follow the tag of a known kind of record.
pub open spec fn arity(tag: Seq<char>) -> int {
    if tag == "monitor_add"@ {
        3
    } else if tag == "monitor_rename"@ {
        3
    } else if tag == "monitor_remove"@ {
        1
    } else if tag == "monitor_swap"@ {
        2
    } else if tag == "monitor_focus"@ {
        1
    } else if tag == "monitor_geometry"@ {
        2
    } else if tag == "desktop_add"@ {
        3
    } else if tag == "desktop_rename"@ {
        4
    } else if tag == "desktop_remove"@ {
        2
    } else if tag == "desktop_swap"@ {
        4
    } else if tag == "desktop_transfer"@ {
        3
    } else if tag == "desktop_focus"@ {
        2
    } else if tag == "desktop_activate"@ {
        2
    } else if tag == "desktop_layout"@ {
        3
    } else if tag == "node_add"@ {
        4
    } else if tag == "node_remove"@ {
        3
    } else if tag == "node_swap"@ {
        6
    } else if tag == "node_transfer"@ {
        6
    } else if tag == "node_focus"@ {
        3
    } else if tag == "node_activate"@ {
        3
    } else if tag == "node_presel"@ {
        4
    } else if tag == "node_stack"@ {
        3
    } else if tag == "node_geometry"@ {
        4
    } else if tag == "node_state"@ {
        5
    } else if tag == "node_flag"@ {
        5
    } else if tag == "node_layer"@ {
        4
    } else if tag == "pointer_action"@ {
        5
    } else {
        0
    }
}

impl MonitorAddInfo {
    /// The tokens by which the window manager writes this event.
    pub open spec fn spec_tokens(self) -> Seq<Seq<char>> {
        seq!["monitor_add"@, id_text(self.monitor_id), self.monitor_name@, self.monitor_geometry.spec_text()]
    }

    /// Names are plain tokens; a ratio is a numeral.
    pub open spec fn well_formed(self) -> bool {
        plain(self.monitor_name@)
    }

    /// Equal field by field, texts by their characters.
    pub open spec fn same(self, other: MonitorAddInfo) -> bool {
        self.monitor_id == other.monitor_id && self.monitor_name@ == other.monitor_name@ && self.monitor_geometry == other.monitor_geometry
    }

    pub proof fn lemma_tokens_plain(self)
        requires
            self.well_formed(),
        ensures
            forall|i: int| 0 <= i < self.spec_tokens().len() ==> plain(#[trigger] self.spec_tokens()[i]),
    {
        reveal_strlit("monitor_add");
        assert(plain("monitor_add"@));
        lemma_id_text_plain(self.monitor_id);
        self.monitor_geometry.lemma_text_round_trip();
    }

    /// The tokens written for an event read back as that event.
    pub proof fn lemma_round_trip(self, r: Result<MonitorAddInfo, ParseError>)
        requires
            self.well_formed(),
            MonitorAddInfo::read_from(self.spec_tokens(), r),
        ensures
            r matches Ok(x) && x.same(self),
    {
        lemma_id_round_trip(self.monitor_id);
        self.monitor_geometry.lemma_text_round_trip();
    }

    /// The tokens decide the outcome.
    pub proof fn lemma_deterministic(t: Seq<Seq<char>>, r1: Result<MonitorAddInfo, ParseError>, r2: Result<MonitorAddInfo, ParseError>)
        requires
            MonitorAddInfo::read_from(t, r1),
            MonitorAddInfo::read_from(t, r2),
        ensures
            match (r1, r2) {
                (Ok(a), Ok(b)) => a.same(b),
                (Err(x), Err(y)) => x == y,
                _ => false,
            },
    {
    }
}

impl MonitorRenameInfo {
    /// The tokens by which the window manager writes this event.
    pub open spec fn spec_tokens(self) -> Seq<Seq<char>> {
        seq!["monitor_rename"@, id_text(self.monitor_id), self.old_name@, self.new_name@]
    }

    /// Names are plain tokens; a ratio is a numeral.
    pub open spec fn well_formed(self) -> bool {
        plain(self.old_name@) && plain(self.new_name@)
    }

    /// Equal field by field, texts by their characters.
    pub open spec fn same(self, other: MonitorRenameInfo) -> bool {
        self.monitor_id == other.monitor_id && self.old_name@ == other.old_name@ && self.new_name@ == other.new_name@
    }

    pub proof fn lemma_tokens_plain(self)
        requires
            self.well_formed(),
        ensures
            forall|i: int| 0 <= i < self.spec_tokens().len() ==> plain(#[trigger] self.spec_tokens()[i]),
    {
        reveal_strlit("monitor_rename");
        assert(plain("monitor_rename"@));
        lemma_id_text_plain(self.monitor_id);
    }

    /// The tokens written for an event read back as that event.
    pub proof fn lemma_round_trip(self, r: Result<MonitorRenameInfo, ParseError>)
        requires
            self.well_formed(),
            MonitorRenameInfo::read_from(self.spec_tokens(), r),
        ensures
            r matches Ok(x) && x.same(self),
    {
        lemma_id_round_trip(self.monitor_id);
    }

    /// The tokens decide the outcome.
    pub proof fn lemma_deterministic(t: Seq<Seq<char>>, r1: Result<MonitorRenameInfo, ParseError>, r2: Result<MonitorRenameInfo, ParseError>)
        requires
            MonitorRenameInfo::read_from(t, r1),
            MonitorRenameInfo::read_from(t, r2),
        ensures
            match (r1, r2) {
                (Ok(a), Ok(b)) => a.same(b),
                (Err(x), Err(y)) => x == y,
                _ => false,
            },
    {
    }
}

impl MonitorRemoveInfo {
    /// The tokens by which the window manager writes this event.
    pub open spec fn spec_tokens(self) -> Seq<Seq<char>> {
        seq!["monitor_remove"@, id_text(self.monitor_id)]
    }

    pub proof fn lemma_tokens_plain(self)
        ensures
            forall|i: int| 0 <= i < self.spec_tokens().len() ==> plain(#[trigger] self.spec_tokens()[i]),
    {
        reveal_strlit("monitor_remove");
        assert(plain("monitor_remove"@));
        lemma_id_text_plain(self.monitor_id);
    }

    /// The tokens written for an event read back as that event.
    pub proof fn lemma_round_trip(self, r: Result<MonitorRemoveInfo, ParseError>)
        requires
            MonitorRemoveInfo::read_from(self.spec_tokens(), r),
        ensures
            r == Ok::<MonitorRemoveInfo, ParseError>(self),
    {
        lemma_id_round_trip(self.monitor_id);
    }

    /// The tokens decide the outcome.
    pub proof fn lemma_deterministic(t: Seq<Seq<char>>, r1: Result<MonitorRemoveInfo, ParseError>, r2: Result<MonitorRemoveInfo, ParseError>)
        requires
            MonitorRemoveInfo::read_from(t, r1),
            MonitorRemoveInfo::read_from(t, r2),
        ensures
            match (r1, r2) {
                (Ok(a), Ok(b)) => a == b,
                (Err(x), Err(y)) => x == y,
                _ => false,
            },
    {
    }
}

impl MonitorSwapInfo {
    /// The tokens by which the window manager writes this event.
    pub open spec fn spec_tokens(self) -> Seq<Seq<char>> {
        seq!["monitor_swap"@, id_text(self.src_monitor_id), id_text(self.dst_monitor_id)]
    }

    pub proof fn lemma_tokens_plain(self)
        ensures
            forall|i: int| 0 <= i < self.spec_tokens().len() ==> plain(#[trigger] self.spec_tokens()[i]),
    {
        reveal_strlit("monitor_swap");
        assert(plain("monitor_swap"@));
        lemma_id_text_plain(self.src_monitor_id);
        lemma_id_text_plain(self.dst_monitor_id);
    }

    /// The tokens written for an event read back as that event.
    pub proof fn lemma_round_trip(self, r: Result<MonitorSwapInfo, ParseError>)
        requires
            MonitorSwapInfo::read_from(self.spec_tokens(), r),
        ensures
            r == Ok::<MonitorSwapInfo, ParseError>(self),
    {
        lemma_id_round_trip(self.src_monitor_id);
        lemma_id_round_trip(self.dst_monitor_id);
    }

    /// The tokens decide the outcome.
    pub proof fn lemma_deterministic(t: Seq<Seq<char>>, r1: Result<MonitorSwapInfo, ParseError>, r2: Result<MonitorSwapInfo, ParseError>)
        requires
            MonitorSwapInfo::read_from(t, r1),
            MonitorSwapInfo::read_from(t, r2),
        ensures
            match (r1, r2) {
                (Ok(a), Ok(b)) => a == b,
                (Err(x), Err(y)) => x == y,
                _ => false,
            },
    {
    }
}

impl MonitorFocusInfo {
    /// The tokens by which the window manager writes this event.
    pub open spec fn spec_tokens(self) -> Seq<Seq<char>> {
        seq!["monitor_focus"@, id_text(self.monitor_id)]
    }

    pub proof fn lemma_tokens_plain(self)
        ensures
            forall|i: int| 0 <= i < self.spec_tokens().len() ==> plain(#[trigger] self.spec_tokens()[i]),
    {
        reveal_strlit("monitor_focus");
        assert(plain("monitor_focus"@));
        lemma_id_text_plain(self.monitor_id);
    }

    /// The tokens written for an event read back as that event.
    pub proof fn lemma_round_trip(self, r: Result<MonitorFocusInfo, ParseError>)
        requires
            MonitorFocusInfo::read_from(self.spec_tokens(), r),
        ensures
            r == Ok::<MonitorFocusInfo, ParseError>(self),
    {
        lemma_id_round_trip(self.monitor_id);
    }

    /// The tokens decide the outcome.
    pub proof fn lemma_deterministic(t: Seq<Seq<char>>, r1: Result<MonitorFocusInfo, ParseError>, r2: Result<MonitorFocusInfo, ParseError>)
        requires
            MonitorFocusInfo::read_from(t, r1),
            MonitorFocusInfo::read_from(t, r2),
        ensures
            match (r1, r2) {
                (Ok(a), Ok(b)) => a == b,
                (Err(x), Err(y)) => x == y,
                _ => false,
            },
    {
    }
}

impl MonitorGeometryInfo {
    /// The tokens by which the window manager writes this event.
    pub open spec fn spec_tokens(self) -> Seq<Seq<char>> {
        seq!["monitor_geometry"@, id_text(self.monitor_id), self.monitor_geometry.spec_text()]
    }

    pub proof fn lemma_tokens_plain(self)
        ensures
            forall|i: int| 0 <= i < self.spec_tokens().len() ==> plain(#[trigger] self.spec_tokens()[i]),
    {
        reveal_strlit("monitor_geometry");
        assert(plain("monitor_geometry"@));
        lemma_id_text_plain(self.monitor_id);
        self.monitor_geometry.lemma_text_round_trip();
    }

    /// The tokens written for an event read back as that event.
    pub proof fn lemma_round_trip(self, r: Result<MonitorGeometryInfo, ParseError>)
        requires
            MonitorGeometryInfo::read_from(self.spec_tokens(), r),
        ensures
            r == Ok::<MonitorGeometryInfo, ParseError>(self),
    {
        lemma_id_round_trip(self.monitor_id);
        self.monitor_geometry.lemma_text_round_trip();
    }

    /// The tokens decide the outcome.
    pub proof fn lemma_deterministic(t: Seq<Seq<char>>, r1: Result<MonitorGeometryInfo, ParseError>, r2: Result<MonitorGeometryInfo, ParseError>)
        requires
            MonitorGeometryInfo::read_from(t, r1),
            MonitorGeometryInfo::read_from(t, r2),
        ensures
            match (r1, r2) {
                (Ok(a), Ok(b)) => a == b,
                (Err(x), Err(y)) => x == y,
                _ => false,
            },
    {
    }
}

impl DesktopAddInfo {
    /// The tokens by which the window manager writes this event.
    pub open spec fn spec_tokens(self) -> Seq<Seq<char>> {
        seq!["desktop_add"@, id_text(self.monitor_id), id_text(self.desktop_id), self.desktop_name@]
    }

    /// Names are plain tokens; a ratio is a numeral.
    pub open spec fn well_formed(self) -> bool {
        plain(self.desktop_name@)
    }

    /// Equal field by field, texts by their characters.
    pub open spec fn same(self, other: DesktopAddInfo) -> bool {
        self.monitor_id == other.monitor_id && self.desktop_id == other.desktop_id && self.desktop_name@ == other.desktop_name@
    }

    pub proof fn lemma_tokens_plain(self)
        requires
            self.well_formed(),
        ensures
            forall|i: int| 0 <= i < self.spec_tokens().len() ==> plain(#[trigger] self.spec_tokens()[i]),
    {
        reveal_strlit("desktop_add");
        assert(plain("desktop_add"@));
        lemma_id_text_plain(self.monitor_id);
        lemma_id_text_plain(self.desktop_id);
    }

    /// The tokens written for an event read back as that event.
    pub proof fn lemma_round_trip(self, r: Result<DesktopAddInfo, ParseError>)
        requires
            self.well_formed(),
            DesktopAddInfo::read_from(self.spec_tokens(), r),
        ensures
            r matches Ok(x) && x.same(self),
    {
        lemma_id_round_trip(self.monitor_id);
        lemma_id_round_trip(self.desktop_id);
    }

    /// The tokens decide the outcome.
    pub proof fn lemma_deterministic(t: Seq<Seq<char>>, r1: Result<DesktopAddInfo, ParseError>, r2: Result<DesktopAddInfo, ParseError>)
        requires
            DesktopAddInfo::read_from(t, r1),
            DesktopAddInfo::read_from(t, r2),
        ensures
            match (r1, r2) {
                (Ok(a), Ok(b)) => a.same(b),
                (Err(x), Err(y)) => x == y,
                _ => false,
            },
    {
    }
}

impl DesktopRenameInfo {
    /// The tokens by which the window manager writes this event.
    pub open spec fn spec_tokens(self) -> Seq<Seq<char>> {
        seq!["desktop_rename"@, id_text(self.monitor_id), id_text(self.desktop_id), self.old_name@, self.new_name@]
    }

    /// Names are plain tokens; a ratio is a numeral.
    pub open spec fn well_formed(self) -> bool {
        plain(self.old_name@) && plain(self.new_name@)
    }

    /// Equal field by field, texts by their characters.
    pub open spec fn same(self, other: DesktopRenameInfo) -> bool {
        self.monitor_id == other.monitor_id && self.desktop_id == other.desktop_id && self.old_name@ == other.old_name@ && self.new_name@ == other.new_name@
    }

    pub proof fn lemma_tokens_plain(self)
        requires
            self.well_formed(),
        ensures
            forall|i: int| 0 <= i < self.spec_tokens().len() ==> plain(#[trigger] self.spec_tokens()[i]),
    {
        reveal_strlit("desktop_rename");
        assert(plain("desktop_rename"@));
        lemma_id_text_plain(self.monitor_id);
        lemma_id_text_plain(self.desktop_id);
    }

    /// The tokens written for an event read back as that event.
    pub proof fn lemma_round_trip(self, r: Result<DesktopRenameInfo, ParseError>)
        requires
            self.well_formed(),
            DesktopRenameInfo::read_from(self.spec_tokens(), r),
        ensures
            r matches Ok(x) && x.same(self),
    {
        lemma_id_round_trip(self.monitor_id);
        lemma_id_round_trip(self.desktop_id);
    }

    /// The tokens decide the outcome.
    pub proof fn lemma_deterministic(t: Seq<Seq<char>>, r1: Result<DesktopRenameInfo, ParseError>, r2: Result<DesktopRenameInfo, ParseError>)
        requires
            DesktopRenameInfo::read_from(t, r1),
            DesktopRenameInfo::read_from(t, r2),
        ensures
            match (r1, r2) {
                (Ok(a), Ok(b)) => a.same(b),
                (Err(x), Err(y)) => x == y,
                _ => false,
            },
    {
    }
}

impl DesktopRemoveInfo {
    /// The tokens by which the window manager writes this event.
    pub open spec fn spec_tokens(self) -> Seq<Seq<char>> {
        seq!["desktop_remove"@, id_text(self.monitor_id), id_text(self.desktop_id)]
    }

    pub proof fn lemma_tokens_plain(self)
        ensures
            forall|i: int| 0 <= i < self.spec_tokens().len() ==> plain(#[trigger] self.spec_tokens()[i]),
    {
        reveal_strlit("desktop_remove");
        assert(plain("desktop_remove"@));
        lemma_id_text_plain(self.monitor_id);
        lemma_id_text_plain(self.desktop_id);
    }

    /// The tokens written for an event read back as that event.
    pub proof fn lemma_round_trip(self, r: Result<DesktopRemoveInfo, ParseError>)
        requires
            DesktopRemoveInfo::read_from(self.spec_tokens(), r),
        ensures
            r == Ok::<DesktopRemoveInfo, ParseError>(self),
    {
        lemma_id_round_trip(self.monitor_id);
        lemma_id_round_trip(self.desktop_id);
    }

    /// The tokens decide the outcome.
    pub proof fn lemma_deterministic(t: Seq<Seq<char>>, r1: Result<DesktopRemoveInfo, ParseError>, r2: Result<DesktopRemoveInfo, ParseError>)
        requires
            DesktopRemoveInfo::read_from(t, r1),
            DesktopRemoveInfo::read_from(t, r2),
        ensures
            match (r1, r2) {
                (Ok(a), Ok(b)) => a == b,
                (Err(x), Err(y)) => x == y,
                _ => false,
            },
    {
    }
}

impl DesktopSwapInfo {
    /// The tokens by which the window manager writes this event.
    pub open spec fn spec_tokens(self) -> Seq<Seq<char>> {
        seq!["desktop_swap"@, id_text(self.src_monitor_id), id_text(self.src_desktop_id), id_text(self.dst_monitor_id), id_text(self.dst_desktop_id)]
    }

    pub proof fn lemma_tokens_plain(self)
        ensures
            forall|i: int| 0 <= i < self.spec_tokens().len() ==> plain(#[trigger] self.spec_tokens()[i]),
    {
        reveal_strlit("desktop_swap");
        assert(plain("desktop_swap"@));
        lemma_id_text_plain(self.src_monitor_id);
        lemma_id_text_plain(self.src_desktop_id);
        lemma_id_text_plain(self.dst_monitor_id);
        lemma_id_text_plain(self.dst_desktop_id);
    }

    /// The tokens written for an event read back as that event.
    pub proof fn lemma_round_trip(self, r: Result<DesktopSwapInfo, ParseError>)
        requires
            DesktopSwapInfo::read_from(self.spec_tokens(), r),
        ensures
            r == Ok::<DesktopSwapInfo, ParseError>(self),
    {
        lemma_id_round_trip(self.src_monitor_id);
        lemma_id_round_trip(self.src_desktop_id);
        lemma_id_round_trip(self.dst_monitor_id);
        lemma_id_round_trip(self.dst_desktop_id);
    }

    /// The tokens decide the outcome.
    pub proof fn lemma_deterministic(t: Seq<Seq<char>>, r1: Result<DesktopSwapInfo, ParseError>, r2: Result<DesktopSwapInfo, ParseError>)
        requires
            DesktopSwapInfo::read_from(t, r1),
            DesktopSwapInfo::read_from(t, r2),
        ensures
            match (r1, r2) {
                (Ok(a), Ok(b)) => a == b,
                (Err(x), Err(y)) => x == y,
                _ => false,
            },
    {
    }
}

impl DesktopTransferInfo {
    /// The tokens by which the window manager writes this event.
    pub open spec fn spec_tokens(self) -> Seq<Seq<char>> {
        seq!["desktop_transfer"@, id_text(self.src_monitor_id), id_text(self.src_desktop_id), id_text(self.dst_monitor_id)]
    }

    pub proof fn lemma_tokens_plain(self)
        ensures
            forall|i: int| 0 <= i < self.spec_tokens().len() ==> plain(#[trigger] self.spec_tokens()[i]),
    {
        reveal_strlit("desktop_transfer");
        assert(plain("desktop_transfer"@));
        lemma_id_text_plain(self.src_monitor_id);
        lemma_id_text_plain(self.src_desktop_id);
        lemma_id_text_plain(self.dst_monitor_id);
    }

    /// The tokens written for an event read back as that event.
    pub proof fn lemma_round_trip(self, r: Result<DesktopTransferInfo, ParseError>)
        requires
            DesktopTransferInfo::read_from(self.spec_tokens(), r),
        ensures
            r == Ok::<DesktopTransferInfo, ParseError>(self),
    {
        lemma_id_round_trip(self.src_monitor_id);
        lemma_id_round_trip(self.src_desktop_id);
        lemma_id_round_trip(self.dst_monitor_id);
    }

    /// The tokens decide the outcome.
    pub proof fn lemma_deterministic(t: Seq<Seq<char>>, r1: Result<DesktopTransferInfo, ParseError>, r2: Result<DesktopTransferInfo, ParseError>)
        requires
            DesktopTransferInfo::read_from(t, r1),
            DesktopTransferInfo::read_from(t, r2),
        ensures
            match (r1, r2) {
                (Ok(a), Ok(b)) => a == b,
                (Err(x), Err(y)) => x == y,
                _ => false,
            },
    {
    }
}

impl DesktopFocusInfo {
    /// The tokens by which the window manager writes this event.
    pub open spec fn spec_tokens(self) -> Seq<Seq<char>> {
        seq!["desktop_focus"@, id_text(self.monitor_id), id_text(self.desktop_id)]
    }

    pub proof fn lemma_tokens_plain(self)
        ensures
            forall|i: int| 0 <= i < self.spec_tokens().len() ==> plain(#[trigger] self.spec_tokens()[i]),
    {
        reveal_strlit("desktop_focus");
        assert(plain("desktop_focus"@));
        lemma_id_text_plain(self.monitor_id);
        lemma_id_text_plain(self.desktop_id);
    }

    /// The tokens written for an event read back as that event.
    pub proof fn lemma_round_trip(self, r: Result<DesktopFocusInfo, ParseError>)
        requires
            DesktopFocusInfo::read_from(self.spec_tokens(), r),
        ensures
            r == Ok::<DesktopFocusInfo, ParseError>(self),
    {
        lemma_id_round_trip(self.monitor_id);
        lemma_id_round_trip(self.desktop_id);
    }

    /// The tokens decide the outcome.
    pub proof fn lemma_deterministic(t: Seq<Seq<char>>, r1: Result<DesktopFocusInfo, ParseError>, r2: Result<DesktopFocusInfo, ParseError>)
        requires
            DesktopFocusInfo::read_from(t, r1),
            DesktopFocusInfo::read_from(t, r2),
        ensures
            match (r1, r2) {
                (Ok(a), Ok(b)) => a == b,
                (Err(x), Err(y)) => x == y,
                _ => false,
            },
    {
    }
}

impl DesktopActivateInfo {
    /// The tokens by which the window manager writes this event.
    pub open spec fn spec_tokens(self) -> Seq<Seq<char>> {
        seq!["desktop_activate"@, id_text(self.monitor_id), id_text(self.desktop_id)]
    }

    pub proof fn lemma_tokens_plain(self)
        ensures
            forall|i: int| 0 <= i < self.spec_tokens().len() ==> plain(#[trigger] self.spec_tokens()[i]),
    {
        reveal_strlit("desktop_activate");
        assert(plain("desktop_activate"@));
        lemma_id_text_plain(self.monitor_id);
        lemma_id_text_plain(self.desktop_id);
    }

    /// The tokens written for an event read back as that event.
    pub proof fn lemma_round_trip(self, r: Result<DesktopActivateInfo, ParseError>)
        requires
            DesktopActivateInfo::read_from(self.spec_tokens(), r),
        ensures
            r == Ok::<DesktopActivateInfo, ParseError>(self),
    {
        lemma_id_round_trip(self.monitor_id);
        lemma_id_round_trip(self.desktop_id);
    }

    /// The tokens decide the outcome.
    pub proof fn lemma_deterministic(t: Seq<Seq<char>>, r1: Result<DesktopActivateInfo, ParseError>, r2: Result<DesktopActivateInfo, ParseError>)
        requires
            DesktopActivateInfo::read_from(t, r1),
            DesktopActivateInfo::read_from(t, r2),
        ensures
            match (r1, r2) {
                (Ok(a), Ok(b)) => a == b,
                (Err(x), Err(y)) => x == y,
                _ => false,
            },
    {
    }
}

impl DesktopLayoutInfo {
    /// The tokens by which the window manager writes this event.
    pub open spec fn spec_tokens(self) -> Seq<Seq<char>> {
        seq!["desktop_layout"@, id_text(self.monitor_id), id_text(self.desktop_id), self.layout.spec_text()]
    }

    pub proof fn lemma_tokens_plain(self)
        ensures
            forall|i: int| 0 <= i < self.spec_tokens().len() ==> plain(#[trigger] self.spec_tokens()[i]),
    {
        reveal_strlit("desktop_layout");
        assert(plain("desktop_layout"@));
        lemma_id_text_plain(self.monitor_id);
        lemma_id_text_plain(self.desktop_id);
        self.layout.lemma_text_plain();
    }

    /// The tokens written for an event read back as that event.
    pub proof fn lemma_round_trip(self, r: Result<DesktopLayoutInfo, ParseError>)
        requires
            DesktopLayoutInfo::read_from(self.spec_tokens(), r),
        ensures
            r == Ok::<DesktopLayoutInfo, ParseError>(self),
    {
        lemma_id_round_trip(self.monitor_id);
        lemma_id_round_trip(self.desktop_id);
        self.layout.lemma_text_round_trip();
    }

    /// The tokens decide the outcome.
    pub proof fn lemma_deterministic(t: Seq<Seq<char>>, r1: Result<DesktopLayoutInfo, ParseError>, r2: Result<DesktopLayoutInfo, ParseError>)
        requires
            DesktopLayoutInfo::read_from(t, r1),
            DesktopLayoutInfo::read_from(t, r2),
        ensures
            match (r1, r2) {
                (Ok(a), Ok(b)) => a == b,
                (Err(x), Err(y)) => x == y,
                _ => false,
            },
    {
    }
}

impl NodeAddInfo {
    /// The tokens by which the window manager writes this event.
    pub open spec fn spec_tokens(self) -> Seq<Seq<char>> {
        seq!["node_add"@, id_text(self.monitor_id), id_text(self.desktop_id), id_text(self.ip_id), id_text(self.node_id)]
    }

    pub proof fn lemma_tokens_plain(self)
        ensures
            forall|i: int| 0 <= i < self.spec_tokens().len() ==> plain(#[trigger] self.spec_tokens()[i]),
    {
        reveal_strlit("node_add");
        assert(plain("node_add"@));
        lemma_id_text_plain(self.monitor_id);
        lemma_id_text_plain(self.desktop_id);
        lemma_id_text_plain(self.ip_id);
        lemma_id_text_plain(self.node_id);
    }

    /// The tokens written for an event read back as that event.
    pub proof fn lemma_round_trip(self, r: Result<NodeAddInfo, ParseError>)
        requires
            NodeAddInfo::read_from(self.spec_tokens(), r),
        ensures
            r == Ok::<NodeAddInfo, ParseError>(self),
    {
        lemma_id_round_trip(self.monitor_id);
        lemma_id_round_trip(self.desktop_id);
        lemma_id_round_trip(self.ip_id);
        lemma_id_round_trip(self.node_id);
    }

    /// The tokens decide the outcome.
    pub proof fn lemma_deterministic(t: Seq<Seq<char>>, r1: Result<NodeAddInfo, ParseError>, r2: Result<NodeAddInfo, ParseError>)
        requires
            NodeAddInfo::read_from(t, r1),
            NodeAddInfo::read_from(t, r2),
        ensures
            match (r1, r2) {
                (Ok(a), Ok(b)) => a == b,
                (Err(x), Err(y)) => x == y,
                _ => false,
            },
    {
    }
}

impl NodeRemoveInfo {
    /// The tokens by which the window manager writes this event.
    pub open spec fn spec_tokens(self) -> Seq<Seq<char>> {
        seq!["node_remove"@, id_text(self.monitor_id), id_text(self.desktop_id), id_text(self.node_id)]
    }

    pub proof fn lemma_tokens_plain(self)
        ensures
            forall|i: int| 0 <= i < self.spec_tokens().len() ==> plain(#[trigger] self.spec_tokens()[i]),
    {
        reveal_strlit("node_remove");
        assert(plain("node_remove"@));
        lemma_id_text_plain(self.monitor_id);
        lemma_id_text_plain(self.desktop_id);
        lemma_id_text_plain(self.node_id);
    }

    /// The tokens written for an event read back as that event.
    pub proof fn lemma_round_trip(self, r: Result<NodeRemoveInfo, ParseError>)
        requires
            NodeRemoveInfo::read_from(self.spec_tokens(), r),
        ensures
            r == Ok::<NodeRemoveInfo, ParseError>(self),
    {
        lemma_id_round_trip(self.monitor_id);
        lemma_id_round_trip(self.desktop_id);
        lemma_id_round_trip(self.node_id);
    }

    /// The tokens decide the outcome.
    pub proof fn lemma_deterministic(t: Seq<Seq<char>>, r1: Result<NodeRemoveInfo, ParseError>, r2: Result<NodeRemoveInfo, ParseError>)
        requires
            NodeRemoveInfo::read_from(t, r1),
            NodeRemoveInfo::read_from(t, r2),
        ensures
            match (r1, r2) {
                (Ok(a), Ok(b)) => a == b,
                (Err(x), Err(y)) => x == y,
                _ => false,
            },
    {
    }
}

impl NodeSwapInfo {
    /// The tokens by which the window manager writes this event.
    pub open spec fn spec_tokens(self) -> Seq<Seq<char>> {
        seq!["node_swap"@, id_text(self.src_monitor_id), id_text(self.src_desktop_id), id_text(self.src_node_id), id_text(self.dst_monitor_id), id_text(self.dst_desktop_id), id_text(self.dst_node_id)]
    }

    pub proof fn lemma_tokens_plain(self)
        ensures
            forall|i: int| 0 <= i < self.spec_tokens().len() ==> plain(#[trigger] self.spec_tokens()[i]),
    {
        reveal_strlit("node_swap");
        assert(plain("node_swap"@));
        lemma_id_text_plain(self.src_monitor_id);
        lemma_id_text_plain(self.src_desktop_id);
        lemma_id_text_plain(self.src_node_id);
        lemma_id_text_plain(self.dst_monitor_id);
        lemma_id_text_plain(self.dst_desktop_id);
        lemma_id_text_plain(self.dst_node_id);
    }

    /// The tokens written for an event read back as that event.
    pub proof fn lemma_round_trip(self, r: Result<NodeSwapInfo, ParseError>)
        requires
            NodeSwapInfo::read_from(self.spec_tokens(), r),
        ensures
            r == Ok::<NodeSwapInfo, ParseError>(self),
    {
        lemma_id_round_trip(self.src_monitor_id);
        lemma_id_round_trip(self.src_desktop_id);
        lemma_id_round_trip(self.src_node_id);
        lemma_id_round_trip(self.dst_monitor_id);
        lemma_id_round_trip(self.dst_desktop_id);
        lemma_id_round_trip(self.dst_node_id);
    }

    /// The tokens decide the outcome.
    pub proof fn lemma_deterministic(t: Seq<Seq<char>>, r1: Result<NodeSwapInfo, ParseError>, r2: Result<NodeSwapInfo, ParseError>)
        requires
            NodeSwapInfo::read_from(t, r1),
            NodeSwapInfo::read_from(t, r2),
        ensures
            match (r1, r2) {
                (Ok(a), Ok(b)) => a == b,
                (Err(x), Err(y)) => x == y,
                _ => false,
            },
    {
    }
}

impl NodeTransferInfo {
    /// The tokens by which the window manager writes this event.
    pub open spec fn spec_tokens(self) -> Seq<Seq<char>> {
        seq!["node_transfer"@, id_text(self.src_monitor_id), id_text(self.src_desktop_id), id_text(self.src_node_id), id_text(self.dst_monitor_id), id_text(self.dst_desktop_id), id_text(self.dst_node_id)]
    }

    pub proof fn lemma_tokens_plain(self)
        ensures
            forall|i: int| 0 <= i < self.spec_tokens().len() ==> plain(#[trigger] self.spec_tokens()[i]),
    {
        reveal_strlit("node_transfer");
        assert(plain("node_transfer"@));
        lemma_id_text_plain(self.src_monitor_id);
        lemma_id_text_plain(self.src_desktop_id);
        lemma_id_text_plain(self.src_node_id);
        lemma_id_text_plain(self.dst_monitor_id);
        lemma_id_text_plain(self.dst_desktop_id);
        lemma_id_text_plain(self.dst_node_id);
    }

    /// The tokens written for an event read back as that event.
    pub proof fn lemma_round_trip(self, r: Result<NodeTransferInfo, ParseError>)
        requires
            NodeTransferInfo::read_from(self.spec_tokens(), r),
        ensures
            r == Ok::<NodeTransferInfo, ParseError>(self),
    {
        lemma_id_round_trip(self.src_monitor_id);
        lemma_id_round_trip(self.src_desktop_id);
        lemma_id_round_trip(self.src_node_id);
        lemma_id_round_trip(self.dst_monitor_id);
        lemma_id_round_trip(self.dst_desktop_id);
        lemma_id_round_trip(self.dst_node_id);
    }

    /// The tokens decide the outcome.
    pub proof fn lemma_deterministic(t: Seq<Seq<char>>, r1: Result<NodeTransferInfo, ParseError>, r2: Result<NodeTransferInfo, ParseError>)
        requires
            NodeTransferInfo::read_from(t, r1),
            NodeTransferInfo::read_from(t, r2),
        ensures
            match (r1, r2) {
                (Ok(a), Ok(b)) => a == b,
                (Err(x), Err(y)) => x == y,
                _ => false,
            },
    {
    }
}

impl NodeFocusInfo {
    /// The tokens by which the window manager writes this event.
    pub open spec fn spec_tokens(self) -> Seq<Seq<char>> {
        seq!["node_focus"@, id_text(self.monitor_id), id_text(self.desktop_id), id_text(self.node_id)]
    }

    pub proof fn lemma_tokens_plain(self)
        ensures
            forall|i: int| 0 <= i < self.spec_tokens().len() ==> plain(#[trigger] self.spec_tokens()[i]),
    {
        reveal_strlit("node_focus");
        assert(plain("node_focus"@));
        lemma_id_text_plain(self.monitor_id);
        lemma_id_text_plain(self.desktop_id);
        lemma_id_text_plain(self.node_id);
    }

    /// The tokens written for an event read back as that event.
    pub proof fn lemma_round_trip(self, r: Result<NodeFocusInfo, ParseError>)
        requires
            NodeFocusInfo::read_from(self.spec_tokens(), r),
        ensures
            r == Ok::<NodeFocusInfo, ParseError>(self),
    {
        lemma_id_round_trip(self.monitor_id);
        lemma_id_round_trip(self.desktop_id);
        lemma_id_round_trip(self.node_id);
    }

    /// The tokens decide the outcome.
    pub proof fn lemma_deterministic(t: Seq<Seq<char>>, r1: Result<NodeFocusInfo, ParseError>, r2: Result<NodeFocusInfo, ParseError>)
        requires
            NodeFocusInfo::read_from(t, r1),
            NodeFocusInfo::read_from(t, r2),
        ensures
            match (r1, r2) {
                (Ok(a), Ok(b)) => a == b,
                (Err(x), Err(y)) => x == y,
                _ => false,
            },
    {
    }
}

impl NodeActivateInfo {
    /// The tokens by which the window manager writes this event.
    pub open spec fn spec_tokens(self) -> Seq<Seq<char>> {
        seq!["node_activate"@, id_text(self.monitor_id), id_text(self.desktop_id), id_text(self.node_id)]
    }

    pub proof fn lemma_tokens_plain(self)
        ensures
            forall|i: int| 0 <= i < self.spec_tokens().len() ==> plain(#[trigger] self.spec_tokens()[i]),
    {
        reveal_strlit("node_activate");
        assert(plain("node_activate"@));
        lemma_id_text_plain(self.monitor_id);
        lemma_id_text_plain(self.desktop_id);
        lemma_id_text_plain(self.node_id);
    }

    /// The tokens written for an event read back as that event.
    pub proof fn lemma_round_trip(self, r: Result<NodeActivateInfo, ParseError>)
        requires
            NodeActivateInfo::read_from(self.spec_tokens(), r),
        ensures
            r == Ok::<NodeActivateInfo, ParseError>(self),
    {
        lemma_id_round_trip(self.monitor_id);
        lemma_id_round_trip(self.desktop_id);
        lemma_id_round_trip(self.node_id);
    }

    /// The tokens decide the outcome.
    pub proof fn lemma_deterministic(t: Seq<Seq<char>>, r1: Result<NodeActivateInfo, ParseError>, r2: Result<NodeActivateInfo, ParseError>)
        requires
            NodeActivateInfo::read_from(t, r1),
            NodeActivateInfo::read_from(t, r2),
        ensures
            match (r1, r2) {
                (Ok(a), Ok(b)) => a == b,
                (Err(x), Err(y)) => x == y,
                _ => false,
            },
    {
    }
}

impl NodePreselInfo {
    /// The tokens by which the window manager writes this event.
    pub open spec fn spec_tokens(self) -> Seq<Seq<char>> {
        seq!["node_presel"@, id_text(self.monitor_id), id_text(self.desktop_id), id_text(self.node_id)] + self.presel.spec_tokens()
    }

    /// Names are plain tokens; a ratio is a numeral.
    pub open spec fn well_formed(self) -> bool {
        self.presel.well_formed()
    }

    /// Equal field by field, texts by their characters.
    pub open spec fn same(self, other: NodePreselInfo) -> bool {
        self.monitor_id == other.monitor_id && self.desktop_id == other.desktop_id && self.node_id == other.node_id && self.presel.same(other.presel)
    }

    pub proof fn lemma_tokens_plain(self)
        requires
            self.well_formed(),
        ensures
            forall|i: int| 0 <= i < self.spec_tokens().len() ==> plain(#[trigger] self.spec_tokens()[i]),
    {
        reveal_strlit("node_presel");
        assert(plain("node_presel"@));
        lemma_id_text_plain(self.monitor_id);
        lemma_id_text_plain(self.desktop_id);
        lemma_id_text_plain(self.node_id);
        self.presel.lemma_tokens_plain();
        let t = self.spec_tokens();
        let p = self.presel.spec_tokens();
        assert forall|i: int| 0 <= i < t.len() implies plain(#[trigger] t[i]) by {
            if i >= 4 {
                assert(t[i] == p[i - 4]);
            }
        }
    }

    /// The tokens written for an event read back as that event.
    pub proof fn lemma_round_trip(self, r: Result<NodePreselInfo, ParseError>)
        requires
            self.well_formed(),
            NodePreselInfo::read_from(self.spec_tokens(), r),
        ensures
            r matches Ok(x) && x.same(self),
    {
        lemma_id_round_trip(self.monitor_id);
        lemma_id_round_trip(self.desktop_id);
        lemma_id_round_trip(self.node_id);
        let t = self.spec_tokens();
        let p = self.presel.spec_tokens();
        assert forall|k: int| 0 <= k < p.len() implies t[4 + k] == #[trigger] p[k] by {}
        let rp = match r {
            Ok(x) => Ok::<Presel, ParseError>(x.presel),
            Err(e) => Err::<Presel, ParseError>(e),
        };
        self.presel.lemma_round_trip(t, 4, rp);
    }

    /// The tokens decide the outcome.
    pub proof fn lemma_deterministic(t: Seq<Seq<char>>, r1: Result<NodePreselInfo, ParseError>, r2: Result<NodePreselInfo, ParseError>)
        requires
            NodePreselInfo::read_from(t, r1),
            NodePreselInfo::read_from(t, r2),
        ensures
            match (r1, r2) {
                (Ok(a), Ok(b)) => a.same(b),
                (Err(x), Err(y)) => x == y,
                _ => false,
            },
    {
        if header_error(t, "node_presel"@, 4) is None && id_of(t[1]) is Some && id_of(t[2]) is Some && id_of(t[3]) is Some {
            let p1 = match r1 {
                Ok(x) => Ok::<Presel, ParseError>(x.presel),
                Err(e) => Err::<Presel, ParseError>(e),
            };
            let p2 = match r2 {
                Ok(x) => Ok::<Presel, ParseError>(x.presel),
                Err(e) => Err::<Presel, ParseError>(e),
            };
            Presel::lemma_deterministic(t, 4, p1, p2);
        }
    }
}

impl NodeStackInfo {
    /// The tokens by which the window manager writes this event.
    pub open spec fn spec_tokens(self) -> Seq<Seq<char>> {
        seq!["node_stack"@, id_text(self.node_id_1), self.stack.spec_text(), id_text(self.node_id_2)]
    }

    pub proof fn lemma_tokens_plain(self)
        ensures
            forall|i: int| 0 <= i < self.spec_tokens().len() ==> plain(#[trigger] self.spec_tokens()[i]),
    {
        reveal_strlit("node_stack");
        assert(plain("node_stack"@));
        lemma_id_text_plain(self.node_id_1);
        self.stack.lemma_text_plain();
        lemma_id_text_plain(self.node_id_2);
    }

    /// The tokens written for an event read back as that event.
    pub proof fn lemma_round_trip(self, r: Result<NodeStackInfo, ParseError>)
        requires
            NodeStackInfo::read_from(self.spec_tokens(), r),
        ensures
            r == Ok::<NodeStackInfo, ParseError>(self),
    {
        lemma_id_round_trip(self.node_id_1);
        self.stack.lemma_text_round_trip();
        lemma_id_round_trip(self.node_id_2);
    }

    /// The tokens decide the outcome.
    pub proof fn lemma_deterministic(t: Seq<Seq<char>>, r1: Result<NodeStackInfo, ParseError>, r2: Result<NodeStackInfo, ParseError>)
        requires
            NodeStackInfo::read_from(t, r1),
            NodeStackInfo::read_from(t, r2),
        ensures
            match (r1, r2) {
                (Ok(a), Ok(b)) => a == b,
                (Err(x), Err(y)) => x == y,
                _ => false,
            },
    {
    }
}

impl NodeGeometryInfo {
    /// The tokens by which the window manager writes this event.
    pub open spec fn spec_tokens(self) -> Seq<Seq<char>> {
        seq!["node_geometry"@, id_text(self.monitor_id), id_text(self.desktop_id), id_text(self.node_id), self.node_geometry.spec_text()]
    }

    pub proof fn lemma_tokens_plain(self)
        ensures
            forall|i: int| 0 <= i < self.spec_tokens().len() ==> plain(#[trigger] self.spec_tokens()[i]),
    {
        reveal_strlit("node_geometry");
        assert(plain("node_geometry"@));
        lemma_id_text_plain(self.monitor_id);
        lemma_id_text_plain(self.desktop_id);
        lemma_id_text_plain(self.node_id);
        self.node_geometry.lemma_text_round_trip();
    }

    /// The tokens written for an event read back as that event.
    pub proof fn lemma_round_trip(self, r: Result<NodeGeometryInfo, ParseError>)
        requires
            NodeGeometryInfo::read_from(self.spec_tokens(), r),
        ensures
            r == Ok::<NodeGeometryInfo, ParseError>(self),
    {
        lemma_id_round_trip(self.monitor_id);
        lemma_id_round_trip(self.desktop_id);
        lemma_id_round_trip(self.node_id);
        self.node_geometry.lemma_text_round_trip();
    }

    /// The tokens decide the outcome.
    pub proof fn lemma_deterministic(t: Seq<Seq<char>>, r1: Result<NodeGeometryInfo, ParseError>, r2: Result<NodeGeometryInfo, ParseError>)
        requires
            NodeGeometryInfo::read_from(t, r1),
            NodeGeometryInfo::read_from(t, r2),
        ensures
            match (r1, r2) {
                (Ok(a), Ok(b)) => a == b,
                (Err(x), Err(y)) => x == y,
                _ => false,
            },
    {
    }
}

impl NodeStateInfo {
    /// The tokens by which the window manager writes this event.
    pub open spec fn spec_tokens(self) -> Seq<Seq<char>> {
        seq!["node_state"@, id_text(self.monitor_id), id_text(self.desktop_id), id_text(self.node_id), self.state.spec_text(), self.switch.spec_text()]
    }

    pub proof fn lemma_tokens_plain(self)
        ensures
            forall|i: int| 0 <= i < self.spec_tokens().len() ==> plain(#[trigger] self.spec_tokens()[i]),
    {
        reveal_strlit("node_state");
        assert(plain("node_state"@));
        lemma_id_text_plain(self.monitor_id);
        lemma_id_text_plain(self.desktop_id);
        lemma_id_text_plain(self.node_id);
        self.state.lemma_text_plain();
        self.switch.lemma_text_plain();
    }

    /// The tokens written for an event read back as that event.
    pub proof fn lemma_round_trip(self, r: Result<NodeStateInfo, ParseError>)
        requires
            NodeStateInfo::read_from(self.spec_tokens(), r),
        ensures
            r == Ok::<NodeStateInfo, ParseError>(self),
    {
        lemma_id_round_trip(self.monitor_id);
        lemma_id_round_trip(self.desktop_id);
        lemma_id_round_trip(self.node_id);
        self.state.lemma_text_round_trip();
        self.switch.lemma_text_round_trip();
    }

    /// The tokens decide the outcome.
    pub proof fn lemma_deterministic(t: Seq<Seq<char>>, r1: Result<NodeStateInfo, ParseError>, r2: Result<NodeStateInfo, ParseError>)
        requires
            NodeStateInfo::read_from(t, r1),
            NodeStateInfo::read_from(t, r2),
        ensures
            match (r1, r2) {
                (Ok(a), Ok(b)) => a == b,
                (Err(x), Err(y)) => x == y,
                _ => false,
            },
    {
    }
}

impl NodeFlagInfo {
    /// The tokens by which the window manager writes this event.
    pub open spec fn spec_tokens(self) -> Seq<Seq<char>> {
        seq!["node_flag"@, id_text(self.monitor_id), id_text(self.desktop_id), id_text(self.node_id), self.flag.spec_text(), self.switch.spec_text()]
    }

    pub proof fn lemma_tokens_plain(self)
        ensures
            forall|i: int| 0 <= i < self.spec_tokens().len() ==> plain(#[trigger] self.spec_tokens()[i]),
    {
        reveal_strlit("node_flag");
        assert(plain("node_flag"@));
        lemma_id_text_plain(self.monitor_id);
        lemma_id_text_plain(self.desktop_id);
        lemma_id_text_plain(self.node_id);
        self.flag.lemma_text_plain();
        self.switch.lemma_text_plain();
    }

    /// The tokens written for an event read back as that event.
    pub proof fn lemma_round_trip(self, r: Result<NodeFlagInfo, ParseError>)
        requires
            NodeFlagInfo::read_from(self.spec_tokens(), r),
        ensures
            r == Ok::<NodeFlagInfo, ParseError>(self),
    {
        lemma_id_round_trip(self.monitor_id);
        lemma_id_round_trip(self.desktop_id);
        lemma_id_round_trip(self.node_id);
        self.flag.lemma_text_round_trip();
        self.switch.lemma_text_round_trip();
    }

    /// The tokens decide the outcome.
    pub proof fn lemma_deterministic(t: Seq<Seq<char>>, r1: Result<NodeFlagInfo, ParseError>, r2: Result<NodeFlagInfo, ParseError>)
        requires
            NodeFlagInfo::read_from(t, r1),
            NodeFlagInfo::read_from(t, r2),
        ensures
            match (r1, r2) {
                (Ok(a), Ok(b)) => a == b,
                (Err(x), Err(y)) => x == y,
                _ => false,
            },
    {
    }
}

impl NodeLayerInfo {
    /// The tokens by which the window manager writes this event.
    pub open spec fn spec_tokens(self) -> Seq<Seq<char>> {
        seq!["node_layer"@, id_text(self.monitor_id), id_text(self.desktop_id), id_text(self.node_id), self.layer.spec_text()]
    }

    pub proof fn lemma_tokens_plain(self)
        ensures
            forall|i: int| 0 <= i < self.spec_tokens().len() ==> plain(#[trigger] self.spec_tokens()[i]),
    {
        reveal_strlit("node_layer");
        assert(plain("node_layer"@));
        lemma_id_text_plain(self.monitor_id);
        lemma_id_text_plain(self.desktop_id);
        lemma_id_text_plain(self.node_id);
        self.layer.lemma_text_plain();
    }

    /// The tokens written for an event read back as that event.
    pub proof fn lemma_round_trip(self, r: Result<NodeLayerInfo, ParseError>)
        requires
            NodeLayerInfo::read_from(self.spec_tokens(), r),
        ensures
            r == Ok::<NodeLayerInfo, ParseError>(self),
    {
        lemma_id_round_trip(self.monitor_id);
        lemma_id_round_trip(self.desktop_id);
        lemma_id_round_trip(self.node_id);
        self.layer.lemma_text_round_trip();
    }

    /// The tokens decide the outcome.
    pub proof fn lemma_deterministic(t: Seq<Seq<char>>, r1: Result<NodeLayerInfo, ParseError>, r2: Result<NodeLayerInfo, ParseError>)
        requires
            NodeLayerInfo::read_from(t, r1),
            NodeLayerInfo::read_from(t, r2),
        ensures
            match (r1, r2) {
                (Ok(a), Ok(b)) => a == b,
                (Err(x), Err(y)) => x == y,
                _ => false,
            },
    {
    }
}

impl PointerActionInfo {
    /// The tokens by which the window manager writes this event.
    pub open spec fn spec_tokens(self) -> Seq<Seq<char>> {
        seq!["pointer_action"@, id_text(self.monitor_id), id_text(self.desktop_id), id_text(self.node_id), self.action.spec_text(), self.action_state.spec_text()]
    }

    pub proof fn lemma_tokens_plain(self)
        ensures
            forall|i: int| 0 <= i < self.spec_tokens().len() ==> plain(#[trigger] self.spec_tokens()[i]),
    {
        reveal_strlit("pointer_action");
        assert(plain("pointer_action"@));
        lemma_id_text_plain(self.monitor_id);
        lemma_id_text_plain(self.desktop_id);
        lemma_id_text_plain(self.node_id);
        self.action.lemma_text_plain();
        self.action_state.lemma_text_plain();
    }

    /// The tokens written for an event read back as that event.
    pub proof fn lemma_round_trip(self, r: Result<PointerActionInfo, ParseError>)
        requires
            PointerActionInfo::read_from(self.spec_tokens(), r),
        ensures
            r == Ok::<PointerActionInfo, ParseError>(self),
    {
        lemma_id_round_trip(self.monitor_id);
        lemma_id_round_trip(self.desktop_id);
        lemma_id_round_trip(self.node_id);
        self.action.lemma_text_round_trip();
        self.action_state.lemma_text_round_trip();
    }

    /// The tokens decide the outcome.
    pub proof fn lemma_deterministic(t: Seq<Seq<char>>, r1: Result<PointerActionInfo, ParseError>, r2: Result<PointerActionInfo, ParseError>)
        requires
            PointerActionInfo::read_from(t, r1),
            PointerActionInfo::read_from(t, r2),
        ensures
            match (r1, r2) {
                (Ok(a), Ok(b)) => a == b,
                (Err(x), Err(y)) => x == y,
                _ => false,
            },
    {
    }
}

impl MonitorEvent {
    /// The tokens by which the window manager writes this event.
    pub open spec fn spec_tokens(self) -> Seq<Seq<char>> {
        match self {
            MonitorEvent::MonitorAdd(x) => x.spec_tokens(),
            MonitorEvent::MonitorRename(x) => x.spec_tokens(),
            MonitorEvent::MonitorRemove(x) => x.spec_tokens(),
            MonitorEvent::MonitorSwap(x) => x.spec_tokens(),
            MonitorEvent::MonitorFocus(x) => x.spec_tokens(),
            MonitorEvent::MonitorGeometry(x) => x.spec_tokens(),
        }
    }

    pub open spec fn well_formed(self) -> bool {
        match self {
            MonitorEvent::MonitorAdd(x) => x.well_formed(),
            MonitorEvent::MonitorRename(x) => x.well_formed(),
            _ => true,
        }
    }

    /// Equal field by field, texts by their characters.
    pub open spec fn same(self, other: MonitorEvent) -> bool {
        match (self, other) {
            (MonitorEvent::MonitorAdd(a), MonitorEvent::MonitorAdd(b)) => a.same(b),
            (MonitorEvent::MonitorRename(a), MonitorEvent::MonitorRename(b)) => a.same(b),
            _ => self == other,
        }
    }

    pub proof fn lemma_tokens_plain(self)
        requires
            self.well_formed(),
        ensures
            forall|i: int| 0 <= i < self.spec_tokens().len() ==> plain(#[trigger] self.spec_tokens()[i]),
    {
        match self {
            MonitorEvent::MonitorAdd(x) => x.lemma_tokens_plain(),
            MonitorEvent::MonitorRename(x) => x.lemma_tokens_plain(),
            MonitorEvent::MonitorRemove(x) => x.lemma_tokens_plain(),
            MonitorEvent::MonitorSwap(x) => x.lemma_tokens_plain(),
            MonitorEvent::MonitorFocus(x) => x.lemma_tokens_plain(),
            MonitorEvent::MonitorGeometry(x) => x.lemma_tokens_plain(),
        }
    }

    /// The tokens written for an event read back as that event.
    pub proof fn lemma_round_trip(self, r: Result<MonitorEvent, ParseError>)
        requires
            self.well_formed(),
            MonitorEvent::read_from(self.spec_tokens(), r),
        ensures
            r matches Ok(x) && x.same(self),
    {
        lemma_tags_distinct();
        match self {
            MonitorEvent::MonitorAdd(i) => match r {
                Ok(MonitorEvent::MonitorAdd(x)) => i.lemma_round_trip(Ok(x)),
                Err(e) => i.lemma_round_trip(Err(e)),
                _ => {},
            },
            MonitorEvent::MonitorRename(i) => match r {
                Ok(MonitorEvent::MonitorRename(x)) => i.lemma_round_trip(Ok(x)),
                Err(e) => i.lemma_round_trip(Err(e)),
                _ => {},
            },
            MonitorEvent::MonitorRemove(i) => match r {
                Ok(MonitorEvent::MonitorRemove(x)) => i.lemma_round_trip(Ok(x)),
                Err(e) => i.lemma_round_trip(Err(e)),
                _ => {},
            },
            MonitorEvent::MonitorSwap(i) => match r {
                Ok(MonitorEvent::MonitorSwap(x)) => i.lemma_round_trip(Ok(x)),
                Err(e) => i.lemma_round_trip(Err(e)),
                _ => {},
            },
            MonitorEvent::MonitorFocus(i) => match r {
                Ok(MonitorEvent::MonitorFocus(x)) => i.lemma_round_trip(Ok(x)),
                Err(e) => i.lemma_round_trip(Err(e)),
                _ => {},
            },
            MonitorEvent::MonitorGeometry(i) => match r {
                Ok(MonitorEvent::MonitorGeometry(x)) => i.lemma_round_trip(Ok(x)),
                Err(e) => i.lemma_round_trip(Err(e)),
                _ => {},
            },
        }
    }

    /// The first token is a tag of this category, and of no other.
    pub proof fn lemma_tag(self)
        ensures
            MonitorEvent::has_tag(self.spec_tokens()[0]),
            !DesktopEvent::has_tag(self.spec_tokens()[0]),
            !NodeEvent::has_tag(self.spec_tokens()[0]),
            self.spec_tokens()[0] != "pointer_action"@,
    {
        lemma_tags_distinct();
        match self {
            MonitorEvent::MonitorAdd(x) => assert(x.spec_tokens()[0] == "monitor_add"@),
            MonitorEvent::MonitorRename(x) => assert(x.spec_tokens()[0] == "monitor_rename"@),
            MonitorEvent::MonitorRemove(x) => assert(x.spec_tokens()[0] == "monitor_remove"@),
            MonitorEvent::MonitorSwap(x) => assert(x.spec_tokens()[0] == "monitor_swap"@),
            MonitorEvent::MonitorFocus(x) => assert(x.spec_tokens()[0] == "monitor_focus"@),
            MonitorEvent::MonitorGeometry(x) => assert(x.spec_tokens()[0] == "monitor_geometry"@),
        }
    }

    /// The tokens decide the outcome.
    pub proof fn lemma_deterministic(t: Seq<Seq<char>>, r1: Result<MonitorEvent, ParseError>, r2: Result<MonitorEvent, ParseError>)
        requires
            MonitorEvent::read_from(t, r1),
            MonitorEvent::read_from(t, r2),
        ensures
            match (r1, r2) {
                (Ok(a), Ok(b)) => a.same(b),
                (Err(x), Err(y)) => x == y,
                _ => false,
            },
    {
        if t[0] == "monitor_add"@ {
            let a1 = match r1 {
                Ok(MonitorEvent::MonitorAdd(x)) => Ok::<MonitorAddInfo, ParseError>(x),
                Ok(_) => Err::<MonitorAddInfo, ParseError>(ParseError::InvalidEvent),
                Err(e) => Err::<MonitorAddInfo, ParseError>(e),
            };
            let a2 = match r2 {
                Ok(MonitorEvent::MonitorAdd(x)) => Ok::<MonitorAddInfo, ParseError>(x),
                Ok(_) => Err::<MonitorAddInfo, ParseError>(ParseError::InvalidEvent),
                Err(e) => Err::<MonitorAddInfo, ParseError>(e),
            };
            MonitorAddInfo::lemma_deterministic(t, a1, a2);
        } else if t[0] == "monitor_rename"@ {
            let a1 = match r1 {
                Ok(MonitorEvent::MonitorRename(x)) => Ok::<MonitorRenameInfo, ParseError>(x),
                Ok(_) => Err::<MonitorRenameInfo, ParseError>(ParseError::InvalidEvent),
                Err(e) => Err::<MonitorRenameInfo, ParseError>(e),
            };
            let a2 = match r2 {
                Ok(MonitorEvent::MonitorRename(x)) => Ok::<MonitorRenameInfo, ParseError>(x),
                Ok(_) => Err::<MonitorRenameInfo, ParseError>(ParseError::InvalidEvent),
                Err(e) => Err::<MonitorRenameInfo, ParseError>(e),
            };
            MonitorRenameInfo::lemma_deterministic(t, a1, a2);
        } else if t[0] == "monitor_remove"@ {
            let a1 = match r1 {
                Ok(MonitorEvent::MonitorRemove(x)) => Ok::<MonitorRemoveInfo, ParseError>(x),
                Ok(_) => Err::<MonitorRemoveInfo, ParseError>(ParseError::InvalidEvent),
                Err(e) => Err::<MonitorRemoveInfo, ParseError>(e),
            };
            let a2 = match r2 {
                Ok(MonitorEvent::MonitorRemove(x)) => Ok::<MonitorRemoveInfo, ParseError>(x),
                Ok(_) => Err::<MonitorRemoveInfo, ParseError>(ParseError::InvalidEvent),
                Err(e) => Err::<MonitorRemoveInfo, ParseError>(e),
            };
            MonitorRemoveInfo::lemma_deterministic(t, a1, a2);
        } else if t[0] == "monitor_swap"@ {
            let a1 = match r1 {
                Ok(MonitorEvent::MonitorSwap(x)) => Ok::<MonitorSwapInfo, ParseError>(x),
                Ok(_) => Err::<MonitorSwapInfo, ParseError>(ParseError::InvalidEvent),
                Err(e) => Err::<MonitorSwapInfo, ParseError>(e),
            };
            let a2 = match r2 {
                Ok(MonitorEvent::MonitorSwap(x)) => Ok::<MonitorSwapInfo, ParseError>(x),
                Ok(_) => Err::<MonitorSwapInfo, ParseError>(ParseError::InvalidEvent),
                Err(e) => Err::<MonitorSwapInfo, ParseError>(e),
            };
            MonitorSwapInfo::lemma_deterministic(t, a1, a2);
        } else if t[0] == "monitor_focus"@ {
            let a1 = match r1 {
                Ok(MonitorEvent::MonitorFocus(x)) => Ok::<MonitorFocusInfo, ParseError>(x),
                Ok(_) => Err::<MonitorFocusInfo, ParseError>(ParseError::InvalidEvent),
                Err(e) => Err::<MonitorFocusInfo, ParseError>(e),
            };
            let a2 = match r2 {
                Ok(MonitorEvent::MonitorFocus(x)) => Ok::<MonitorFocusInfo, ParseError>(x),
                Ok(_) => Err::<MonitorFocusInfo, ParseError>(ParseError::InvalidEvent),
                Err(e) => Err::<MonitorFocusInfo, ParseError>(e),
            };
            MonitorFocusInfo::lemma_deterministic(t, a1, a2);
        } else if t[0] == "monitor_geometry"@ {
            let a1 = match r1 {
                Ok(MonitorEvent::MonitorGeometry(x)) => Ok::<MonitorGeometryInfo, ParseError>(x),
                Ok(_) => Err::<MonitorGeometryInfo, ParseError>(ParseError::InvalidEvent),
                Err(e) => Err::<MonitorGeometryInfo, ParseError>(e),
            };
            let a2 = match r2 {
                Ok(MonitorEvent::MonitorGeometry(x)) => Ok::<MonitorGeometryInfo, ParseError>(x),
                Ok(_) => Err::<MonitorGeometryInfo, ParseError>(ParseError::InvalidEvent),
                Err(e) => Err::<MonitorGeometryInfo, ParseError>(e),
            };
            MonitorGeometryInfo::lemma_deterministic(t, a1, a2);
        }
    }
}

impl DesktopEvent {
    /// The tokens by which the window manager writes this event.
    pub open spec fn spec_tokens(self) -> Seq<Seq<char>> {
        match self {
            DesktopEvent::DesktopAdd(x) => x.spec_tokens(),
            DesktopEvent::DesktopRename(x) => x.spec_tokens(),
            DesktopEvent::DesktopRemove(x) => x.spec_tokens(),
            DesktopEvent::DesktopSwap(x) => x.spec_tokens(),
            DesktopEvent::DesktopTransfer(x) => x.spec_tokens(),
            DesktopEvent::DesktopFocus(x) => x.spec_tokens(),
            DesktopEvent::DesktopActivate(x) => x.spec_tokens(),
            DesktopEvent::DesktopLayout(x) => x.spec_tokens(),
        }
    }

    pub open spec fn well_formed(self) -> bool {
        match self {
            DesktopEvent::DesktopAdd(x) => x.well_formed(),
            DesktopEvent::DesktopRename(x) => x.well_formed(),
            _ => true,
        }
    }

    /// Equal field by field, texts by their characters.
    pub open spec fn same(self, other: DesktopEvent) -> bool {
        match (self, other) {
            (DesktopEvent::DesktopAdd(a), DesktopEvent::DesktopAdd(b)) => a.same(b),
            (DesktopEvent::DesktopRename(a), DesktopEvent::DesktopRename(b)) => a.same(b),
            _ => self == other,
        }
    }

    pub proof fn lemma_tokens_plain(self)
        requires
            self.well_formed(),
        ensures
            forall|i: int| 0 <= i < self.spec_tokens().len() ==> plain(#[trigger] self.spec_tokens()[i]),
    {
        match self {
            DesktopEvent::DesktopAdd(x) => x.lemma_tokens_plain(),
            DesktopEvent::DesktopRename(x) => x.lemma_tokens_plain(),
            DesktopEvent::DesktopRemove(x) => x.lemma_tokens_plain(),
            DesktopEvent::DesktopSwap(x) => x.lemma_tokens_plain(),
            DesktopEvent::DesktopTransfer(x) => x.lemma_tokens_plain(),
            DesktopEvent::DesktopFocus(x) => x.lemma_tokens_plain(),
            DesktopEvent::DesktopActivate(x) => x.lemma_tokens_plain(),
            DesktopEvent::DesktopLayout(x) => x.lemma_tokens_plain(),
        }
    }

    /// The tokens written for an event read back as that event.
    pub proof fn lemma_round_trip(self, r: Result<DesktopEvent, ParseError>)
        requires
            self.well_formed(),
            DesktopEvent::read_from(self.spec_tokens(), r),
        ensures
            r matches Ok(x) && x.same(self),
    {
        lemma_tags_distinct();
        match self {
            DesktopEvent::DesktopAdd(i) => match r {
                Ok(DesktopEvent::DesktopAdd(x)) => i.lemma_round_trip(Ok(x)),
                Err(e) => i.lemma_round_trip(Err(e)),
                _ => {},
            },
            DesktopEvent::DesktopRename(i) => match r {
                Ok(DesktopEvent::DesktopRename(x)) => i.lemma_round_trip(Ok(x)),
                Err(e) => i.lemma_round_trip(Err(e)),
                _ => {},
            },
            DesktopEvent::DesktopRemove(i) => match r {
                Ok(DesktopEvent::DesktopRemove(x)) => i.lemma_round_trip(Ok(x)),
                Err(e) => i.lemma_round_trip(Err(e)),
                _ => {},
            },
            DesktopEvent::DesktopSwap(i) => match r {
                Ok(DesktopEvent::DesktopSwap(x)) => i.lemma_round_trip(Ok(x)),
                Err(e) => i.lemma_round_trip(Err(e)),
                _ => {},
            },
            DesktopEvent::DesktopTransfer(i) => match r {
                Ok(DesktopEvent::DesktopTransfer(x)) => i.lemma_round_trip(Ok(x)),
                Err(e) => i.lemma_round_trip(Err(e)),
                _ => {},
            },
            DesktopEvent::DesktopFocus(i) => match r {
                Ok(DesktopEvent::DesktopFocus(x)) => i.lemma_round_trip(Ok(x)),
                Err(e) => i.lemma_round_trip(Err(e)),
                _ => {},
            },
            DesktopEvent::DesktopActivate(i) => match r {
                Ok(DesktopEvent::DesktopActivate(x)) => i.lemma_round_trip(Ok(x)),
                Err(e) => i.lemma_round_trip(Err(e)),
                _ => {},
            },
            DesktopEvent::DesktopLayout(i) => match r {
                Ok(DesktopEvent::DesktopLayout(x)) => i.lemma_round_trip(Ok(x)),
                Err(e) => i.lemma_round_trip(Err(e)),
                _ => {},
            },
        }
    }

    /// The first token is a tag of this category, and of no other.
    pub proof fn lemma_tag(self)
        ensures
            DesktopEvent::has_tag(self.spec_tokens()[0]),
            !MonitorEvent::has_tag(self.spec_tokens()[0]),
            !NodeEvent::has_tag(self.spec_tokens()[0]),
            self.spec_tokens()[0] != "pointer_action"@,
    {
        lemma_tags_distinct();
        match self {
            DesktopEvent::DesktopAdd(x) => assert(x.spec_tokens()[0] == "desktop_add"@),
            DesktopEvent::DesktopRename(x) => assert(x.spec_tokens()[0] == "desktop_rename"@),
            DesktopEvent::DesktopRemove(x) => assert(x.spec_tokens()[0] == "desktop_remove"@),
            DesktopEvent::DesktopSwap(x) => assert(x.spec_tokens()[0] == "desktop_swap"@),
            DesktopEvent::DesktopTransfer(x) => assert(x.spec_tokens()[0] == "desktop_transfer"@),
            DesktopEvent::DesktopFocus(x) => assert(x.spec_tokens()[0] == "desktop_focus"@),
            DesktopEvent::DesktopActivate(x) => assert(x.spec_tokens()[0] == "desktop_activate"@),
            DesktopEvent::DesktopLayout(x) => assert(x.spec_tokens()[0] == "desktop_layout"@),
        }
    }

    /// The tokens decide the outcome.
    pub proof fn lemma_deterministic(t: Seq<Seq<char>>, r1: Result<DesktopEvent, ParseError>, r2: Result<DesktopEvent, ParseError>)
        requires
            DesktopEvent::read_from(t, r1),
            DesktopEvent::read_from(t, r2),
        ensures
            match (r1, r2) {
                (Ok(a), Ok(b)) => a.same(b),
                (Err(x), Err(y)) => x == y,
                _ => false,
            },
    {
        if t[0] == "desktop_add"@ {
            let a1 = match r1 {
                Ok(DesktopEvent::DesktopAdd(x)) => Ok::<DesktopAddInfo, ParseError>(x),
                Ok(_) => Err::<DesktopAddInfo, ParseError>(ParseError::InvalidEvent),
                Err(e) => Err::<DesktopAddInfo, ParseError>(e),
            };
            let a2 = match r2 {
                Ok(DesktopEvent::DesktopAdd(x)) => Ok::<DesktopAddInfo, ParseError>(x),
                Ok(_) => Err::<DesktopAddInfo, ParseError>(ParseError::InvalidEvent),
                Err(e) => Err::<DesktopAddInfo, ParseError>(e),
            };
            DesktopAddInfo::lemma_deterministic(t, a1, a2);
        } else if t[0] == "desktop_rename"@ {
            let a1 = match r1 {
                Ok(DesktopEvent::DesktopRename(x)) => Ok::<DesktopRenameInfo, ParseError>(x),
                Ok(_) => Err::<DesktopRenameInfo, ParseError>(ParseError::InvalidEvent),
                Err(e) => Err::<DesktopRenameInfo, ParseError>(e),
            };
            let a2 = match r2 {
                Ok(DesktopEvent::DesktopRename(x)) => Ok::<DesktopRenameInfo, ParseError>(x),
                Ok(_) => Err::<DesktopRenameInfo, ParseError>(ParseError::InvalidEvent),
                Err(e) => Err::<DesktopRenameInfo, ParseError>(e),
            };
            DesktopRenameInfo::lemma_deterministic(t, a1, a2);
        } else if t[0] == "desktop_remove"@ {
            let a1 = match r1 {
                Ok(DesktopEvent::DesktopRemove(x)) => Ok::<DesktopRemoveInfo, ParseError>(x),
                Ok(_) => Err::<DesktopRemoveInfo, ParseError>(ParseError::InvalidEvent),
                Err(e) => Err::<DesktopRemoveInfo, ParseError>(e),
            };
            let a2 = match r2 {
                Ok(DesktopEvent::DesktopRemove(x)) => Ok::<DesktopRemoveInfo, ParseError>(x),
                Ok(_) => Err::<DesktopRemoveInfo, ParseError>(ParseError::InvalidEvent),
                Err(e) => Err::<DesktopRemoveInfo, ParseError>(e),
            };
            DesktopRemoveInfo::lemma_deterministic(t, a1, a2);
        } else if t[0] == "desktop_swap"@ {
            let a1 = match r1 {
                Ok(DesktopEvent::DesktopSwap(x)) => Ok::<DesktopSwapInfo, ParseError>(x),
                Ok(_) => Err::<DesktopSwapInfo, ParseError>(ParseError::InvalidEvent),
                Err(e) => Err::<DesktopSwapInfo, ParseError>(e),
            };
            let a2 = match r2 {
                Ok(DesktopEvent::DesktopSwap(x)) => Ok::<DesktopSwapInfo, ParseError>(x),
                Ok(_) => Err::<DesktopSwapInfo, ParseError>(ParseError::InvalidEvent),
                Err(e) => Err::<DesktopSwapInfo, ParseError>(e),
            };
            DesktopSwapInfo::lemma_deterministic(t, a1, a2);
        } else if t[0] == "desktop_transfer"@ {
            let a1 = match r1 {
                Ok(DesktopEvent::DesktopTransfer(x)) => Ok::<DesktopTransferInfo, ParseError>(x),
                Ok(_) => Err::<DesktopTransferInfo, ParseError>(ParseError::InvalidEvent),
                Err(e) => Err::<DesktopTransferInfo, ParseError>(e),
            };
            let a2 = match r2 {
                Ok(DesktopEvent::DesktopTransfer(x)) => Ok::<DesktopTransferInfo, ParseError>(x),
                Ok(_) => Err::<DesktopTransferInfo, ParseError>(ParseError::InvalidEvent),
                Err(e) => Err::<DesktopTransferInfo, ParseError>(e),
            };
            DesktopTransferInfo::lemma_deterministic(t, a1, a2);
        } else if t[0] == "desktop_focus"@ {
            let a1 = match r1 {
                Ok(DesktopEvent::DesktopFocus(x)) => Ok::<DesktopFocusInfo, ParseError>(x),
                Ok(_) => Err::<DesktopFocusInfo, ParseError>(ParseError::InvalidEvent),
                Err(e) => Err::<DesktopFocusInfo, ParseError>(e),
            };
            let a2 = match r2 {
                Ok(DesktopEvent::DesktopFocus(x)) => Ok::<DesktopFocusInfo, ParseError>(x),
                Ok(_) => Err::<DesktopFocusInfo, ParseError>(ParseError::InvalidEvent),
                Err(e) => Err::<DesktopFocusInfo, ParseError>(e),
            };
            DesktopFocusInfo::lemma_deterministic(t, a1, a2);
        } else if t[0] == "desktop_activate"@ {
            let a1 = match r1 {
                Ok(DesktopEvent::DesktopActivate(x)) => Ok::<DesktopActivateInfo, ParseError>(x),
                Ok(_) => Err::<DesktopActivateInfo, ParseError>(ParseError::InvalidEvent),
                Err(e) => Err::<DesktopActivateInfo, ParseError>(e),
            };
            let a2 = match r2 {
                Ok(DesktopEvent::DesktopActivate(x)) => Ok::<DesktopActivateInfo, ParseError>(x),
                Ok(_) => Err::<DesktopActivateInfo, ParseError>(ParseError::InvalidEvent),
                Err(e) => Err::<DesktopActivateInfo, ParseError>(e),
            };
            DesktopActivateInfo::lemma_deterministic(t, a1, a2);
        } else if t[0] == "desktop_layout"@ {
            let a1 = match r1 {
                Ok(DesktopEvent::DesktopLayout(x)) => Ok::<DesktopLayoutInfo, ParseError>(x),
                Ok(_) => Err::<DesktopLayoutInfo, ParseError>(ParseError::InvalidEvent),
                Err(e) => Err::<DesktopLayoutInfo, ParseError>(e),
            };
            let a2 = match r2 {
                Ok(DesktopEvent::DesktopLayout(x)) => Ok::<DesktopLayoutInfo, ParseError>(x),
                Ok(_) => Err::<DesktopLayoutInfo, ParseError>(ParseError::InvalidEvent),
                Err(e) => Err::<DesktopLayoutInfo, ParseError>(e),
            };
            DesktopLayoutInfo::lemma_deterministic(t, a1, a2);
        }
    }
}

impl NodeEvent {
    /// The tokens by which the window manager writes this event.
    pub open spec fn spec_tokens(self) -> Seq<Seq<char>> {
        match self {
            NodeEvent::NodeAdd(x) => x.spec_tokens(),
            NodeEvent::NodeRemove(x) => x.spec_tokens(),
            NodeEvent::NodeSwap(x) => x.spec_tokens(),
            NodeEvent::NodeTransfer(x) => x.spec_tokens(),
            NodeEvent::NodeFocus(x) => x.spec_tokens(),
            NodeEvent::NodeActivate(x) => x.spec_tokens(),
            NodeEvent::NodePresel(x) => x.spec_tokens(),
            NodeEvent::NodeStack(x) => x.spec_tokens(),
            NodeEvent::NodeGeometry(x) => x.spec_tokens(),
            NodeEvent::NodeState(x) => x.spec_tokens(),
            NodeEvent::NodeFlag(x) => x.spec_tokens(),
            NodeEvent::NodeLayer(x) => x.spec_tokens(),
        }
    }

    pub open spec fn well_formed(self) -> bool {
        match self {
            NodeEvent::NodePresel(x) => x.well_formed(),
            _ => true,
        }
    }

    /// Equal field by field, texts by their characters.
    pub open spec fn same(self, other: NodeEvent) -> bool {
        match (self, other) {
            (NodeEvent::NodePresel(a), NodeEvent::NodePresel(b)) => a.same(b),
            _ => self == other,
        }
    }

    pub proof fn lemma_tokens_plain(self)
        requires
            self.well_formed(),
        ensures
            forall|i: int| 0 <= i < self.spec_tokens().len() ==> plain(#[trigger] self.spec_tokens()[i]),
    {
        match self {
            NodeEvent::NodeAdd(x) => x.lemma_tokens_plain(),
            NodeEvent::NodeRemove(x) => x.lemma_tokens_plain(),
            NodeEvent::NodeSwap(x) => x.lemma_tokens_plain(),
            NodeEvent::NodeTransfer(x) => x.lemma_tokens_plain(),
            NodeEvent::NodeFocus(x) => x.lemma_tokens_plain(),
            NodeEvent::NodeActivate(x) => x.lemma_tokens_plain(),
            NodeEvent::NodePresel(x) => x.lemma_tokens_plain(),
            NodeEvent::NodeStack(x) => x.lemma_tokens_plain(),
            NodeEvent::NodeGeometry(x) => x.lemma_tokens_plain(),
            NodeEvent::NodeState(x) => x.lemma_tokens_plain(),
            NodeEvent::NodeFlag(x) => x.lemma_tokens_plain(),
            NodeEvent::NodeLayer(x) => x.lemma_tokens_plain(),
        }
    }

    /// The tokens written for an event read back as that event.
    pub proof fn lemma_round_trip(self, r: Result<NodeEvent, ParseError>)
        requires
            self.well_formed(),
            NodeEvent::read_from(self.spec_tokens(), r),
        ensures
            r matches Ok(x) && x.same(self),
    {
        lemma_tags_distinct();
        match self {
            NodeEvent::NodeAdd(i) => match r {
                Ok(NodeEvent::NodeAdd(x)) => i.lemma_round_trip(Ok(x)),
                Err(e) => i.lemma_round_trip(Err(e)),
                _ => {},
            },
            NodeEvent::NodeRemove(i) => match r {
                Ok(NodeEvent::NodeRemove(x)) => i.lemma_round_trip(Ok(x)),
                Err(e) => i.lemma_round_trip(Err(e)),
                _ => {},
            },
            NodeEvent::NodeSwap(i) => match r {
                Ok(NodeEvent::NodeSwap(x)) => i.lemma_round_trip(Ok(x)),
                Err(e) => i.lemma_round_trip(Err(e)),
                _ => {},
            },
            NodeEvent::NodeTransfer(i) => match r {
                Ok(NodeEvent::NodeTransfer(x)) => i.lemma_round_trip(Ok(x)),
                Err(e) => i.lemma_round_trip(Err(e)),
                _ => {},
            },
            NodeEvent::NodeFocus(i) => match r {
                Ok(NodeEvent::NodeFocus(x)) => i.lemma_round_trip(Ok(x)),
                Err(e) => i.lemma_round_trip(Err(e)),
                _ => {},
            },
            NodeEvent::NodeActivate(i) => match r {
                Ok(NodeEvent::NodeActivate(x)) => i.lemma_round_trip(Ok(x)),
                Err(e) => i.lemma_round_trip(Err(e)),
                _ => {},
            },
            NodeEvent::NodePresel(i) => match r {
                Ok(NodeEvent::NodePresel(x)) => i.lemma_round_trip(Ok(x)),
                Err(e) => i.lemma_round_trip(Err(e)),
                _ => {},
            },
            NodeEvent::NodeStack(i) => match r {
                Ok(NodeEvent::NodeStack(x)) => i.lemma_round_trip(Ok(x)),
                Err(e) => i.lemma_round_trip(Err(e)),
                _ => {},
            },
            NodeEvent::NodeGeometry(i) => match r {
                Ok(NodeEvent::NodeGeometry(x)) => i.lemma_round_trip(Ok(x)),
                Err(e) => i.lemma_round_trip(Err(e)),
                _ => {},
            },
            NodeEvent::NodeState(i) => match r {
                Ok(NodeEvent::NodeState(x)) => i.lemma_round_trip(Ok(x)),
                Err(e) => i.lemma_round_trip(Err(e)),
                _ => {},
            },
            NodeEvent::NodeFlag(i) => match r {
                Ok(NodeEvent::NodeFlag(x)) => i.lemma_round_trip(Ok(x)),
                Err(e) => i.lemma_round_trip(Err(e)),
                _ => {},
            },
            NodeEvent::NodeLayer(i) => match r {
                Ok(NodeEvent::NodeLayer(x)) => i.lemma_round_trip(Ok(x)),
                Err(e) => i.lemma_round_trip(Err(e)),
                _ => {},
            },
        }
    }

    /// The first token is a tag of this category, and of no other.
    pub proof fn lemma_tag(self)
        ensures
            NodeEvent::has_tag(self.spec_tokens()[0]),
            !MonitorEvent::has_tag(self.spec_tokens()[0]),
            !DesktopEvent::has_tag(self.spec_tokens()[0]),
            self.spec_tokens()[0] != "pointer_action"@,
    {
        lemma_tags_distinct();
        match self {
            NodeEvent::NodeAdd(x) => assert(x.spec_tokens()[0] == "node_add"@),
            NodeEvent::NodeRemove(x) => assert(x.spec_tokens()[0] == "node_remove"@),
            NodeEvent::NodeSwap(x) => assert(x.spec_tokens()[0] == "node_swap"@),
            NodeEvent::NodeTransfer(x) => assert(x.spec_tokens()[0] == "node_transfer"@),
            NodeEvent::NodeFocus(x) => assert(x.spec_tokens()[0] == "node_focus"@),
            NodeEvent::NodeActivate(x) => assert(x.spec_tokens()[0] == "node_activate"@),
            NodeEvent::NodePresel(x) => assert(x.spec_tokens()[0] == "node_presel"@),
            NodeEvent::NodeStack(x) => assert(x.spec_tokens()[0] == "node_stack"@),
            NodeEvent::NodeGeometry(x) => assert(x.spec_tokens()[0] == "node_geometry"@),
            NodeEvent::NodeState(x) => assert(x.spec_tokens()[0] == "node_state"@),
            NodeEvent::NodeFlag(x) => assert(x.spec_tokens()[0] == "node_flag"@),
            NodeEvent::NodeLayer(x) => assert(x.spec_tokens()[0] == "node_layer"@),
        }
    }

    /// The tokens decide the outcome.
    pub proof fn lemma_deterministic(t: Seq<Seq<char>>, r1: Result<NodeEvent, ParseError>, r2: Result<NodeEvent, ParseError>)
        requires
            NodeEvent::read_from(t, r1),
            NodeEvent::read_from(t, r2),
        ensures
            match (r1, r2) {
                (Ok(a), Ok(b)) => a.same(b),
                (Err(x), Err(y)) => x == y,
                _ => false,
            },
    {
        if t[0] == "node_add"@ {
            let a1 = match r1 {
                Ok(NodeEvent::NodeAdd(x)) => Ok::<NodeAddInfo, ParseError>(x),
                Ok(_) => Err::<NodeAddInfo, ParseError>(ParseError::InvalidEvent),
                Err(e) => Err::<NodeAddInfo, ParseError>(e),
            };
            let a2 = match r2 {
                Ok(NodeEvent::NodeAdd(x)) => Ok::<NodeAddInfo, ParseError>(x),
                Ok(_) => Err::<NodeAddInfo, ParseError>(ParseError::InvalidEvent),
                Err(e) => Err::<NodeAddInfo, ParseError>(e),
            };
            NodeAddInfo::lemma_deterministic(t, a1, a2);
        } else if t[0] == "node_remove"@ {
            let a1 = match r1 {
                Ok(NodeEvent::NodeRemove(x)) => Ok::<NodeRemoveInfo, ParseError>(x),
                Ok(_) => Err::<NodeRemoveInfo, ParseError>(ParseError::InvalidEvent),
                Err(e) => Err::<NodeRemoveInfo, ParseError>(e),
            };
            let a2 = match r2 {
                Ok(NodeEvent::NodeRemove(x)) => Ok::<NodeRemoveInfo, ParseError>(x),
                Ok(_) => Err::<NodeRemoveInfo, ParseError>(ParseError::InvalidEvent),
                Err(e) => Err::<NodeRemoveInfo, ParseError>(e),
            };
            NodeRemoveInfo::lemma_deterministic(t, a1, a2);
        } else if t[0] == "node_swap"@ {
            let a1 = match r1 {
                Ok(NodeEvent::NodeSwap(x)) => Ok::<NodeSwapInfo, ParseError>(x),
                Ok(_) => Err::<NodeSwapInfo, ParseError>(ParseError::InvalidEvent),
                Err(e) => Err::<NodeSwapInfo, ParseError>(e),
            };
            let a2 = match r2 {
                Ok(NodeEvent::NodeSwap(x)) => Ok::<NodeSwapInfo, ParseError>(x),
                Ok(_) => Err::<NodeSwapInfo, ParseError>(ParseError::InvalidEvent),
                Err(e) => Err::<NodeSwapInfo, ParseError>(e),
            };
            NodeSwapInfo::lemma_deterministic(t, a1, a2);
        } else if t[0] == "node_transfer"@ {
            let a1 = match r1 {
                Ok(NodeEvent::NodeTransfer(x)) => Ok::<NodeTransferInfo, ParseError>(x),
                Ok(_) => Err::<NodeTransferInfo, ParseError>(ParseError::InvalidEvent),
                Err(e) => Err::<NodeTransferInfo, ParseError>(e),
            };
            let a2 = match r2 {
                Ok(NodeEvent::NodeTransfer(x)) => Ok::<NodeTransferInfo, ParseError>(x),
                Ok(_) => Err::<NodeTransferInfo, ParseError>(ParseError::InvalidEvent),
                Err(e) => Err::<NodeTransferInfo, ParseError>(e),
            };
            NodeTransferInfo::lemma_deterministic(t, a1, a2);
        } else if t[0] == "node_focus"@ {
            let a1 = match r1 {
                Ok(NodeEvent::NodeFocus(x)) => Ok::<NodeFocusInfo, ParseError>(x),
                Ok(_) => Err::<NodeFocusInfo, ParseError>(ParseError::InvalidEvent),
                Err(e) => Err::<NodeFocusInfo, ParseError>(e),
            };
            let a2 = match r2 {
                Ok(NodeEvent::NodeFocus(x)) => Ok::<NodeFocusInfo, ParseError>(x),
                Ok(_) => Err::<NodeFocusInfo, ParseError>(ParseError::InvalidEvent),
                Err(e) => Err::<NodeFocusInfo, ParseError>(e),
            };
            NodeFocusInfo::lemma_deterministic(t, a1, a2);
        } else if t[0] == "node_activate"@ {
            let a1 = match r1 {
                Ok(NodeEvent::NodeActivate(x)) => Ok::<NodeActivateInfo, ParseError>(x),
                Ok(_) => Err::<NodeActivateInfo, ParseError>(ParseError::InvalidEvent),
                Err(e) => Err::<NodeActivateInfo, ParseError>(e),
            };
            let a2 = match r2 {
                Ok(NodeEvent::NodeActivate(x)) => Ok::<NodeActivateInfo, ParseError>(x),
                Ok(_) => Err::<NodeActivateInfo, ParseError>(ParseError::InvalidEvent),
                Err(e) => Err::<NodeActivateInfo, ParseError>(e),
            };
            NodeActivateInfo::lemma_deterministic(t, a1, a2);
        } else if t[0] == "node_presel"@ {
            let a1 = match r1 {
                Ok(NodeEvent::NodePresel(x)) => Ok::<NodePreselInfo, ParseError>(x),
                Ok(_) => Err::<NodePreselInfo, ParseError>(ParseError::InvalidEvent),
                Err(e) => Err::<NodePreselInfo, ParseError>(e),
            };
            let a2 = match r2 {
                Ok(NodeEvent::NodePresel(x)) => Ok::<NodePreselInfo, ParseError>(x),
                Ok(_) => Err::<NodePreselInfo, ParseError>(ParseError::InvalidEvent),
                Err(e) => Err::<NodePreselInfo, ParseError>(e),
            };
            NodePreselInfo::lemma_deterministic(t, a1, a2);
        } else if t[0] == "node_stack"@ {
            let a1 = match r1 {
                Ok(NodeEvent::NodeStack(x)) => Ok::<NodeStackInfo, ParseError>(x),
                Ok(_) => Err::<NodeStackInfo, ParseError>(ParseError::InvalidEvent),
                Err(e) => Err::<NodeStackInfo, ParseError>(e),
            };
            let a2 = match r2 {
                Ok(NodeEvent::NodeStack(x)) => Ok::<NodeStackInfo, ParseError>(x),
                Ok(_) => Err::<NodeStackInfo, ParseError>(ParseError::InvalidEvent),
                Err(e) => Err::<NodeStackInfo, ParseError>(e),
            };
            NodeStackInfo::lemma_deterministic(t, a1, a2);
        } else if t[0] == "node_geometry"@ {
            let a1 = match r1 {
                Ok(NodeEvent::NodeGeometry(x)) => Ok::<NodeGeometryInfo, ParseError>(x),
                Ok(_) => Err::<NodeGeometryInfo, ParseError>(ParseError::InvalidEvent),
                Err(e) => Err::<NodeGeometryInfo, ParseError>(e),
            };
            let a2 = match r2 {
                Ok(NodeEvent::NodeGeometry(x)) => Ok::<NodeGeometryInfo, ParseError>(x),
                Ok(_) => Err::<NodeGeometryInfo, ParseError>(ParseError::InvalidEvent),
                Err(e) => Err::<NodeGeometryInfo, ParseError>(e),
            };
            NodeGeometryInfo::lemma_deterministic(t, a1, a2);
        } else if t[0] == "node_state"@ {
            let a1 = match r1 {
                Ok(NodeEvent::NodeState(x)) => Ok::<NodeStateInfo, ParseError>(x),
                Ok(_) => Err::<NodeStateInfo, ParseError>(ParseError::InvalidEvent),
                Err(e) => Err::<NodeStateInfo, ParseError>(e),
            };
            let a2 = match r2 {
                Ok(NodeEvent::NodeState(x)) => Ok::<NodeStateInfo, ParseError>(x),
                Ok(_) => Err::<NodeStateInfo, ParseError>(ParseError::InvalidEvent),
                Err(e) => Err::<NodeStateInfo, ParseError>(e),
            };
            NodeStateInfo::lemma_deterministic(t, a1, a2);
        } else if t[0] == "node_flag"@ {
            let a1 = match r1 {
                Ok(NodeEvent::NodeFlag(x)) => Ok::<NodeFlagInfo, ParseError>(x),
                Ok(_) => Err::<NodeFlagInfo, ParseError>(ParseError::InvalidEvent),
                Err(e) => Err::<NodeFlagInfo, ParseError>(e),
            };
            let a2 = match r2 {
                Ok(NodeEvent::NodeFlag(x)) => Ok::<NodeFlagInfo, ParseError>(x),
                Ok(_) => Err::<NodeFlagInfo, ParseError>(ParseError::InvalidEvent),
                Err(e) => Err::<NodeFlagInfo, ParseError>(e),
            };
            NodeFlagInfo::lemma_deterministic(t, a1, a2);
        } else if t[0] == "node_layer"@ {
            let a1 = match r1 {
                Ok(NodeEvent::NodeLayer(x)) => Ok::<NodeLayerInfo, ParseError>(x),
                Ok(_) => Err::<NodeLayerInfo, ParseError>(ParseError::InvalidEvent),
                Err(e) => Err::<NodeLayerInfo, ParseError>(e),
            };
            let a2 = match r2 {
                Ok(NodeEvent::NodeLayer(x)) => Ok::<NodeLayerInfo, ParseError>(x),
                Ok(_) => Err::<NodeLayerInfo, ParseError>(ParseError::InvalidEvent),
                Err(e) => Err::<NodeLayerInfo, ParseError>(e),
            };
            NodeLayerInfo::lemma_deterministic(t, a1, a2);
        }
    }
}

impl Event {
    /// The tokens by which the window manager writes this event; status
    /// reports have a grammar of their own and none here.
    pub open spec fn spec_tokens(self) -> Seq<Seq<char>> {
        match self {
            Event::Report(_) => Seq::empty(),
            Event::MonitorEvent(x) => x.spec_tokens(),
            Event::DesktopEvent(x) => x.spec_tokens(),
            Event::NodeEvent(x) => x.spec_tokens(),
            Event::PointerAction(x) => x.spec_tokens(),
        }
    }

    /// The record that the window manager writes for this event.
    pub open spec fn record_text(self) -> Seq<char> {
        join(self.spec_tokens())
    }

    /// An event that a record can carry: not a status report, with plain
    /// names and a numeral for a ratio.
    pub open spec fn well_formed(self) -> bool {
        match self {
            Event::Report(_) => false,
            Event::MonitorEvent(x) => x.well_formed(),
            Event::DesktopEvent(x) => x.well_formed(),
            Event::NodeEvent(x) => x.well_formed(),
            Event::PointerAction(_) => true,
        }
    }

    /// Equal field by field, texts by their characters.
    pub open spec fn same(self, other: Event) -> bool {
        match (self, other) {
            (Event::MonitorEvent(a), Event::MonitorEvent(b)) => a.same(b),
            (Event::DesktopEvent(a), Event::DesktopEvent(b)) => a.same(b),
            (Event::NodeEvent(a), Event::NodeEvent(b)) => a.same(b),
            _ => self == other,
        }
    }
}

/// Two outcomes of decoding that are the same: equal errors, or events
/// equal field by field.
pub open spec fn same_outcome(r1: Result<Event, ParseError>, r2: Result<Event, ParseError>) -> bool {
    match (r1, r2) {
        (Ok(a), Ok(b)) => a.same(b),
        (Err(x), Err(y)) => x == y,
        _ => false,
    }
}

/// The record that the window manager writes for an event decodes to that
/// event: every identifier, enumerated value, geometry and name reads back
/// exactly as it was written.
pub proof fn lemma_record_round_trip(e: Event, r: Result<Event, ParseError>)
    requires
        e.well_formed(),
        Event::read_from(tokens(e.record_text()), r),
    ensures
        r matches Ok(x) && x.same(e),
{
    match e {
        Event::Report(_) => {},
        Event::MonitorEvent(x) => lemma_monitor_record(x, r),
        Event::DesktopEvent(x) => lemma_desktop_record(x, r),
        Event::NodeEvent(x) => lemma_node_record(x, r),
        Event::PointerAction(x) => lemma_pointer_record(x, r),
    }
}

proof fn lemma_monitor_record(x: MonitorEvent, r: Result<Event, ParseError>)
    requires
        x.well_formed(),
        Event::read_from(tokens(join(x.spec_tokens())), r),
    ensures
        r matches Ok(y) && y.same(Event::MonitorEvent(x)),
{
    x.lemma_tokens_plain();
    lemma_tokens_of_join(x.spec_tokens());
    x.lemma_tag();
    match r {
        Ok(Event::MonitorEvent(y)) => x.lemma_round_trip(Ok(y)),
        Err(err) => x.lemma_round_trip(Err(err)),
        _ => {},
    }
}

proof fn lemma_desktop_record(x: DesktopEvent, r: Result<Event, ParseError>)
    requires
        x.well_formed(),
        Event::read_from(tokens(join(x.spec_tokens())), r),
    ensures
        r matches Ok(y) && y.same(Event::DesktopEvent(x)),
{
    x.lemma_tokens_plain();
    lemma_tokens_of_join(x.spec_tokens());
    x.lemma_tag();
    match r {
        Ok(Event::DesktopEvent(y)) => x.lemma_round_trip(Ok(y)),
        Err(err) => x.lemma_round_trip(Err(err)),
        _ => {},
    }
}

proof fn lemma_node_record(x: NodeEvent, r: Result<Event, ParseError>)
    requires
        x.well_formed(),
        Event::read_from(tokens(join(x.spec_tokens())), r),
    ensures
        r matches Ok(y) && y.same(Event::NodeEvent(x)),
{
    x.lemma_tokens_plain();
    lemma_tokens_of_join(x.spec_tokens());
    x.lemma_tag();
    match r {
        Ok(Event::NodeEvent(y)) => x.lemma_round_trip(Ok(y)),
        Err(err) => x.lemma_round_trip(Err(err)),
        _ => {},
    }
}

proof fn lemma_pointer_record(x: PointerActionInfo, r: Result<Event, ParseError>)
    requires
        Event::read_from(tokens(join(x.spec_tokens())), r),
    ensures
        r matches Ok(y) && y.same(Event::PointerAction(x)),
{
    x.lemma_tokens_plain();
    lemma_tokens_of_join(x.spec_tokens());
    lemma_tags_distinct();
    match r {
        Ok(Event::PointerAction(y)) => x.lemma_round_trip(Ok(y)),
        Err(err) => x.lemma_round_trip(Err(err)),
        _ => {},
    }
}

/// A record of a known kind with fewer tokens than its tag and fields is
/// refused with `InsufficientData`.
pub proof fn lemma_short_record(s: Seq<char>, r: Result<Event, ParseError>)
    requires
        known_tag(tokens(s)[0]),
        tokens(s).len() < arity(tokens(s)[0]) + 1,
        Event::read_from(tokens(s), r),
    ensures
        r == Err::<Event, ParseError>(ParseError::InsufficientData),
{
    lemma_tags_distinct();
}

/// A record whose leading token is the tag of no known kind is refused with
/// `ConversionFailed`.
pub proof fn lemma_unknown_tag(s: Seq<char>, r: Result<Event, ParseError>)
    requires
        !known_tag(tokens(s)[0]),
        Event::read_from(tokens(s), r),
    ensures
        r == Err::<Event, ParseError>(ParseError::ConversionFailed),
{
}

/// Decoding a record twice gives the same outcome: the same error, or
/// events equal field by field.
pub proof fn lemma_parse_deterministic(s: Seq<char>, r1: Result<Event, ParseError>, r2: Result<Event, ParseError>)
    requires
        Event::read_from(tokens(s), r1),
        Event::read_from(tokens(s), r2),
    ensures
        same_outcome(r1, r2),
{
    let t = tokens(s);
    if NodeEvent::has_tag(t[0]) {
        let a1 = match r1 {
            Ok(Event::NodeEvent(x)) => Ok::<NodeEvent, ParseError>(x),
            Ok(_) => Err::<NodeEvent, ParseError>(ParseError::InvalidEvent),
            Err(e) => Err::<NodeEvent, ParseError>(e),
        };
        let a2 = match r2 {
            Ok(Event::NodeEvent(x)) => Ok::<NodeEvent, ParseError>(x),
            Ok(_) => Err::<NodeEvent, ParseError>(ParseError::InvalidEvent),
            Err(e) => Err::<NodeEvent, ParseError>(e),
        };
        NodeEvent::lemma_deterministic(t, a1, a2);
    } else if DesktopEvent::has_tag(t[0]) {
        let a1 = match r1 {
            Ok(Event::DesktopEvent(x)) => Ok::<DesktopEvent, ParseError>(x),
            Ok(_) => Err::<DesktopEvent, ParseError>(ParseError::InvalidEvent),
            Err(e) => Err::<DesktopEvent, ParseError>(e),
        };
        let a2 = match r2 {
            Ok(Event::DesktopEvent(x)) => Ok::<DesktopEvent, ParseError>(x),
            Ok(_) => Err::<DesktopEvent, ParseError>(ParseError::InvalidEvent),
            Err(e) => Err::<DesktopEvent, ParseError>(e),
        };
        DesktopEvent::lemma_deterministic(t, a1, a2);
    } else if MonitorEvent::has_tag(t[0]) {
        let a1 = match r1 {
            Ok(Event::MonitorEvent(x)) => Ok::<MonitorEvent, ParseError>(x),
            Ok(_) => Err::<MonitorEvent, ParseError>(ParseError::InvalidEvent),
            Err(e) => Err::<MonitorEvent, ParseError>(e),
        };
        let a2 = match r2 {
            Ok(Event::MonitorEvent(x)) => Ok::<MonitorEvent, ParseError>(x),
            Ok(_) => Err::<MonitorEvent, ParseError>(ParseError::InvalidEvent),
            Err(e) => Err::<MonitorEvent, ParseError>(e),
        };
        MonitorEvent::lemma_deterministic(t, a1, a2);
    } else if t[0] == "pointer_action"@ {
        let a1 = match r1 {
            Ok(Event::PointerAction(x)) => Ok::<PointerActionInfo, ParseError>(x),
            Ok(_) => Err::<PointerActionInfo, ParseError>(ParseError::InvalidEvent),
            Err(e) => Err::<PointerActionInfo, ParseError>(e),
        };
        let a2 = match r2 {
            Ok(Event::PointerAction(x)) => Ok::<PointerActionInfo, ParseError>(x),
            Ok(_) => Err::<PointerActionInfo, ParseError>(ParseError::InvalidEvent),
            Err(e) => Err::<PointerActionInfo, ParseError>(e),
        };
        PointerActionInfo::lemma_deterministic(t, a1, a2);
    }
}

} // verus!
