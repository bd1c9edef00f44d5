use bspc_rs::errors::{ParseError, ReplyError};
use bspc_rs::events::{NodeAddInfo, NodeEvent, NodeFocusInfo, NodeGeometryInfo, NodeStackInfo};
use bspc_rs::parser::from_hex_to_id;
use bspc_rs::properties::{Rectangle, Stack};
use bspc_rs::query::query_nodes;
use bspc_rs::selectors::NodeSelector;

#[test]
fn parser_parse_hex() {
    assert_eq!(from_hex_to_id("00200002"), Ok(0x00200002));
}

#[test]
fn utils_parse_hex() {
    assert_eq!(from_hex_to_id("0x00200002"), Ok(0x00200002));
}

fn check_node_add(info: NodeAddInfo) {
    assert_eq!(info.monitor_id, 0x00200002);
    assert_eq!(info.desktop_id, 0x0020000D);
    assert_eq!(info.ip_id, 0x05200002);
    assert_eq!(info.node_id, 0x04E00002);
}

#[test]
fn parser_parse_node_add() {
    let input = "node_add 0x00200002 0x0020000D 0x05200002 0x04E00002";
    let node_add_info: NodeAddInfo = input.parse().unwrap();
    check_node_add(node_add_info);
}

#[test]
fn node_parse_node_add() {
    let input = "node_add 0x00200002 0x0020000D 0x05200002 0x04E00002";
    let node_add_info: NodeAddInfo = input.parse().unwrap();
    check_node_add(node_add_info);
}

#[test]
fn node_events_parse_node_add() {
    let input = "node_add 0x00200002 0x0020000D 0x05200002 0x04E00002";
    let node_add_info = NodeAddInfo::parse(input).unwrap();
    check_node_add(node_add_info);
}

#[test]
fn parse_node_focus() {
    let input = "node_focus 0x00200002 0x00200007 0x07800002";
    let node_focus_info: NodeFocusInfo = input.parse().unwrap();
    assert_eq!(
        node_focus_info,
        NodeFocusInfo { monitor_id: 0x00200002, desktop_id: 0x00200007, node_id: 0x07800002 }
    );
}

#[test]
fn parse_node_stack() {
    let input = "node_stack 0x07800002 below 0x04200003";
    let node_stack_info: NodeStackInfo = input.parse().unwrap();
    assert_eq!(
        node_stack_info,
        NodeStackInfo { node_id_1: 0x07800002, stack: Stack::Below, node_id_2: 0x04200003 }
    );
}

#[test]
fn parse_node_geometry() {
    let input = "node_geometry 0x00200002 0x00200007 0x07800002 681x365+0+403\n";
    let node_geometry_info: NodeGeometryInfo = input.parse().unwrap();
    assert_eq!(node_geometry_info.node_id, 0x07800002);
    assert_eq!(
        node_geometry_info.node_geometry,
        Rectangle { x: 0, y: 403, width: 681, height: 365 }
    );
}

/// A window manager that knows one fullscreen window and answers queries.
fn peer_with_fullscreen(request: String) -> Result<String, ReplyError> {
    if request.ends_with("\0.fullscreen.window\0") || request.ends_with("\0.fullscreen\0") {
        Ok("0x00200002\n".to_string())
    } else {
        Ok("\u{7}".to_string())
    }
}

#[test]
fn test_fullscreen_node() {
    let node_request = format!(".fullscreen.window");
    let query_result =
        query_nodes(None, None, None, Some(NodeSelector(&node_request)), peer_with_fullscreen);

    assert_eq!(query_result.unwrap(), vec![0x00200002]);
}

#[test]
fn test_from_id_to_node() {
    let window_id =
        query_nodes(None, None, None, Some(NodeSelector(".fullscreen")), peer_with_fullscreen);

    match window_id {
        Ok(_) => {}
        Err(ReplyError::RequestFailed(reply)) => {
            if reply.len() > 0 {
                panic!("{}", reply);
            }
        }
        Err(e) => {
            panic!("{:?}", e);
        }
    }
}

#[test]
fn from_hex_to_id_refuses_bad_digits() {
    assert_eq!(from_hex_to_id("0x12G4"), Err(ParseError::ConversionFailed));
    assert_eq!(from_hex_to_id("0x"), Err(ParseError::ConversionFailed));
    assert_eq!(from_hex_to_id(""), Err(ParseError::ConversionFailed));
    assert_eq!(from_hex_to_id("+1F"), Err(ParseError::ConversionFailed));
    assert_eq!(from_hex_to_id("0x100000000"), Err(ParseError::ConversionFailed));
    assert_eq!(from_hex_to_id("0xFFFFFFFF"), Ok(u32::MAX));
    assert_eq!(from_hex_to_id("1f"), Ok(31));
}

#[test]
fn hex_round_trip() {
    for v in [0u32, 1, 0x0020000D, 0x04E00002, 0x7FFF_FFFF, 0xDEAD_BEEF] {
        assert_eq!(from_hex_to_id(&format!("0x{:08X}", v)), Ok(v));
        assert_eq!(from_hex_to_id(&format!("{:x}", v)), Ok(v));
    }
}

#[test]
fn parse_node_event() {
    let tests = [
        "node_state 0x00200002 0x00200007 0x04400002 tiled on",
        "node_add 0x00200002 0x00200007 0x04400002 0x08600002",
        "node_geometry 0x00200002 0x00200007 0x04400002 677x361+0+35",
        "node_stack 0x04400002 below 0x04200003",
        "node_state 0x00200002 0x00200007 0x04400002 fullscreen off",
    ];

    let mut kinds = Vec::new();
    for test in tests {
        let data: NodeEvent = test.parse().unwrap();
        kinds.push(match data {
            NodeEvent::NodeState(_) => "state",
            NodeEvent::NodeAdd(_) => "add",
            NodeEvent::NodeGeometry(_) => "geometry",
            NodeEvent::NodeStack(_) => "stack",
            _ => "other",
        });
    }
    assert_eq!(kinds, vec!["state", "add", "geometry", "stack", "state"]);
}
