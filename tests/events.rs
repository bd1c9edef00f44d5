use bspc_rs::errors::{ParseError, ReplyError};
use bspc_rs::events::{
    subscribe, DesktopEvent, DesktopLayoutInfo, Event, EventIterator, MonitorAddInfo,
    MonitorEvent, NodeEvent, NodeFocusInfo, NodePreselInfo, NodeRemoveInfo, NodeStateInfo,
    PointerActionInfo, Subscription,
};
use bspc_rs::properties::{Action, ActionState, Dir, Layout, Presel, Rectangle, State, Switch};

#[test]
fn two_records_in_one_read_come_out_one_by_one() {
    let mut events = EventIterator::new();
    let first = events
        .next(|| Ok("node_focus A B C\nnode_remove D E F\n".to_string()))
        .unwrap();
    assert_eq!(
        first,
        Event::NodeEvent(NodeEvent::NodeFocus(NodeFocusInfo {
            monitor_id: 0xA,
            desktop_id: 0xB,
            node_id: 0xC
        }))
    );
    let second = events.next(|| panic!("the second record was read again")).unwrap();
    assert_eq!(
        second,
        Event::NodeEvent(NodeEvent::NodeRemove(NodeRemoveInfo {
            monitor_id: 0xD,
            desktop_id: 0xE,
            node_id: 0xF
        }))
    );
}

#[test]
fn a_read_without_records_is_insufficient_data() {
    let mut events = EventIterator::new();
    match events.next(|| Ok("\n\n".to_string())) {
        Err(ReplyError::ParseError(ParseError::InsufficientData)) => {}
        other => panic!("{:?}", other),
    }
}

#[test]
fn a_failed_read_is_handed_on() {
    let mut events = EventIterator::new();
    match events.next(|| Err(ReplyError::NoReply)) {
        Err(ReplyError::NoReply) => {}
        other => panic!("{:?}", other),
    }
}

#[test]
fn a_bad_record_waits_its_turn() {
    let mut events = EventIterator::new();
    let first = events.next(|| Ok("node_add 0x1\npointer_action 0x1 0x2 0x3 move begin\n".to_string()));
    match first {
        Err(ReplyError::ParseError(ParseError::InsufficientData)) => {}
        other => panic!("{:?}", other),
    }
    let second = events.next(|| panic!("nothing more should be read")).unwrap();
    assert_eq!(
        second,
        Event::PointerAction(PointerActionInfo {
            monitor_id: 1,
            desktop_id: 2,
            node_id: 3,
            action: Action::Move,
            action_state: ActionState::Begin
        })
    );
}

#[test]
fn node_geometry_example() {
    let e = Event::parse("node_geometry 0x00200002 0x00200007 0x07800002 681x365+0+403").unwrap();
    match e {
        Event::NodeEvent(NodeEvent::NodeGeometry(info)) => {
            assert_eq!(info.node_id, 0x07800002);
            assert_eq!(info.node_geometry, Rectangle { width: 681, height: 365, x: 0, y: 403 });
        }
        other => panic!("{:?}", other),
    }
}

#[test]
fn node_stack_example() {
    let e: Event = "node_stack 0x07800002 below 0x04200003".parse().unwrap();
    match e {
        Event::NodeEvent(NodeEvent::NodeStack(info)) => {
            assert_eq!(info.stack, bspc_rs::properties::Stack::Below);
        }
        other => panic!("{:?}", other),
    }
}

#[test]
fn parsing_twice_gives_equal_events() {
    let record = "desktop_rename 0x00200002 0x00200007 one two";
    assert_eq!(Event::parse(record), Event::parse(record));
    let record = "node_presel 0x1 0x2 0x3 ratio 0.500000";
    assert_eq!(Event::parse(record), Event::parse(record));
}

#[test]
fn short_records_are_insufficient_data() {
    for record in [
        "node_add 0x1 0x2 0x3",
        "node_add",
        "monitor_geometry 0x1",
        "desktop_layout 0x1 0x2",
        "pointer_action 0x1 0x2 0x3 move",
        "node_presel 0x1 0x2 0x3 dir",
        "node_geometry 0x1 0x2 0x3 100x200+5",
    ] {
        assert_eq!(Event::parse(record), Err(ParseError::InsufficientData), "{}", record);
    }
}

#[test]
fn unknown_tags_are_conversion_failures() {
    for record in ["", "   ", "WMHDMI-0:O1:f2:LT", "node_foo 0x1", "Node_add 0x1 0x2 0x3 0x4"] {
        assert_eq!(Event::parse(record), Err(ParseError::ConversionFailed), "{}", record);
    }
}

#[test]
fn malformed_fields_are_conversion_failures() {
    for record in [
        "node_add 0x1 0x2 0xZZ 0x4",
        "node_state 0x1 0x2 0x3 tiled maybe",
        "node_layer 0x1 0x2 0x3 middle",
        "node_presel 0x1 0x2 0x3 ratio .5",
        "node_presel 0x1 0x2 0x3 dir up",
        "node_presel 0x1 0x2 0x3 nowhere",
        "monitor_geometry 0x1 wx2+3+4",
        "monitor_geometry 0x1 1x2+3+99999999999",
    ] {
        assert_eq!(Event::parse(record), Err(ParseError::ConversionFailed), "{}", record);
    }
}

#[test]
fn a_record_of_another_kind_is_an_invalid_event() {
    assert_eq!(NodeRemoveInfo::parse("node_add 0x1 0x2 0x3 0x4"), Err(ParseError::InvalidEvent));
    assert_eq!(
        "monitor_focus 0x1".parse::<MonitorAddInfo>(),
        Err(ParseError::InvalidEvent)
    );
}

#[test]
fn trailing_tokens_are_ignored() {
    let e = Event::parse("node_state 0x1 0x2 0x3 fullscreen off extra tokens").unwrap();
    assert_eq!(
        e,
        Event::NodeEvent(NodeEvent::NodeState(NodeStateInfo {
            monitor_id: 1,
            desktop_id: 2,
            node_id: 3,
            state: State::Fullscreen,
            switch: Switch::Off
        }))
    );
}

#[test]
fn names_geometries_and_presels() {
    let e = Event::parse("monitor_add 0x00200002 HDMI-0 1920x1080+-10+0").unwrap();
    assert_eq!(
        e,
        Event::MonitorEvent(MonitorEvent::MonitorAdd(MonitorAddInfo {
            monitor_id: 0x00200002,
            monitor_name: "HDMI-0".to_string(),
            monitor_geometry: Rectangle { width: 1920, height: 1080, x: -10, y: 0 }
        }))
    );
    let e = Event::parse("\tdesktop_layout 0x1 0x2 monocle \r\n").unwrap();
    assert_eq!(
        e,
        Event::DesktopEvent(DesktopEvent::DesktopLayout(DesktopLayoutInfo {
            monitor_id: 1,
            desktop_id: 2,
            layout: Layout::Monocle
        }))
    );
    let presel = |r: &str| match NodePreselInfo::parse(r) {
        Ok(info) => info.presel,
        Err(e) => panic!("{:?}", e),
    };
    assert_eq!(presel("node_presel 0x1 0x2 0x3 dir west"), Presel::Dir(Dir::West));
    assert_eq!(presel("node_presel 0x1 0x2 0x3 ratio 0.500000"), Presel::Ratio("0.500000".to_string()));
    assert_eq!(presel("node_presel 0x1 0x2 0x3 cancel"), Presel::Cancel);
}

#[test]
fn subscribe_frames_its_request() {
    let mut sent = String::new();
    let result = subscribe(
        &[Subscription::NodeAdd, Subscription::NodeRemove],
        true,
        Some(5),
        |request: String| {
            sent = request;
            Ok(())
        },
    );
    assert!(result.is_ok());
    assert_eq!(sent, "subscribe\0--fifo\0--count\05\0node_add\0node_remove\0");
    let failed = subscribe(&[Subscription::All], false, None, |_request: String| Err(ReplyError::NoReply));
    assert!(matches!(failed, Err(ReplyError::NoReply)));
}

#[test]
fn presels_on_their_own() {
    assert_eq!("dir north".parse::<Presel>(), Ok(Presel::Dir(Dir::North)));
    assert_eq!(Presel::parse("cancel"), Ok(Presel::Cancel));
    assert_eq!(Presel::parse("ratio"), Err(ParseError::InsufficientData));
    assert_eq!(Presel::parse("sideways"), Err(ParseError::ConversionFailed));
}
