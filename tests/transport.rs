use bspc_rs::errors::{ParseError, ReplyError};
use bspc_rs::numbers::int_to_text;
use bspc_rs::properties::Rectangle;
use bspc_rs::query::{decode_ids, query_desktops, query_tree_request, QueryOptions};
use bspc_rs::selectors::{DesktopSelector, MonitorSelector, NodeSelector};
use bspc_rs::socket::{decode_reply, encode_request, socket_path};

#[test]
fn a_bell_reply_is_a_refusal() {
    match decode_reply("\u{7}bad selector") {
        Err(ReplyError::RequestFailed(message)) => assert_eq!(message, "bad selector"),
        other => panic!("{:?}", other),
    }
    match decode_reply("\u{7}bad selector\nmore\n") {
        Err(ReplyError::RequestFailed(message)) => assert_eq!(message, "bad selector"),
        other => panic!("{:?}", other),
    }
}

#[test]
fn replies_are_cut_into_lines() {
    assert_eq!(decode_reply("a\nb\n").unwrap(), vec!["a".to_string(), "b".to_string()]);
    assert_eq!(decode_reply("a\n\nb").unwrap(), vec!["a".to_string(), "".to_string(), "b".to_string()]);
    assert_eq!(decode_reply("\n").unwrap(), vec!["".to_string()]);
    assert!(matches!(decode_reply(""), Err(ReplyError::NoReply)));
}

#[test]
fn requests_are_nul_framed() {
    let tokens = vec!["query".to_string(), "--nodes".to_string()];
    assert_eq!(encode_request(&tokens), "query\0--nodes\0");
    assert_eq!(encode_request(&Vec::new()), "");
}

#[test]
fn the_socket_path_falls_back_to_the_default() {
    assert_eq!(socket_path(None), "/tmp/bspwm_0_0-socket");
    assert_eq!(socket_path(Some("/run/wm".to_string())), "/run/wm");
}

#[test]
fn identifier_replies() {
    assert_eq!(decode_ids("0x00200002\n\n0x00200007\n").unwrap(), vec![0x00200002, 0x00200007]);
    assert!(matches!(
        decode_ids("0x00200002\nnot-an-id\n"),
        Err(ReplyError::ParseError(ParseError::ConversionFailed))
    ));
    assert!(matches!(decode_ids(""), Err(ReplyError::NoReply)));
}

#[test]
fn desktop_queries_send_their_selectors() {
    let mut sent = String::new();
    let ids = query_desktops(
        false,
        Some(DesktopSelector("focused")),
        Some(MonitorSelector("HDMI-0")),
        None,
        None,
        |request: String| {
            sent = request;
            Ok("0x00200007\n".to_string())
        },
    )
    .unwrap();
    assert_eq!(ids, vec![0x00200007]);
    assert_eq!(sent, "query\0--desktops\0focused\0--monitor\0HDMI-0\0");
}

#[test]
fn tree_requests() {
    let (request, kind) =
        query_tree_request(Some(MonitorSelector("focused")), None, Some(NodeSelector("biggest")))
            .unwrap();
    assert_eq!(request, "query\0--tree\0--monitor\0focused\0--node\0biggest\0");
    assert_eq!(kind, QueryOptions::Node);
    assert!(matches!(
        query_tree_request(None, None, None),
        Err(ReplyError::QueryError(_))
    ));
}

#[test]
fn integers_in_decimal() {
    assert_eq!(int_to_text(-42), "-42");
    assert_eq!(int_to_text(0), "0");
    assert_eq!(int_to_text(i64::MIN), i64::MIN.to_string());
    assert_eq!(Rectangle::parse("681x365+0+403"), Ok(Rectangle { width: 681, height: 365, x: 0, y: 403 }));
}
