use bspc_rs::errors::{ParseError, ReplyError};
use bspc_rs::selectors::{MonitorSelector, NodeSelector};
use bspc_rs::settings::{
    get_automatic_scheme, get_normal_border_color, get_removal_adjustment, get_top_monocle_padding,
    set_border_width, set_pointer_action1, set_top_monocle_padding, PointerAction, Scheme,
};

#[test]
fn reading_a_setting() {
    let mut sent = String::new();
    let scheme = get_automatic_scheme(|request: String| {
        sent = request;
        Ok("spiral\n".to_string())
    });
    assert_eq!(scheme.unwrap(), Scheme::Spiral);
    assert_eq!(sent, "config\0automatic_scheme\0");
    assert_eq!(get_removal_adjustment(|_r: String| Ok("true\n".to_string())).unwrap(), true);
    assert_eq!(get_top_monocle_padding(|_r: String| Ok("-7\n".to_string())).unwrap(), -7);
    assert_eq!(get_normal_border_color(|_r: String| Ok("#30302f\n".to_string())).unwrap(), "#30302f");
    assert!(matches!(
        get_removal_adjustment(|_r: String| Ok("yes\n".to_string())),
        Err(ReplyError::ParseError(ParseError::ConversionFailed))
    ));
    assert!(matches!(
        get_automatic_scheme(|_r: String| Ok("\u{7}config: Unknown setting\n".to_string())),
        Err(ReplyError::RequestFailed(_))
    ));
}

#[test]
fn changing_a_setting() {
    let mut sent = String::new();
    let done = set_top_monocle_padding(-5, |request: String| {
        sent = request;
        Ok(String::new())
    });
    assert!(done.is_ok());
    assert_eq!(sent, "config\0top_monocle_padding\0-5\0");
    let done = set_pointer_action1(PointerAction::ResizeCorner, |request: String| {
        sent = request;
        Ok(String::new())
    });
    assert!(done.is_ok());
    assert_eq!(sent, "config\0pointer_action1\0resize_corner\0");
    assert!(matches!(
        set_top_monocle_padding(1, |_r: String| Ok("unexpected\n".to_string())),
        Err(ReplyError::ParseError(ParseError::ConversionFailed))
    ));
}

#[test]
fn changing_a_setting_for_selected_items() {
    let mut sent = String::new();
    let done = set_border_width(
        Some(MonitorSelector("HDMI-0")),
        None,
        Some(NodeSelector("focused")),
        2,
        |request: String| {
            sent = request;
            Ok(String::new())
        },
    );
    assert!(done.is_ok());
    assert_eq!(sent, "config\0--monitor\0HDMI-0\0--node\0focused\0border_width\02\0");
}
