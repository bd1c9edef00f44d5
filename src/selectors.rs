//! Selectors of nodes, desktops and monitors, as a caller writes them for
//! the window manager, each tagged with the kind of item it selects.
use vstd::prelude::*;

verus! {

/// A node selector.
pub struct NodeSelector<'a>(pub &'a str);

/// A desktop selector.
pub struct DesktopSelector<'a>(pub &'a str);

/// A monitor selector.
pub struct MonitorSelector<'a>(pub &'a str);

/// What every kind of selector offers.
pub trait Selector {
    /// The selector as written.
    spec fn spec_text(&self) -> Seq<char>;

    /// The kind of item that it selects: `Node`, `Desktop` or `Monitor`.
    spec fn spec_kind(&self) -> Seq<char>;

    /// Whether the selector may be sent.
    spec fn spec_valid(&self) -> bool;

    /// Checks whether the selector may be sent.
    fn is_valid(&self) -> (r: bool)
        ensures
            r == self.spec_valid(),
    ;

    /// The selector as written.
    fn extract(&self) -> (r: &str)
        ensures
            r@ == self.spec_text(),
    ;

    /// The kind of item that it selects.
    fn kind(&self) -> (r: &str)
        ensures
            r@ == self.spec_kind(),
    ;
}

impl<'a> Selector for NodeSelector<'a> {
    open spec fn spec_text(&self) -> Seq<char> {
        self.0@
    }

    open spec fn spec_kind(&self) -> Seq<char> {
        "Node"@
    }

    /// The window manager checks the syntax itself: every text is sent.
    open spec fn spec_valid(&self) -> bool {
        true
    }

    fn is_valid(&self) -> (r: bool) {
        true
    }

    fn extract(&self) -> (r: &str) {
        self.0
    }

    fn kind(&self) -> (r: &str) {
        "Node"
    }
}

impl<'a> Selector for DesktopSelector<'a> {
    open spec fn spec_text(&self) -> Seq<char> {
        self.0@
    }

    open spec fn spec_kind(&self) -> Seq<char> {
        "Desktop"@
    }

    /// The window manager checks the syntax itself: every text is sent.
    open spec fn spec_valid(&self) -> bool {
        true
    }

    fn is_valid(&self) -> (r: bool) {
        true
    }

    fn extract(&self) -> (r: &str) {
        self.0
    }

    fn kind(&self) -> (r: &str) {
        "Desktop"
    }
}

impl<'a> Selector for MonitorSelector<'a> {
    open spec fn spec_text(&self) -> Seq<char> {
        self.0@
    }

    open spec fn spec_kind(&self) -> Seq<char> {
        "Monitor"@
    }

    /// The window manager checks the syntax itself: every text is sent.
    open spec fn spec_valid(&self) -> bool {
        true
    }

    fn is_valid(&self) -> (r: bool) {
        true
    }

    fn extract(&self) -> (r: &str) {
        self.0
    }

    fn kind(&self) -> (r: &str) {
        "Monitor"
    }
}

/// The text of a selector that may be absent.
pub open spec fn selector_text<S: Selector>(s: Option<S>) -> Option<Seq<char>> {
    match s {
        Some(x) => Some(x.spec_text()),
        None => None,
    }
}

} // verus!
