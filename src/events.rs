//! The events that the window manager reports to a subscriber.
use vstd::prelude::*;
use vstd::string::*;

use crate::errors::{ParseError, ReplyError};
use crate::numbers::{int_text, int_to_text};
use crate::parser::tokens;
use crate::properties::{Action, ActionState, Flag, Layer, Layout, Presel, Rectangle, Stack, State, Switch};
use crate::socket::{encode_request, request_text, texts};
use crate::text::{chars_of, pieces, spans_within, split, split_spans};
use crate::Id;

verus! {

/// What a subscriber asks to be told of: one kind of event, a category of
/// them, all events, or the status reports.
#[derive(Debug, Clone, Copy, PartialEq, Eq, Structural)]
pub enum Subscription {
    All,
    Report,
    Monitor,
    Desktop,
    Node,
    MonitorAdd,
    MonitorRename,
    MonitorSwap,
    MonitorFocus,
    MonitorGeometry,
    DesktopAdd,
    DesktopRename,
    DesktopRemove,
    DesktopSwap,
    DesktopTransfer,
    DesktopFocus,
    DesktopActivate,
    DesktopLayout,
    NodeAdd,
    NodeRemove,
    NodeSwap,
    NodeTransfer,
    NodeFocus,
    NodeActivate,
    NodePresel,
    NodeStack,
    NodeGeometry,
    NodeState,
    NodeFlag,
    NodeLayer,
    PointerAction,
}

impl Subscription {
    /// How a subscription request names this subscription.
    pub open spec fn spec_text(self) -> Seq<char> {
        match self {
            Subscription::All => "all"@,
            Subscription::Report => "report"@,
            Subscription::Monitor => "monitor"@,
            Subscription::Desktop => "desktop"@,
            Subscription::Node => "node"@,
            Subscription::MonitorAdd => "monitor_add"@,
            Subscription::MonitorRename => "monitor_rename"@,
            Subscription::MonitorSwap => "monitor_swap"@,
            Subscription::MonitorFocus => "monitor_focus"@,
            Subscription::MonitorGeometry => "monitor_geometry"@,
            Subscription::DesktopAdd => "desktop_add"@,
            Subscription::DesktopRename => "desktop_rename"@,
            Subscription::DesktopRemove => "desktop_remove"@,
            Subscription::DesktopSwap => "desktop_swap"@,
            Subscription::DesktopTransfer => "desktop_transfer"@,
            Subscription::DesktopFocus => "desktop_focus"@,
            Subscription::DesktopActivate => "desktop_activate"@,
            Subscription::DesktopLayout => "desktop_layout"@,
            Subscription::NodeAdd => "node_add"@,
            Subscription::NodeRemove => "node_remove"@,
            Subscription::NodeSwap => "node_swap"@,
            Subscription::NodeTransfer => "node_transfer"@,
            Subscription::NodeFocus => "node_focus"@,
            Subscription::NodeActivate => "node_activate"@,
            Subscription::NodePresel => "node_presel"@,
            Subscription::NodeStack => "node_stack"@,
            Subscription::NodeGeometry => "node_geometry"@,
            Subscription::NodeState => "node_state"@,
            Subscription::NodeFlag => "node_flag"@,
            Subscription::NodeLayer => "node_layer"@,
            Subscription::PointerAction => "pointer_action"@,
        }
    }

    /// How a subscription request names this subscription.
    pub fn as_str(&self) -> (r: &'static str)
        ensures
            r@ == self.spec_text(),
    {
        match self {
            Subscription::All => "all",
            Subscription::Report => "report",
            Subscription::Monitor => "monitor",
            Subscription::Desktop => "desktop",
            Subscription::Node => "node",
            Subscription::MonitorAdd => "monitor_add",
            Subscription::MonitorRename => "monitor_rename",
            Subscription::MonitorSwap => "monitor_swap",
            Subscription::MonitorFocus => "monitor_focus",
            Subscription::MonitorGeometry => "monitor_geometry",
            Subscription::DesktopAdd => "desktop_add",
            Subscription::DesktopRename => "desktop_rename",
            Subscription::DesktopRemove => "desktop_remove",
            Subscription::DesktopSwap => "desktop_swap",
            Subscription::DesktopTransfer => "desktop_transfer",
            Subscription::DesktopFocus => "desktop_focus",
            Subscription::DesktopActivate => "desktop_activate",
            Subscription::DesktopLayout => "desktop_layout",
            Subscription::NodeAdd => "node_add",
            Subscription::NodeRemove => "node_remove",
            Subscription::NodeSwap => "node_swap",
            Subscription::NodeTransfer => "node_transfer",
            Subscription::NodeFocus => "node_focus",
            Subscription::NodeActivate => "node_activate",
            Subscription::NodePresel => "node_presel",
            Subscription::NodeStack => "node_stack",
            Subscription::NodeGeometry => "node_geometry",
            Subscription::NodeState => "node_state",
            Subscription::NodeFlag => "node_flag",
            Subscription::NodeLayer => "node_layer",
            Subscription::PointerAction => "pointer_action",
        }
    }
}

/// A monitor was added.
#[derive(Debug, Clone, PartialEq, Eq)]
pub struct MonitorAddInfo {
    pub monitor_id: Id,
    pub monitor_name: String,
    pub monitor_geometry: Rectangle,
}

/// A monitor was renamed.
#[derive(Debug, Clone, PartialEq, Eq)]
pub struct MonitorRenameInfo {
    pub monitor_id: Id,
    pub old_name: String,
    pub new_name: String,
}

/// A monitor was removed.
#[derive(Debug, Clone, Copy, PartialEq, Eq, Structural)]
pub struct MonitorRemoveInfo {
    pub monitor_id: Id,
}

/// Two monitors were swapped.
#[derive(Debug, Clone, Copy, PartialEq, Eq, Structural)]
pub struct MonitorSwapInfo {
    pub src_monitor_id: Id,
    pub dst_monitor_id: Id,
}

/// A monitor got the focus.
#[derive(Debug, Clone, Copy, PartialEq, Eq, Structural)]
pub struct MonitorFocusInfo {
    pub monitor_id: Id,
}

/// A monitor changed its geometry.
#[derive(Debug, Clone, Copy, PartialEq, Eq, Structural)]
pub struct MonitorGeometryInfo {
    pub monitor_id: Id,
    pub monitor_geometry: Rectangle,
}

/// An event about a monitor.
#[derive(Debug, Clone, PartialEq, Eq)]
pub enum MonitorEvent {
    MonitorAdd(MonitorAddInfo),
    MonitorRename(MonitorRenameInfo),
    MonitorRemove(MonitorRemoveInfo),
    MonitorSwap(MonitorSwapInfo),
    MonitorFocus(MonitorFocusInfo),
    MonitorGeometry(MonitorGeometryInfo),
}

/// A desktop was added.
#[derive(Debug, Clone, PartialEq, Eq)]
pub struct DesktopAddInfo {
    pub monitor_id: Id,
    pub desktop_id: Id,
    pub desktop_name: String,
}

/// A desktop was renamed.
#[derive(Debug, Clone, PartialEq, Eq)]
pub struct DesktopRenameInfo {
    pub monitor_id: Id,
    pub desktop_id: Id,
    pub old_name: String,
    pub new_name: String,
}

/// A desktop was removed.
#[derive(Debug, Clone, Copy, PartialEq, Eq, Structural)]
pub struct DesktopRemoveInfo {
    pub monitor_id: Id,
    pub desktop_id: Id,
}

/// Two desktops were swapped.
#[derive(Debug, Clone, Copy, PartialEq, Eq, Structural)]
pub struct DesktopSwapInfo {
    pub src_monitor_id: Id,
    pub src_desktop_id: Id,
    pub dst_monitor_id: Id,
    pub dst_desktop_id: Id,
}

/// A desktop moved to another monitor.
#[derive(Debug, Clone, Copy, PartialEq, Eq, Structural)]
pub struct DesktopTransferInfo {
    pub src_monitor_id: Id,
    pub src_desktop_id: Id,
    pub dst_monitor_id: Id,
}

/// A desktop got the focus.
#[derive(Debug, Clone, Copy, PartialEq, Eq, Structural)]
pub struct DesktopFocusInfo {
    pub monitor_id: Id,
    pub desktop_id: Id,
}

/// A desktop became the active one of its monitor.
#[derive(Debug, Clone, Copy, PartialEq, Eq, Structural)]
pub struct DesktopActivateInfo {
    pub monitor_id: Id,
    pub desktop_id: Id,
}

/// A desktop changed its layout.
#[derive(Debug, Clone, Copy, PartialEq, Eq, Structural)]
pub struct DesktopLayoutInfo {
    pub monitor_id: Id,
    pub desktop_id: Id,
    pub layout: Layout,
}

/// An event about a desktop.
#[derive(Debug, Clone, PartialEq, Eq)]
pub enum DesktopEvent {
    DesktopAdd(DesktopAddInfo),
    DesktopRename(DesktopRenameInfo),
    DesktopRemove(DesktopRemoveInfo),
    DesktopSwap(DesktopSwapInfo),
    DesktopTransfer(DesktopTransferInfo),
    DesktopFocus(DesktopFocusInfo),
    DesktopActivate(DesktopActivateInfo),
    DesktopLayout(DesktopLayoutInfo),
}

/// A node was added; `ip_id` is the node it was inserted at.
#[derive(Debug, Clone, Copy, PartialEq, Eq, Structural)]
pub struct NodeAddInfo {
    pub monitor_id: Id,
    pub desktop_id: Id,
    pub ip_id: Id,
    pub node_id: Id,
}

/// A node was removed.
#[derive(Debug, Clone, Copy, PartialEq, Eq, Structural)]
pub struct NodeRemoveInfo {
    pub monitor_id: Id,
    pub desktop_id: Id,
    pub node_id: Id,
}

/// Two nodes were swapped.
#[derive(Debug, Clone, Copy, PartialEq, Eq, Structural)]
pub struct NodeSwapInfo {
    pub src_monitor_id: Id,
    pub src_desktop_id: Id,
    pub src_node_id: Id,
    pub dst_monitor_id: Id,
    pub dst_desktop_id: Id,
    pub dst_node_id: Id,
}

/// A node moved to another place.
#[derive(Debug, Clone, Copy, PartialEq, Eq, Structural)]
pub struct NodeTransferInfo {
    pub src_monitor_id: Id,
    pub src_desktop_id: Id,
    pub src_node_id: Id,
    pub dst_monitor_id: Id,
    pub dst_desktop_id: Id,
    pub dst_node_id: Id,
}

/// A node got the focus.
#[derive(Debug, Clone, Copy, PartialEq, Eq, Structural)]
pub struct NodeFocusInfo {
    pub monitor_id: Id,
    pub desktop_id: Id,
    pub node_id: Id,
}

/// A node became the active one of its desktop.
#[derive(Debug, Clone, Copy, PartialEq, Eq, Structural)]
pub struct NodeActivateInfo {
    pub monitor_id: Id,
    pub desktop_id: Id,
    pub node_id: Id,
}

/// The pre-selection of a node changed.
#[derive(Debug, Clone, PartialEq, Eq)]
pub struct NodePreselInfo {
    pub monitor_id: Id,
    pub desktop_id: Id,
    pub node_id: Id,
    pub presel: Presel,
}

/// A node moved in the stacking order, relative to another.
#[derive(Debug, Clone, Copy, PartialEq, Eq, Structural)]
pub struct NodeStackInfo {
    pub node_id_1: Id,
    pub stack: Stack,
    pub node_id_2: Id,
}

/// A node changed its geometry.
#[derive(Debug, Clone, Copy, PartialEq, Eq, Structural)]
pub struct NodeGeometryInfo {
    pub monitor_id: Id,
    pub desktop_id: Id,
    pub node_id: Id,
    pub node_geometry: Rectangle,
}

/// A state of a node was turned on or off.
#[derive(Debug, Clone, Copy, PartialEq, Eq, Structural)]
pub struct NodeStateInfo {
    pub monitor_id: Id,
    pub desktop_id: Id,
    pub node_id: Id,
    pub state: State,
    pub switch: Switch,
}

/// A flag of a node was turned on or off.
#[derive(Debug, Clone, Copy, PartialEq, Eq, Structural)]
pub struct NodeFlagInfo {
    pub monitor_id: Id,
    pub desktop_id: Id,
    pub node_id: Id,
    pub flag: Flag,
    pub switch: Switch,
}

/// A node changed its layer.
#[derive(Debug, Clone, Copy, PartialEq, Eq, Structural)]
pub struct NodeLayerInfo {
    pub monitor_id: Id,
    pub desktop_id: Id,
    pub node_id: Id,
    pub layer: Layer,
}

/// An event about a node.
#[derive(Debug, Clone, PartialEq, Eq)]
pub enum NodeEvent {
    NodeAdd(NodeAddInfo),
    NodeRemove(NodeRemoveInfo),
    NodeSwap(NodeSwapInfo),
    NodeTransfer(NodeTransferInfo),
    NodeFocus(NodeFocusInfo),
    NodeActivate(NodeActivateInfo),
    NodePresel(NodePreselInfo),
    NodeStack(NodeStackInfo),
    NodeGeometry(NodeGeometryInfo),
    NodeState(NodeStateInfo),
    NodeFlag(NodeFlagInfo),
    NodeLayer(NodeLayerInfo),
}

/// A pointer action began or ended on a node.
#[derive(Debug, Clone, Copy, PartialEq, Eq, Structural)]
pub struct PointerActionInfo {
    pub monitor_id: Id,
    pub desktop_id: Id,
    pub node_id: Id,
    pub action: Action,
    pub action_state: ActionState,
}

/// The records of a read from the event stream: its non-empty lines, in order.
pub open spec fn records(lines: Seq<Seq<char>>) -> Seq<Seq<char>>
    decreases lines.len(),
{
    if lines.len() == 0 {
        Seq::empty()
    } else {
        let init = records(lines.drop_last());
        if lines.last().len() > 0 {
            init.push(lines.last())
        } else {
            init
        }
    }
}

/// Whether `r` is what a pull hands out for the queued result `q`.
pub open spec fn handed_out(q: Result<Event, ParseError>, r: Result<Event, ReplyError>) -> bool {
    match q {
        Ok(e) => r == Ok::<Event, ReplyError>(e),
        Err(pe) => match r {
            Err(ReplyError::ParseError(x)) => x == pe,
            _ => false,
        },
    }
}

/// Whether `r` is what a pull hands out for the record `rec`.
pub open spec fn decoded(rec: Seq<char>, r: Result<Event, ReplyError>) -> bool {
    match r {
        Ok(e) => Event::read_from(tokens(rec), Ok(e)),
        Err(ReplyError::ParseError(pe)) => Event::read_from(tokens(rec), Err(pe)),
        _ => false,
    }
}

/// The events of a subscription, one per pull, in the order in which they
/// arrived; records that came in one read wait in a queue.
pub struct EventIterator {
    queue: std::collections::VecDeque<Result<Event, ParseError>>,
}

impl EventIterator {
    /// The decoded records that wait to be handed out, oldest first.
    pub closed spec fn pending(&self) -> Seq<Result<Event, ParseError>> {
        self.queue@
    }

    /// An iterator with nothing pending.
    pub fn new() -> (r: EventIterator)
        ensures
            r.pending().len() == 0,
    {
        EventIterator { queue: std::collections::VecDeque::new() }
    }

    /// The next event. A pending one is handed out first; else `read` is
    /// called once for what the stream holds, each non-empty line of it is
    /// decoded, the first result is handed out and the others wait. A read
    /// with no record gives `InsufficientData`; a failed read, its error.
    pub fn next<F>(&mut self, read: F) -> (r: Result<Event, ReplyError>)
        where
            F: FnOnce() -> Result<String, ReplyError>,
        requires
            read.requires(()),
        ensures
            old(self).pending().len() > 0 ==> {
                &&& handed_out(old(self).pending()[0], r)
                &&& final(self).pending() == old(self).pending().drop_first()
            },
            old(self).pending().len() == 0 ==> exists|got: Result<String, ReplyError>|
                {
                    &&& read.ensures((), got)
                    &&& match got {
                        Err(e) => r == Err::<Event, ReplyError>(e) && final(self).pending().len() == 0,
                        Ok(s) => {
                            let recs = records(split(s@, '\n', '\n'));
                            if recs.len() == 0 {
                                &&& r matches Err(ReplyError::ParseError(ParseError::InsufficientData))
                                &&& final(self).pending().len() == 0
                            } else {
                                &&& decoded(recs[0], r)
                                &&& final(self).pending().len() == recs.len() - 1
                                &&& forall|i: int|
                                    0 <= i < recs.len() - 1 ==> Event::read_from(
                                        tokens(recs[i + 1]),
                                        #[trigger] final(self).pending()[i],
                                    )
                            }
                        },
                    }
                },
    {
        if self.queue.len() == 0 {
            let got = read();
            match got {
                Err(e) => {
                    return Err(e);
                },
                Ok(s) => {
                    self.fill(&s);
                },
            }
        }
        match self.queue.pop_front() {
            Some(Ok(e)) => Ok(e),
            Some(Err(pe)) => Err(ReplyError::ParseError(pe)),
            None => Err(ReplyError::ParseError(ParseError::InsufficientData)),
        }
    }

    /// Queues the decoded records of one read.
    fn fill(&mut self, s: &String)
        requires
            old(self).queue@.len() == 0,
        ensures
            ({
                let recs = records(split(s@, '\n', '\n'));
                &&& final(self).queue@.len() == recs.len()
                &&& forall|i: int|
                    0 <= i < recs.len() ==> Event::read_from(
                        tokens(recs[i]),
                        #[trigger] final(self).queue@[i],
                    )
            }),
    {
        let text = s.as_str();
        let cs = chars_of(text);
        proof {
            assert(cs@.subrange(0, cs@.len() as int) =~= s@);
        }
        let spans = split_spans(&cs, 0, cs.len(), '\n', '\n');
        let ghost p = pieces(cs@, spans@);
        let mut i: usize = 0;
        while i < spans.len()
            invariant
                cs@ == text@,
                text@ == s@,
                p == split(s@, '\n', '\n'),
                p == pieces(cs@, spans@),
                spans_within(cs@, spans@, 0, cs@.len() as int),
                i <= spans.len(),
                ({
                    let recs = records(p.take(i as int));
                    &&& self.queue@.len() == recs.len()
                    &&& forall|k: int|
                        0 <= k < recs.len() ==> Event::read_from(
                            tokens(recs[k]),
                            #[trigger] self.queue@[k],
                        )
                }),
            decreases spans.len() - i,
        {
            let (lo, hi) = spans[i];
            proof {
                assert(p.take(i + 1).drop_last() =~= p.take(i as int));
            }
            if lo < hi {
                let line = text.substring_char(lo, hi);
                let parsed = Event::parse(line);
                self.queue.push_back(parsed);
            }
            i += 1;
        }
        proof {
            assert(p.take(i as int) =~= p);
        }
    }
}

/// The tokens of a subscription request.
pub open spec fn subscribe_tokens(subscriptions: Seq<Subscription>, fifo_flag: bool, count: Option<u32>) -> Seq<Seq<char>> {
    seq!["subscribe"@]
        + (if fifo_flag { seq!["--fifo"@] } else { Seq::empty() })
        + (match count { Some(n) => seq!["--count"@, int_text(n as int)], None => Seq::empty() })
        + Seq::new(subscriptions.len(), |i: int| subscriptions[i].spec_text())
}

/// Subscribes to the given events: hands the request to `send`, and on
/// success gives the iterator of what the stream will report.
pub fn subscribe<F>(subscriptions: &[Subscription], fifo_flag: bool, count: Option<u32>, send: F) -> (r: Result<EventIterator, ReplyError>)
    where
        F: FnOnce(String) -> Result<(), ReplyError>,
    requires
        forall|req: String| send.requires((req,)),
    ensures
        exists|req: String, sent: Result<(), ReplyError>|
            {
                &&& req@ == request_text(subscribe_tokens(subscriptions@, fifo_flag, count))
                &&& send.ensures((req,), sent)
                &&& match sent {
                    Ok(()) => r matches Ok(it) && it.pending().len() == 0,
                    Err(e) => r matches Err(x) && x == e,
                }
            },
{
    let mut tokens: Vec<String> = Vec::new();
    tokens.push("subscribe".to_owned());
    if fifo_flag {
        tokens.push("--fifo".to_owned());
    }
    match count {
        Some(n) => {
            tokens.push("--count".to_owned());
            tokens.push(int_to_text(n as i64));
        },
        None => {},
    }
    let ghost head = texts(tokens@);
    let mut i: usize = 0;
    while i < subscriptions.len()
        invariant
            i <= subscriptions@.len(),
            texts(tokens@) == head + Seq::new(i as nat, |k: int| subscriptions@[k].spec_text()),
        decreases subscriptions@.len() - i,
    {
        let name = subscriptions[i].as_str().to_owned();
        let ghost before = tokens@;
        tokens.push(name);
        proof {
            assert(texts(tokens@) =~= texts(before).push(name@));
            assert(texts(tokens@) =~= head + Seq::new((i + 1) as nat, |k: int| subscriptions@[k].spec_text()));
        }
        i += 1;
    }
    proof {
        assert(texts(tokens@) =~= subscribe_tokens(subscriptions@, fifo_flag, count));
    }
    let request = encode_request(&tokens);
    match send(request) {
        Ok(()) => Ok(EventIterator::new()),
        Err(e) => Err(e),
    }
}

/// How a desktop shows in a status report.
#[derive(Debug, Clone, Copy, PartialEq, Eq, Structural)]
pub enum ReportDesktopState {
    Free,
    Occupied,
    Urgent,
}

/// A desktop in a status report.
#[derive(Debug, Clone, Copy, PartialEq, Eq, Structural)]
pub struct ReportDesktopInfo {
    pub state: ReportDesktopState,
    pub focused: bool,
}

/// A monitor in a status report, with its desktops by name.
#[derive(Debug, Clone, PartialEq, Eq)]
pub struct ReportMonitorInfo {
    pub desktops: std::collections::HashMap<String, ReportDesktopInfo>,
    pub focused: bool,
}

/// A status report: the monitors by name.
#[derive(Debug, Clone, PartialEq, Eq)]
pub struct ReportInfo(pub std::collections::HashMap<String, ReportMonitorInfo>);

/// Any event that the window manager reports.
#[derive(Debug, Clone, PartialEq, Eq)]
pub enum Event {
    /// A status report; the record decoders do not produce these.
    Report(ReportInfo),
    MonitorEvent(MonitorEvent),
    DesktopEvent(DesktopEvent),
    NodeEvent(NodeEvent),
    PointerAction(PointerActionInfo),
}

} // verus!
