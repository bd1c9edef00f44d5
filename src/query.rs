//! Queries of the identifiers of nodes, desktops and monitors, and of the
//! tree of one of them.
use vstd::prelude::*;
use vstd::string::*;

use crate::errors::{ParseError, QueryError, ReplyError};
use crate::numbers::id_of;
use crate::parser::from_hex_to_id;
use crate::selectors::{selector_text, DesktopSelector, MonitorSelector, NodeSelector, Selector};
use crate::socket::{decode_reply, encode_request, refusal_matches, reply_of, request_text, texts, Reply};
use crate::Id;

verus! {

/// The kind of item that a query asks about.
#[derive(Debug, Clone, Copy, PartialEq, Eq, Structural)]
pub enum QueryOptions {
    Monitor,
    Desktop,
    Node,
}

impl QueryOptions {
    /// The option that asks for identifiers of this kind.
    pub open spec fn spec_flag(self) -> Seq<char> {
        match self {
            QueryOptions::Monitor => "--monitors"@,
            QueryOptions::Desktop => "--desktops"@,
            QueryOptions::Node => "--nodes"@,
        }
    }

    /// The option that asks for identifiers of this kind.
    pub fn flag(&self) -> (r: &'static str)
        ensures
            r@ == self.spec_flag(),
    {
        match self {
            QueryOptions::Monitor => "--monitors",
            QueryOptions::Desktop => "--desktops",
            QueryOptions::Node => "--nodes",
        }
    }
}

/// `flag` followed by the selector, when there is one.
pub open spec fn option_tokens(flag: Seq<char>, sel: Option<Seq<char>>) -> Seq<Seq<char>> {
    match sel {
        Some(s) => seq![flag, s],
        None => Seq::empty(),
    }
}

/// The tokens of a query for identifiers.
pub open spec fn query_tokens(
    kind: QueryOptions,
    names_flag: bool,
    selector: Option<Seq<char>>,
    monitor_selector: Option<Seq<char>>,
    desktop_selector: Option<Seq<char>>,
    node_selector: Option<Seq<char>>,
) -> Seq<Seq<char>> {
    seq!["query"@, kind.spec_flag()] + (if names_flag {
        seq!["--names"@]
    } else {
        Seq::empty()
    }) + (match selector {
        Some(s) => seq![s],
        None => Seq::empty(),
    }) + option_tokens("--monitor"@, monitor_selector) + option_tokens("--desktop"@, desktop_selector)
        + option_tokens("--node"@, node_selector)
}

/// The tokens of a query for a tree.
pub open spec fn tree_tokens(
    monitor_selector: Option<Seq<char>>,
    desktop_selector: Option<Seq<char>>,
    node_selector: Option<Seq<char>>,
) -> Seq<Seq<char>> {
    seq!["query"@, "--tree"@] + option_tokens("--monitor"@, monitor_selector) + option_tokens(
        "--desktop"@,
        desktop_selector,
    ) + option_tokens("--node"@, node_selector)
}

/// The identifiers that the lines of a reply name, empty lines left out;
/// `None` when a line names none.
pub open spec fn ids_of(ls: Seq<Seq<char>>) -> Option<Seq<Id>>
    decreases ls.len(),
{
    if ls.len() == 0 {
        Some(Seq::empty())
    } else {
        match ids_of(ls.drop_last()) {
            None => None,
            Some(init) => if ls.last().len() == 0 {
                Some(init)
            } else {
                match id_of(ls.last()) {
                    Some(v) => Some(init.push(v)),
                    None => None,
                }
            },
        }
    }
}

proof fn lemma_ids_of_prefix(ls: Seq<Seq<char>>, i: int)
    requires
        0 <= i <= ls.len(),
        ids_of(ls.take(i)) is None,
    ensures
        ids_of(ls) is None,
    decreases ls.len() - i,
{
    if i < ls.len() {
        assert(ls.take(i + 1).drop_last() =~= ls.take(i));
        lemma_ids_of_prefix(ls, i + 1);
    } else {
        assert(ls.take(i) =~= ls);
    }
}

/// What a raw reply to a query for identifiers gives.
pub open spec fn ids_read(raw: Seq<char>, r: Result<Vec<Id>, ReplyError>) -> bool {
    match reply_of(raw) {
        Reply::Data(ls) => match ids_of(ls) {
            Some(ids) => match r {
                Ok(v) => v@ == ids,
                Err(_) => false,
            },
            None => r matches Err(ReplyError::ParseError(ParseError::ConversionFailed)),
        },
        m => refusal_matches(m, r),
    }
}

/// What an exchange that gave `got` makes a query for identifiers return.
pub open spec fn ids_got(got: Result<String, ReplyError>, r: Result<Vec<Id>, ReplyError>) -> bool {
    match got {
        Err(e) => r matches Err(x) && x == e,
        Ok(raw) => ids_read(raw@, r),
    }
}

/// Decodes the reply to a query for identifiers: one identifier per line,
/// empty lines left out.
pub fn decode_ids(raw: &str) -> (r: Result<Vec<Id>, ReplyError>)
    ensures
        ids_read(raw@, r),
{
    let lines = match decode_reply(raw) {
        Ok(lines) => lines,
        Err(e) => return Err(e),
    };
    let ghost ls = texts(lines@);
    assert(reply_of(raw@) == Reply::Data(ls));
    let mut ids: Vec<Id> = Vec::new();
    let mut i: usize = 0;
    while i < lines.len()
        invariant
            ls == texts(lines@),
            reply_of(raw@) == Reply::Data(ls),
            i <= lines.len(),
            ids_of(ls.take(i as int)) == Some(ids@),
        decreases lines.len() - i,
    {
        proof {
            assert(ls.take(i + 1).drop_last() =~= ls.take(i as int));
            assert(ls.take(i + 1).last() == lines@[i as int]@);
        }
        if lines[i].as_str().is_empty() {
            i += 1;
            continue;
        }
        match from_hex_to_id(lines[i].as_str()) {
            Ok(id) => {
                ids.push(id);
            },
            Err(_) => {
                proof {
                    let pre = ls.take(i + 1);
                    assert(pre.last().len() != 0);
                    assert(id_of(pre.last()) is None);
                    assert(ids_of(pre) is None);
                    lemma_ids_of_prefix(ls, i + 1);
                }
                return Err(ReplyError::ParseError(ParseError::ConversionFailed));
            },
        }
        i += 1;
    }
    proof {
        assert(ls.take(i as int) =~= ls);
    }
    Ok(ids)
}

/// The message for a selector that failed validation.
pub open spec fn invalid_selector_message(kind: Seq<char>, text: Seq<char>) -> Seq<char> {
    "This "@ + kind + " selector is invalid: '"@ + text + "'"@
}

/// The text of a selector that may be absent, once validated.
fn extract<'b, S: Selector>(selector: &'b Option<S>) -> (r: Result<Option<&'b str>, ReplyError>)
    ensures
        match selector {
            None => r == Ok::<Option<&str>, ReplyError>(None),
            Some(s) => if s.spec_valid() {
                match r {
                    Ok(Some(x)) => x@ == s.spec_text(),
                    _ => false,
                }
            } else {
                match r {
                    Err(ReplyError::InvalidSelector(m)) => m@ == invalid_selector_message(
                        s.spec_kind(),
                        s.spec_text(),
                    ),
                    _ => false,
                }
            },
        },
{
    match selector {
        None => Ok(None),
        Some(sel) => {
            if !sel.is_valid() {
                let mut message = String::new();
                message.append("This ");
                message.append(sel.kind());
                message.append(" selector is invalid: '");
                message.append(sel.extract());
                message.append("'");
                return Err(ReplyError::InvalidSelector(message));
            }
            Ok(Some(sel.extract()))
        },
    }
}

/// Appends `flag` and the selector, when there is one.
pub(crate) fn push_option(tokens: &mut Vec<String>, flag: &str, sel: Option<&str>)
    ensures
        texts(final(tokens)@) == texts(old(tokens)@) + option_tokens(
            flag@,
            match sel {
                Some(s) => Some(s@),
                None => None,
            },
        ),
{
    match sel {
        Some(s) => {
            let ghost before = tokens@;
            tokens.push(flag.to_owned());
            tokens.push(s.to_owned());
            assert(texts(tokens@) =~= texts(before) + seq![flag@, s@]);
        },
        None => {
            assert(texts(tokens@) =~= texts(tokens@) + Seq::<Seq<char>>::empty());
        },
    }
}

/// The text of a selector that may be absent.
pub open spec fn sel_view(sel: Option<&str>) -> Option<Seq<char>> {
    match sel {
        Some(s) => Some(s@),
        None => None,
    }
}

fn query<F>(
    kind: QueryOptions,
    names_flag: bool,
    selector: Option<&str>,
    monitor_selector: Option<&str>,
    desktop_selector: Option<&str>,
    node_selector: Option<&str>,
    exchange: F,
) -> (r: Result<Vec<Id>, ReplyError>) where F: FnOnce(String) -> Result<String, ReplyError>
    requires
        forall|req: String| exchange.requires((req,)),
    ensures
        names_flag && kind == QueryOptions::Node ==> r matches Err(
            ReplyError::QueryError(QueryError::InvalidRequest(_)),
        ),
        !(names_flag && kind == QueryOptions::Node) ==> exists|
            req: String,
            got: Result<String, ReplyError>,
        |
            {
                &&& req@ == request_text(
                    query_tokens(
                        kind,
                        names_flag,
                        sel_view(selector),
                        sel_view(monitor_selector),
                        sel_view(desktop_selector),
                        sel_view(node_selector),
                    ),
                )
                &&& exchange.ensures((req,), got)
                &&& ids_got(got, r)
            },
{
    if names_flag && kind == QueryOptions::Node {
        return Err(
            ReplyError::QueryError(
                QueryError::InvalidRequest(
                    "You can't apply --names for nodes query request".to_owned(),
                ),
            ),
        );
    }
    let mut tokens: Vec<String> = Vec::new();
    tokens.push("query".to_owned());
    tokens.push(kind.flag().to_owned());
    if names_flag {
        tokens.push("--names".to_owned());
    }
    let ghost head = texts(tokens@);
    match selector {
        Some(s) => {
            tokens.push(s.to_owned());
        },
        None => {},
    }
    assert(texts(tokens@) =~= head + match sel_view(selector) {
        Some(s) => seq![s],
        None => Seq::<Seq<char>>::empty(),
    });
    push_option(&mut tokens, "--monitor", monitor_selector);
    push_option(&mut tokens, "--desktop", desktop_selector);
    push_option(&mut tokens, "--node", node_selector);
    assert(texts(tokens@) =~= query_tokens(
        kind,
        names_flag,
        sel_view(selector),
        sel_view(monitor_selector),
        sel_view(desktop_selector),
        sel_view(node_selector),
    ));
    let request = encode_request(&tokens);
    match exchange(request) {
        Ok(raw) => decode_ids(raw.as_str()),
        Err(e) => Err(e),
    }
}

/// The identifiers of the nodes that the selectors pick.
pub fn query_nodes<F>(
    selector: Option<NodeSelector>,
    monitor_selector: Option<MonitorSelector>,
    desktop_selector: Option<DesktopSelector>,
    node_selector: Option<NodeSelector>,
    exchange: F,
) -> (r: Result<Vec<Id>, ReplyError>) where F: FnOnce(String) -> Result<String, ReplyError>
    requires
        forall|req: String| exchange.requires((req,)),
    ensures
        exists|req: String, got: Result<String, ReplyError>|
            {
                &&& req@ == request_text(
                    query_tokens(
                        QueryOptions::Node,
                        false,
                        selector_text(selector),
                        selector_text(monitor_selector),
                        selector_text(desktop_selector),
                        selector_text(node_selector),
                    ),
                )
                &&& exchange.ensures((req,), got)
                &&& ids_got(got, r)
            },
{
    let s = match extract(&selector) {
        Ok(s) => s,
        Err(e) => return Err(e),
    };
    let m = match extract(&monitor_selector) {
        Ok(s) => s,
        Err(e) => return Err(e),
    };
    let d = match extract(&desktop_selector) {
        Ok(s) => s,
        Err(e) => return Err(e),
    };
    let n = match extract(&node_selector) {
        Ok(s) => s,
        Err(e) => return Err(e),
    };
    query(QueryOptions::Node, false, s, m, d, n, exchange)
}

/// The identifiers (or, with `names_flag`, the names) of the desktops that
/// the selectors pick.
pub fn query_desktops<F>(
    names_flag: bool,
    selector: Option<DesktopSelector>,
    monitor_selector: Option<MonitorSelector>,
    desktop_selector: Option<DesktopSelector>,
    node_selector: Option<NodeSelector>,
    exchange: F,
) -> (r: Result<Vec<Id>, ReplyError>) where F: FnOnce(String) -> Result<String, ReplyError>
    requires
        forall|req: String| exchange.requires((req,)),
    ensures
        exists|req: String, got: Result<String, ReplyError>|
            {
                &&& req@ == request_text(
                    query_tokens(
                        QueryOptions::Desktop,
                        names_flag,
                        selector_text(selector),
                        selector_text(monitor_selector),
                        selector_text(desktop_selector),
                        selector_text(node_selector),
                    ),
                )
                &&& exchange.ensures((req,), got)
                &&& ids_got(got, r)
            },
{
    let s = match extract(&selector) {
        Ok(s) => s,
        Err(e) => return Err(e),
    };
    let m = match extract(&monitor_selector) {
        Ok(s) => s,
        Err(e) => return Err(e),
    };
    let d = match extract(&desktop_selector) {
        Ok(s) => s,
        Err(e) => return Err(e),
    };
    let n = match extract(&node_selector) {
        Ok(s) => s,
        Err(e) => return Err(e),
    };
    query(QueryOptions::Desktop, names_flag, s, m, d, n, exchange)
}

/// The identifiers (or, with `names_flag`, the names) of the monitors that
/// the selectors pick.
pub fn query_monitors<F>(
    names_flag: bool,
    selector: Option<MonitorSelector>,
    monitor_selector: Option<MonitorSelector>,
    desktop_selector: Option<DesktopSelector>,
    node_selector: Option<NodeSelector>,
    exchange: F,
) -> (r: Result<Vec<Id>, ReplyError>) where F: FnOnce(String) -> Result<String, ReplyError>
    requires
        forall|req: String| exchange.requires((req,)),
    ensures
        exists|req: String, got: Result<String, ReplyError>|
            {
                &&& req@ == request_text(
                    query_tokens(
                        QueryOptions::Monitor,
                        names_flag,
                        selector_text(selector),
                        selector_text(monitor_selector),
                        selector_text(desktop_selector),
                        selector_text(node_selector),
                    ),
                )
                &&& exchange.ensures((req,), got)
                &&& ids_got(got, r)
            },
{
    let s = match extract(&selector) {
        Ok(s) => s,
        Err(e) => return Err(e),
    };
    let m = match extract(&monitor_selector) {
        Ok(s) => s,
        Err(e) => return Err(e),
    };
    let d = match extract(&desktop_selector) {
        Ok(s) => s,
        Err(e) => return Err(e),
    };
    let n = match extract(&node_selector) {
        Ok(s) => s,
        Err(e) => return Err(e),
    };
    query(QueryOptions::Monitor, names_flag, s, m, d, n, exchange)
}

/// The request for the tree of the item that the selectors pick, and which
/// kind of tree the reply holds: a node's where a node selector is given,
/// else a desktop's, else a monitor's. With no selector there is nothing to
/// ask for.
pub fn query_tree_request(
    monitor_selector: Option<MonitorSelector>,
    desktop_selector: Option<DesktopSelector>,
    node_selector: Option<NodeSelector>,
) -> (r: Result<(String, QueryOptions), ReplyError>)
    ensures
        monitor_selector is None && desktop_selector is None && node_selector is None ==> r matches Err(
            ReplyError::QueryError(QueryError::InvalidRequest(_)),
        ),
        !(monitor_selector is None && desktop_selector is None && node_selector is None) ==> match r {
            Ok((req, kind)) => {
                &&& req@ == request_text(
                    tree_tokens(
                        selector_text(monitor_selector),
                        selector_text(desktop_selector),
                        selector_text(node_selector),
                    ),
                )
                &&& kind == if node_selector is Some {
                    QueryOptions::Node
                } else if desktop_selector is Some {
                    QueryOptions::Desktop
                } else {
                    QueryOptions::Monitor
                }
            },
            Err(_) => false,
        },
{
    let m = match extract(&monitor_selector) {
        Ok(s) => s,
        Err(e) => return Err(e),
    };
    let d = match extract(&desktop_selector) {
        Ok(s) => s,
        Err(e) => return Err(e),
    };
    let n = match extract(&node_selector) {
        Ok(s) => s,
        Err(e) => return Err(e),
    };
    let kind = if n.is_some() {
        QueryOptions::Node
    } else if d.is_some() {
        QueryOptions::Desktop
    } else if m.is_some() {
        QueryOptions::Monitor
    } else {
        return Err(
            ReplyError::QueryError(QueryError::InvalidRequest("No options were given".to_owned())),
        );
    };
    let mut tokens: Vec<String> = Vec::new();
    tokens.push("query".to_owned());
    tokens.push("--tree".to_owned());
    push_option(&mut tokens, "--monitor", m);
    push_option(&mut tokens, "--desktop", d);
    push_option(&mut tokens, "--node", n);
    assert(texts(tokens@) =~= tree_tokens(
        selector_text(monitor_selector),
        selector_text(desktop_selector),
        selector_text(node_selector),
    ));
    Ok((encode_request(&tokens), kind))
}

} // verus!
