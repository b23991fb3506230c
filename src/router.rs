//! The command router: maps a message body to at most one reply.
//!
//! Matching is on the raw body, case-sensitive and untrimmed: `"ping"`
//! matches, `"PING"` and `"ping "` do not. The commands are tried in a fixed
//! order and the first that matches wins.

use vstd::prelude::*;
use crate::uptime::{format_uptime, get_uptime, uptime_text, UptimeTracker};

verus! {

/// The body that asks for `"pong"`.
pub open spec fn ping_trigger() -> Seq<char> {
    "ping"@
}

/// The prefix (trigger and one space) that asks for the rest of the body back.
pub open spec fn echo_prefix() -> Seq<char> {
    "?echo "@
}

/// The body that asks for the uptime.
pub open spec fn uptime_trigger() -> Seq<char> {
    "?uptime"@
}

/// The body that asks for the help text.
pub open spec fn help_trigger() -> Seq<char> {
    "?help"@
}

/// The body that asks for an image.
pub open spec fn image_trigger() -> Seq<char> {
    "?cat"@
}

/// The fixed help text.
pub open spec fn help_spec() -> Seq<char> {
    "Commands:\n  ping - replies pong\n  ?echo <text> - replies <text>\n  ?uptime - time since the bot started\n  ?help - this text\n  ?cat - a picture of a cat\nSource: https://github.com/roombot/roombot"@
}

/// The fixed help text, as a literal.
pub fn help_text() -> (r: &'static str)
    ensures
        r@ == help_spec(),
{
    "Commands:\n  ping - replies pong\n  ?echo <text> - replies <text>\n  ?uptime - time since the bot started\n  ?help - this text\n  ?cat - a picture of a cat\nSource: https://github.com/roombot/roombot"
}

/// What the router produces for one message body.
#[derive(Debug, Clone, PartialEq, Eq)]
pub enum CommandResult {
    NoMatch,
    TextReply(String),
    /// An image is to be fetched and sent back as an attachment.
    AttachmentReply,
}

/// The mathematical value of a `CommandResult`.
pub enum RouteView {
    NoMatch,
    TextReply(Seq<char>),
    AttachmentReply,
}

impl View for CommandResult {
    type V = RouteView;

    open spec fn view(&self) -> RouteView {
        match self {
            CommandResult::NoMatch => RouteView::NoMatch,
            CommandResult::TextReply(s) => RouteView::TextReply(s@),
            CommandResult::AttachmentReply => RouteView::AttachmentReply,
        }
    }
}

/// The router's result for body `m` when the bot has been up `secs` seconds.
pub open spec fn route_spec(m: Seq<char>, secs: nat) -> RouteView {
    if m == ping_trigger() {
        RouteView::TextReply("pong"@)
    } else if echo_prefix().is_prefix_of(m) {
        RouteView::TextReply(m.subrange(echo_prefix().len() as int, m.len() as int))
    } else if m == uptime_trigger() {
        RouteView::TextReply(uptime_text(secs))
    } else if m == help_trigger() {
        RouteView::TextReply(help_spec())
    } else if m == image_trigger() {
        RouteView::AttachmentReply
    } else {
        RouteView::NoMatch
    }
}

/// Whether the two strings hold the same characters.
pub fn same_text(a: &str, b: &str) -> (r: bool)
    ensures
        r == (a@ == b@),
{
    let x = String::from_str(a);
    let y = String::from_str(b);
    x == y
}

/// Whether `p` is a prefix of `s`.
pub fn has_prefix(s: &str, p: &str) -> (r: bool)
    ensures
        r == p@.is_prefix_of(s@),
{
    let n = s.unicode_len();
    let k = p.unicode_len();
    if k > n {
        false
    } else {
        let head = s.substring_char(0, k);
        let r = same_text(head, p);
        assert(r == (p@ =~= s@.subrange(0, p@.len() as int)));
        r
    }
}

/// Routes the body `msg` of a message from someone other than the bot,
/// where the bot has been up `uptime_secs` seconds.
pub fn route(msg: &str, uptime_secs: u64) -> (r: CommandResult)
    ensures
        r@ == route_spec(msg@, uptime_secs as nat),
{
    proof {
        reveal_strlit("?echo ");
    }
    if same_text(msg, "ping") {
        CommandResult::TextReply(String::from_str("pong"))
    } else if has_prefix(msg, "?echo ") {
        let n = msg.unicode_len();
        let rest = msg.substring_char(6, n);
        CommandResult::TextReply(String::from_str(rest))
    } else if same_text(msg, "?uptime") {
        CommandResult::TextReply(format_uptime(uptime_secs))
    } else if same_text(msg, "?help") {
        CommandResult::TextReply(String::from_str(help_text()))
    } else if same_text(msg, "?cat") {
        CommandResult::AttachmentReply
    } else {
        CommandResult::NoMatch
    }
}

/// A body that is not `"ping"`, does not start with the echo trigger and a
/// space, and is none of the uptime, help and image triggers gets no reply.
pub proof fn lemma_unknown_body_no_match(m: Seq<char>, secs: nat)
    requires
        m != ping_trigger(),
        !echo_prefix().is_prefix_of(m),
        m != uptime_trigger(),
        m != help_trigger(),
        m != image_trigger(),
    ensures
        route_spec(m, secs) == RouteView::NoMatch,
{
}

/// The echo trigger, a space and any text `s` (the empty text too) is
/// answered with `s` itself.
pub proof fn lemma_echo_returns_rest(s: Seq<char>, secs: nat)
    ensures
        route_spec(echo_prefix() + s, secs) == RouteView::TextReply(s),
{
    reveal_strlit("?echo ");
    reveal_strlit("ping");
    let m = echo_prefix() + s;
    assert(m.len() != 4 || m[0] != 'p');
    assert(m != ping_trigger());
    assert(echo_prefix() =~= m.subrange(0, 6));
    assert(m.subrange(6, m.len() as int) =~= s);
}

/// The text of a router result: the reply's text, empty where there is none.
pub open spec fn reply_text_spec(r: RouteView) -> Seq<char> {
    match r {
        RouteView::TextReply(t) => t,
        _ => Seq::empty(),
    }
}

/// The text that the router replies to `msg`, empty where it gives no text
/// reply; the uptime is read from `tracker` only when it is asked for.
pub fn get_reply_text(msg: String, tracker: &UptimeTracker) -> (r: String)
    ensures
        msg@ != uptime_trigger() ==> r@ == reply_text_spec(route_spec(msg@, 0)),
        msg@ == uptime_trigger() ==> exists|t: u64| r@ == uptime_text(t as nat),
{
    if same_text(msg.as_str(), "?uptime") {
        get_uptime(tracker)
    } else {
        match route(msg.as_str(), 0) {
            CommandResult::TextReply(t) => t,
            _ => String::new(),
        }
    }
}

} // verus!
