//! Reactions to room messages: self-suppression, routing, and the steps of
//! the image command, whose failures stay with the one message.

use vstd::prelude::*;
use crate::router::{route, route_spec, same_text, CommandResult, RouteView};

verus! {

/// One received room message.
#[derive(Debug, Clone, PartialEq, Eq)]
pub struct InboundMessage {
    /// Who sent it.
    pub sender: String,
    /// The event that carried it, for replies to refer to.
    pub event_id: String,
    /// The body of a text message; `None` for every other kind of content.
    pub body: Option<String>,
}

/// The mathematical value of an `InboundMessage`.
pub struct MessageView {
    pub sender: Seq<char>,
    pub event_id: Seq<char>,
    pub body: Option<Seq<char>>,
}

impl View for InboundMessage {
    type V = MessageView;

    open spec fn view(&self) -> MessageView {
        MessageView {
            sender: self.sender@,
            event_id: self.event_id@,
            body: self.body.deep_view(),
        }
    }
}

/// What is done about one message.
#[derive(Debug, Clone, PartialEq, Eq)]
pub enum MessageAction {
    /// Nothing is sent.
    Ignore,
    /// A threaded reply with this text is sent to the message.
    SendText(String),
    /// An image is searched for, fetched and sent back (see `after_image_search`).
    FetchImage,
}

/// The mathematical value of a `MessageAction`.
pub enum ActionView {
    Ignore,
    SendText(Seq<char>),
    FetchImage,
}

impl View for MessageAction {
    type V = ActionView;

    open spec fn view(&self) -> ActionView {
        match self {
            MessageAction::Ignore => ActionView::Ignore,
            MessageAction::SendText(s) => ActionView::SendText(s@),
            MessageAction::FetchImage => ActionView::FetchImage,
        }
    }
}

/// What is done about message `m` when the bot is `own` (if known) and has
/// been up `secs` seconds.
pub open spec fn message_action(m: MessageView, own: Option<Seq<char>>, secs: nat) -> ActionView {
    match m.body {
        None => ActionView::Ignore,
        Some(b) => if own == Some(m.sender) {
            ActionView::Ignore
        } else {
            match route_spec(b, secs) {
                RouteView::NoMatch => ActionView::Ignore,
                RouteView::TextReply(t) => ActionView::SendText(t),
                RouteView::AttachmentReply => ActionView::FetchImage,
            }
        },
    }
}

/// Decides what to do about `msg`, given the bot's own identity as the
/// client knows it now and the seconds the bot has been up.
pub fn on_room_message(msg: &InboundMessage, own_id: &Option<String>, uptime_secs: u64) -> (r:
    MessageAction)
    ensures
        r@ == message_action(msg@, own_id.deep_view(), uptime_secs as nat),
{
    match &msg.body {
        None => MessageAction::Ignore,
        Some(body) => {
            let own = match own_id {
                Some(o) => same_text(o.as_str(), msg.sender.as_str()),
                None => false,
            };
            if own {
                MessageAction::Ignore
            } else {
                match route(body.as_str(), uptime_secs) {
                    CommandResult::NoMatch => MessageAction::Ignore,
                    CommandResult::TextReply(t) => MessageAction::SendText(t),
                    CommandResult::AttachmentReply => MessageAction::FetchImage,
                }
            }
        },
    }
}

/// A message whose sender is the bot itself is never answered, whatever its
/// body (`"ping"` included) and whatever the uptime.
pub proof fn lemma_own_message_ignored(m: MessageView, own: Seq<char>, secs: nat)
    requires
        m.sender == own,
    ensures
        message_action(m, Some(own), secs) == ActionView::Ignore,
{
}

/// Where the image search of one message finds nothing, that message's
/// image command fails with nothing to send; the next message, in the same
/// room or another, is then handled by the same rule as any other, since the
/// decision for a message depends on that message, the bot's identity and the
/// uptime alone.
pub proof fn lemma_empty_search_isolated(
    asked: MessageView,
    next: MessageView,
    own: Option<Seq<char>>,
    secs: nat,
)
    requires
        message_action(asked, own, secs) == ActionView::FetchImage,
    ensures
        image_search_outcome(Some(Seq::empty())) == Err::<Seq<char>, ImageError>(
            ImageError::EmptySearch,
        ),
        next.body is Some && own != Some(next.sender) ==> match route_spec(next.body->Some_0, secs) {
            RouteView::NoMatch => message_action(next, own, secs) == ActionView::Ignore,
            RouteView::TextReply(t) => message_action(next, own, secs) == ActionView::SendText(t),
            RouteView::AttachmentReply => message_action(next, own, secs) == ActionView::FetchImage,
        },
{
}

/// Why the image command failed for one message.
#[derive(PartialEq, Eq, Structural, Debug, Clone, Copy)]
pub enum ImageError {
    /// The image search could not be done.
    SearchFailed,
    /// The image search found nothing.
    EmptySearch,
    /// The image's bytes could not be fetched.
    DownloadFailed,
}

/// The outcome of the image search, given what it found (`None` where it failed).
pub open spec fn image_search_outcome(found: Option<Seq<Seq<char>>>) -> Result<Seq<char>, ImageError> {
    match found {
        None => Err(ImageError::SearchFailed),
        Some(urls) => if urls.len() == 0 {
            Err(ImageError::EmptySearch)
        } else {
            Ok(urls[0])
        },
    }
}

/// Picks the image to fetch from the search's result: the first URL found.
pub fn after_image_search(found: Option<Vec<String>>) -> (r: Result<String, ImageError>)
    ensures
        match r {
            Ok(u) => image_search_outcome(found.deep_view()) == Ok::<Seq<char>, ImageError>(u@),
            Err(e) => image_search_outcome(found.deep_view()) == Err::<Seq<char>, ImageError>(e),
        },
{
    match found {
        None => Err(ImageError::SearchFailed),
        Some(urls) => {
            if urls.len() == 0 {
                Err(ImageError::EmptySearch)
            } else {
                Ok(urls[0].clone())
            }
        },
    }
}

/// An image to send back, as a reply to the message that asked for it.
#[derive(Debug, Clone, PartialEq, Eq)]
pub struct Attachment {
    pub filename: String,
    pub mime_type: String,
    pub data: Vec<u8>,
    pub caption: String,
    /// The event of the message that asked for the image.
    pub reply_to: String,
}

/// The file name under which the image is sent.
pub open spec fn image_filename() -> Seq<char> {
    "cat.jpg"@
}

/// The media type of the image.
pub open spec fn image_mime_type() -> Seq<char> {
    "image/jpeg"@
}

/// The caption sent with the image.
pub open spec fn image_caption() -> Seq<char> {
    "Here is a cat."@
}

/// Packages the fetched image (`None` where the fetch failed) as a JPEG
/// attachment replying to `msg`.
pub fn after_image_download(msg: &InboundMessage, bytes: Option<Vec<u8>>) -> (r: Result<
    Attachment,
    ImageError,
>)
    ensures
        bytes is None <==> r == Err::<Attachment, ImageError>(ImageError::DownloadFailed),
        r is Err ==> r == Err::<Attachment, ImageError>(ImageError::DownloadFailed),
        r matches Ok(a) ==> {
            &&& a.data@ == bytes->Some_0@
            &&& a.filename@ == image_filename()
            &&& a.mime_type@ == image_mime_type()
            &&& a.caption@ == image_caption()
            &&& a.reply_to@ == msg.event_id@
        },
{
    match bytes {
        None => Err(ImageError::DownloadFailed),
        Some(data) => Ok(
            Attachment {
                filename: String::from_str("cat.jpg"),
                mime_type: String::from_str("image/jpeg"),
                data,
                caption: String::from_str("Here is a cat."),
                reply_to: msg.event_id.clone(),
            },
        ),
    }
}

} // verus!
