//! Reactions to membership events: the bot joins a room it is invited to.

use vstd::prelude::*;
use crate::router::same_text;

verus! {

/// The bot's membership state in a room.
#[derive(PartialEq, Eq, Structural, Debug, Clone, Copy)]
pub enum Membership {
    Joined,
    Invited,
    Left,
    Knocked,
    Banned,
}

/// A membership event of a room.
pub struct InviteEvent {
    /// The identity that the event concerns.
    pub state_key: String,
    /// The bot's membership state in the event's room.
    pub membership: Membership,
}

/// What is done about a membership event.
#[derive(PartialEq, Eq, Structural, Debug, Clone, Copy)]
pub enum InviteAction {
    Ignore,
    /// One attempt to join the room.
    Join,
}

/// Whether the bot, `own` where known, joins on an event concerning
/// `state_key` in a room where its state is `membership`.
pub open spec fn invite_action(state_key: Seq<char>, membership: Membership, own: Option<Seq<char>>) -> InviteAction {
    if membership == Membership::Invited && own == Some(state_key) {
        InviteAction::Join
    } else {
        InviteAction::Ignore
    }
}

/// Decides what to do about a membership event, given the bot's own identity
/// as the client knows it now.
pub fn on_invite(ev: &InviteEvent, own_id: &Option<String>) -> (r: InviteAction)
    ensures
        r == invite_action(ev.state_key@, ev.membership, own_id.deep_view()),
{
    if ev.membership != Membership::Invited {
        return InviteAction::Ignore;
    }
    match own_id {
        Some(o) => if same_text(o.as_str(), ev.state_key.as_str()) {
            InviteAction::Join
        } else {
            InviteAction::Ignore
        },
        None => InviteAction::Ignore,
    }
}

/// An event concerning another identity never makes the bot join; nor does
/// one in a room where the bot is not invited; one that concerns the bot in a
/// room where it is invited gives exactly one join attempt.
pub proof fn lemma_invite_join_rule(state_key: Seq<char>, membership: Membership, own: Seq<char>)
    ensures
        state_key != own ==> invite_action(state_key, membership, Some(own)) == InviteAction::Ignore,
        membership != Membership::Invited ==> invite_action(state_key, membership, Some(own))
            == InviteAction::Ignore,
        state_key == own && membership == Membership::Invited ==> invite_action(
            state_key,
            membership,
            Some(own),
        ) == InviteAction::Join,
{
}

} // verus!
