//! The dispatch step: feed one raw gateway event through the presence state
//! machine, look up the community's destination, and render the announcement
//! to send, if any.
use crate::presence::{emitted, step, Direction, PresenceTracker};
use crate::router::NotificationRouter;
use vstd::prelude::*;
use vstd::string::StringExecFns;

verus! {

/// One voice-state-update event, reduced to the plain values the core needs:
/// the user it concerns, that user's display name, the community it happened
/// in (absent events are ignored for notification purposes), and the voice
/// channel the user now occupies, if any. A mute or deafen toggle re-fires
/// this event with `channel` unchanged.
#[derive(Clone, Debug)]
pub struct VoiceEvent {
    pub user: u64,
    pub display_name: String,
    pub community: Option<u64>,
    pub channel: Option<u64>,
}

/// One announcement the host program is asked to send: the destination text
/// channel and the message text.
#[derive(Clone, Debug)]
pub struct Announcement {
    pub channel: u64,
    pub text: String,
}

/// The text announced for a transition of `direction` by a user displayed
/// as `name`.
pub open spec fn announcement_text(name: Seq<char>, direction: Direction) -> Seq<char> {
    match direction {
        Direction::Joined => name + " joined"@,
        Direction::Left => name + " left"@,
    }
}

/// The announcement (destination channel and text) that one event calls
/// for, given the occupancy flags and registered destinations at the time:
/// none when the transition is suppressed, when the event names no
/// community, or when its community has no registered destination.
pub open spec fn announced(
    flags: Map<u64, bool>,
    targets: Map<u64, u64>,
    event: VoiceEvent,
) -> Option<(u64, Seq<char>)> {
    match emitted(flags, event.user, event.channel is Some) {
        None => None,
        Some(direction) => match event.community {
            None => None,
            Some(community) => if targets.contains_key(community) {
                Some((targets[community], announcement_text(event.display_name@, direction)))
            } else {
                None
            },
        },
    }
}

/// Feed one voice-state-update event through the tracker and, when a real
/// transition for a registered community results, produce the announcement
/// to send. The occupancy flag is updated even when no announcement
/// results; an event without a community still updates it and is otherwise
/// ignored. Sending, and any transport failure, is the caller's business:
/// the transition commits regardless.
pub fn handle_voice_event(
    tracker: &mut PresenceTracker,
    router: &NotificationRouter,
    event: &VoiceEvent,
) -> (outcome: Option<Announcement>)
    ensures
        final(tracker).flags() == step(old(tracker).flags(), event.user, event.channel is Some),
        (outcome is Some) == (announced(old(tracker).flags(), router.targets(), *event) is Some),
        outcome matches Some(a) ==> (announced(old(tracker).flags(), router.targets(), *event)
            matches Some(expected) && a.channel == expected.0 && a.text@ == expected.1),
{
    let transition = tracker.process(event.user, event.channel.is_some());
    match transition {
        None => None,
        Some(direction) => match event.community {
            None => None,
            Some(community) => match router.resolve(community) {
                None => None,
                Some(channel) => {
                    let mut text = event.display_name.clone();
                    match direction {
                        Direction::Joined => text.append(" joined"),
                        Direction::Left => text.append(" left"),
                    }
                    Some(Announcement { channel, text })
                },
            },
        },
    }
}

} // verus!
