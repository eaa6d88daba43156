//! The community-to-destination registry: where each community's presence
//! announcements are posted.
use std::collections::HashMap;
use vstd::prelude::*;
use vstd::string::StringExecFns;

verus! {

broadcast use vstd::std_specs::hash::group_hash_axioms;

/// The display name a text channel must carry, exactly and case-sensitively,
/// to be chosen as a community's announcement destination.
pub open spec fn designated_name() -> Seq<char> {
    "tutti"@
}

/// One text channel of a community, as the startup enumeration reports it:
/// its platform-assigned id and its display name.
#[derive(Clone, Debug)]
pub struct ChannelInfo {
    pub id: u64,
    pub name: String,
}

/// The id of the last channel in `channels` whose name is the designated
/// one, if any: on duplicate names, the last enumerated channel wins.
pub open spec fn last_designated(channels: Seq<ChannelInfo>) -> Option<u64>
    decreases channels.len(),
{
    if channels.len() == 0 {
        None
    } else if channels.last().name@ == designated_name() {
        Some(channels.last().id)
    } else {
        last_designated(channels.drop_last())
    }
}

/// The registry after one community's channel listing has been scanned:
/// unchanged when no channel carries the designated name, otherwise with the
/// last such channel registered for `community`.
pub open spec fn scanned(
    targets: Map<u64, u64>,
    community: u64,
    channels: Seq<ChannelInfo>,
) -> Map<u64, u64> {
    match last_designated(channels) {
        Some(channel) => targets.insert(community, channel),
        None => targets,
    }
}

/// The destination registered for `community`, if any.
pub open spec fn resolved(targets: Map<u64, u64>, community: u64) -> Option<u64> {
    if targets.contains_key(community) {
        Some(targets[community])
    } else {
        None
    }
}

/// Maps each community to the text channel designated to receive its
/// presence announcements. Populated when the gateway reports readiness and
/// only read afterwards; entries are never removed, a later scan can only
/// overwrite them.
pub struct NotificationRouter {
    notified: HashMap<u64, u64>,
}

impl NotificationRouter {
    /// The registered destinations, one entry per community.
    pub closed spec fn targets(self) -> Map<u64, u64> {
        self.notified@
    }

    /// A registry with no destination registered for any community.
    pub fn new() -> (router: NotificationRouter)
        ensures
            router.targets() == Map::<u64, u64>::empty(),
    {
        NotificationRouter { notified: HashMap::new() }
    }

    /// Register `channel` as the destination for `community`, overwriting
    /// any earlier registration: the last write for a community wins.
    pub fn register(&mut self, community: u64, channel: u64)
        ensures
            final(self).targets() == old(self).targets().insert(community, channel),
    {
        self.notified.insert(community, channel);
    }

    /// Look up the destination for `community`. Returns `None` when the
    /// community has no registered destination; that is not an error, the
    /// caller simply drops the announcement.
    pub fn resolve(&self, community: u64) -> (destination: Option<u64>)
        ensures
            destination == resolved(self.targets(), community),
    {
        match self.notified.get(&community) {
            Some(channel) => Some(*channel),
            None => None,
        }
    }

    /// Scan one community's channel listing, as the startup enumeration
    /// produced it, and register the last channel whose name is exactly the
    /// designated one. A listing without such a channel leaves the community
    /// as it was.
    pub fn register_matching(&mut self, community: u64, channels: &Vec<ChannelInfo>)
        ensures
            final(self).targets() == scanned(old(self).targets(), community, channels@),
    {
        let designated: String = String::from_str("tutti");
        let mut i: usize = 0;
        while i < channels.len()
            invariant
                i <= channels@.len(),
                designated@ == designated_name(),
                self.targets() == scanned(old(self).targets(), community, channels@.take(i as int)),
            decreases channels@.len() - i,
        {
            let channel = &channels[i];
            proof {
                assert(channels@.take(i + 1) =~= channels@.take(i as int).push(channels@[i as int]));
                lemma_last_designated_push(channels@.take(i as int), channels@[i as int]);
            }
            if channel.name == designated {
                self.register(community, channel.id);
                proof {
                    assert(self.targets() =~= old(self).targets().insert(community, channel.id));
                }
            }
            i = i + 1;
        }
        proof {
            assert(channels@.take(channels@.len() as int) =~= channels@);
        }
    }
}

/// Appending one channel to a listing changes its chosen destination only
/// when that channel carries the designated name, in which case it wins.
proof fn lemma_last_designated_push(channels: Seq<ChannelInfo>, channel: ChannelInfo)
    ensures
        last_designated(channels.push(channel)) == (if channel.name@ == designated_name() {
            Some(channel.id)
        } else {
            last_designated(channels)
        }),
{
    assert(channels.push(channel).last() == channel);
    assert(channels.push(channel).drop_last() =~= channels);
}

/// Before any registration a community resolves to nothing, and after one or
/// more registrations for the same community the most recent one wins.
pub proof fn lemma_last_registration_wins(targets: Map<u64, u64>, community: u64, channel: u64)
    ensures
        resolved(Map::<u64, u64>::empty(), community) is None,
        resolved(targets.insert(community, channel), community) == Some(channel),
{
}

/// Registering a destination for one community never disturbs what any
/// other community resolves to.
pub proof fn lemma_register_isolates_communities(
    targets: Map<u64, u64>,
    community: u64,
    channel: u64,
    other: u64,
)
    requires
        other != community,
    ensures
        resolved(targets.insert(community, channel), other) == resolved(targets, other),
{
}

} // verus!
