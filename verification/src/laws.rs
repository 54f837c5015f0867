//! Laws of the connection table, proved over the manager's transitions.
//!
//! Each lemma states a guarantee of the join/leave/deliver lifecycle that
//! spans more than one operation, in terms of the same spec functions the
//! operations' own contracts use.

use vstd::prelude::*;

use crate::errors::VoiceJoinError;
use crate::events::TrackErrorEvent;
use crate::manager::JoinStart;
use crate::manager::VoiceConnection;
use crate::manager::VoiceManager;
use crate::manager::spec_deliver;
use crate::manager::spec_join_begin;
use crate::manager::spec_join_complete;
use crate::manager::spec_leave;

verus! {

/// The table after a whole join of `guild_id` to `channel_id` — a
/// `join_begin` followed, where the begin asked for transport work, by a
/// `join_complete` reporting that the handshake succeeded.
pub open spec fn spec_join_settled(
    t: Map<u64, VoiceConnection>,
    guild_id: u64,
    channel_id: u64,
) -> Map<u64, VoiceConnection> {
    let (t1, r1) = spec_join_begin(t, guild_id, channel_id, true, true);
    if r1 == Ok::<JoinStart, VoiceJoinError>(JoinStart::AlreadyJoined) {
        t1
    } else {
        spec_join_complete(t1, guild_id, true).0
    }
}

/// Join is idempotent: once a join of guild `g` to channel `c` has
/// settled, the table has a connection for `g` targeting `c`, a second
/// `join_begin` of `g` to `c` reports that existing connection unchanged,
/// and a second whole join leaves the table exactly as it was.
pub proof fn lemma_join_idempotent(t: Map<u64, VoiceConnection>, guild_id: u64, channel_id: u64)
    ensures
        ({
            let t1 = spec_join_settled(t, guild_id, channel_id);
            &&& t1.contains_key(guild_id)
            &&& t1[guild_id].channel_id == channel_id
            &&& spec_join_begin(t1, guild_id, channel_id, true, true) == (
                t1,
                Ok::<JoinStart, VoiceJoinError>(JoinStart::AlreadyJoined),
            )
            &&& spec_join_settled(t1, guild_id, channel_id) == t1
        }),
{
}

/// Moving a guild between channels: after a join of guild `g` to `c1` and
/// then one to `c2`, the table holds exactly one connection for `g` — the
/// map is keyed by guild, so one key can never hold two — and it targets
/// `c2` in the `Connected` state, while every other guild's entry is
/// exactly what it was before either join.
pub proof fn lemma_join_moves_channel(
    t: Map<u64, VoiceConnection>,
    guild_id: u64,
    c1: u64,
    c2: u64,
)
    requires
        c1 != c2,
    ensures
        ({
            let t1 = spec_join_settled(t, guild_id, c1);
            let t2 = spec_join_settled(t1, guild_id, c2);
            &&& t2.contains_key(guild_id)
            &&& t2[guild_id].channel_id == c2
            &&& t2[guild_id].state is Connected
            &&& t2.dom() == t1.dom()
            &&& forall|g: u64|
                g != guild_id ==> (#[trigger] t2.contains_key(g) <==> t.contains_key(g))
            &&& forall|g: u64|
                g != guild_id && t.contains_key(g) ==> #[trigger] t2[g] == t[g]
        }),
{
    let t1 = spec_join_settled(t, guild_id, c1);
    let t2 = spec_join_settled(t1, guild_id, c2);
    assert(t2.dom() =~= t1.dom());
}

/// A leave cancels an in-flight join for its guild: once the entry is
/// removed, the transport's late completion is refused and the table is
/// left exactly as the leave left it.
pub proof fn lemma_leave_cancels_pending_join(
    t: Map<u64, VoiceConnection>,
    guild_id: u64,
    connected: bool,
)
    ensures
        ({
            let t1 = spec_leave(t, guild_id);
            spec_join_complete(t1, guild_id, connected) == (
                t1,
                Err::<(), VoiceJoinError>(VoiceJoinError::Cancelled),
            )
        }),
{
}

/// One event invokes at most one observer in the whole table: no two live
/// sessions play the same track, so if delivering an event on one guild's
/// bus invokes an observer, delivering the same event on any other guild's
/// bus invokes none.
pub proof fn lemma_event_invokes_at_most_one_observer(
    m: VoiceManager,
    g1: u64,
    g2: u64,
    event: TrackErrorEvent,
)
    requires
        m.wf(),
        g1 != g2,
    ensures
        spec_deliver(m@, g1, event) is Some ==> spec_deliver(m@, g2, event) is None,
{
}

/// Delivery is local to one guild's bus: inserting, replacing or removing
/// another guild's connection does not change which observer an event
/// delivered for this guild invokes.
pub proof fn lemma_deliver_local(
    t: Map<u64, VoiceConnection>,
    guild_id: u64,
    event: TrackErrorEvent,
    other: u64,
    c: VoiceConnection,
)
    requires
        other != guild_id,
    ensures
        spec_deliver(t.insert(other, c), guild_id, event) == spec_deliver(t, guild_id, event),
        spec_deliver(t.remove(other), guild_id, event) == spec_deliver(t, guild_id, event),
{
}

} // verus!
