//! The per-guild record of queued tracks: what was enqueued, in order, with
//! the metadata the queue listing shows.

use std::collections::HashMap;
use vstd::prelude::*;

verus! {

broadcast use vstd::std_specs::hash::group_hash_axioms;

/// The user who asked for a track, as the queue listing shows them.
#[derive(Debug, PartialEq, Eq)]
pub struct Submitter {
    /// Account name.
    pub name: String,
    /// Display name, when the user set one.
    pub global_name: Option<String>,
    /// Avatar image URL (the user's avatar, or Discord's default one).
    pub avatar_url: String,
}

/// What the queue listing knows of one enqueued track.
#[derive(Debug, PartialEq, Eq)]
pub struct TrackMetadata {
    pub title: String,
    /// Length in whole seconds, when known.
    pub duration_secs: Option<u64>,
    pub thumbnail: Option<String>,
    pub user: Submitter,
}

impl Clone for Submitter {
    fn clone(&self) -> (r: Self)
        ensures
            r == *self,
    {
        let global_name = match &self.global_name {
            Some(g) => Some(g.clone()),
            None => None,
        };
        Submitter { name: self.name.clone(), global_name, avatar_url: self.avatar_url.clone() }
    }
}

impl Clone for TrackMetadata {
    fn clone(&self) -> (r: Self)
        ensures
            r == *self,
    {
        let thumbnail = match &self.thumbnail {
            Some(t) => Some(t.clone()),
            None => None,
        };
        TrackMetadata {
            title: self.title.clone(),
            duration_secs: self.duration_secs,
            thumbnail,
            user: self.user.clone(),
        }
    }
}

/// Every guild's queue of tracks, keyed by guild id.
pub struct QueueStore {
    queues: HashMap<u64, Vec<TrackMetadata>>,
}

impl View for QueueStore {
    type V = Map<u64, Seq<TrackMetadata>>;

    closed spec fn view(&self) -> Map<u64, Seq<TrackMetadata>> {
        self.queues@.map_values(|v: Vec<TrackMetadata>| v@)
    }
}

/// The tracks recorded for `guild` (none when the guild has no entry).
pub open spec fn queue_of(m: Map<u64, Seq<TrackMetadata>>, guild: u64) -> Seq<TrackMetadata> {
    if m.contains_key(guild) {
        m[guild]
    } else {
        Seq::empty()
    }
}

/// The store after `push`: the track goes to the back of the guild's queue,
/// which is created when missing.
pub open spec fn pushed(
    m: Map<u64, Seq<TrackMetadata>>,
    guild: u64,
    track: TrackMetadata,
) -> Map<u64, Seq<TrackMetadata>> {
    m.insert(guild, queue_of(m, guild).push(track))
}

/// The store after `pop_front`: an existing non-empty queue loses its first
/// track; anything else is left as it was (no entry is created).
pub open spec fn popped_front(m: Map<u64, Seq<TrackMetadata>>, guild: u64) -> Map<
    u64,
    Seq<TrackMetadata>,
> {
    if m.contains_key(guild) && m[guild].len() > 0 {
        m.insert(guild, m[guild].drop_first())
    } else {
        m
    }
}

/// The store after `keep_first`: an existing queue longer than one track is
/// cut down to its first track; anything else is left as it was.
pub open spec fn kept_first(m: Map<u64, Seq<TrackMetadata>>, guild: u64) -> Map<
    u64,
    Seq<TrackMetadata>,
> {
    if m.contains_key(guild) && m[guild].len() > 1 {
        m.insert(guild, m[guild].take(1))
    } else {
        m
    }
}

impl QueueStore {
    /// A store with no guilds in it.
    pub fn new() -> (s: QueueStore)
        ensures
            s@ == Map::<u64, Seq<TrackMetadata>>::empty(),
    {
        let s = QueueStore { queues: HashMap::new() };
        assert(s@ =~= Map::<u64, Seq<TrackMetadata>>::empty());
        s
    }
}

/// Adds a track to the back of a guild's queue.
pub fn push(store: &mut QueueStore, guild_id: u64, metadata: TrackMetadata)
    ensures
        final(store)@ == pushed(old(store)@, guild_id, metadata),
{
    let ghost before = store@;
    let mut queue = match store.queues.remove(&guild_id) {
        Some(q) => q,
        None => Vec::new(),
    };
    assert(queue@ == queue_of(before, guild_id));
    queue.push(metadata);
    store.queues.insert(guild_id, queue);
    assert(store@ =~= pushed(before, guild_id, metadata));
}

/// Drops the track at the front of a guild's queue, if there is one.
pub fn pop_front(store: &mut QueueStore, guild_id: u64)
    ensures
        final(store)@ == popped_front(old(store)@, guild_id),
{
    let ghost before = store@;
    if let Some(mut queue) = store.queues.remove(&guild_id) {
        assert(queue@ == before[guild_id]);
        if !queue.is_empty() {
            queue.remove(0);
            assert(queue@ =~= before[guild_id].drop_first());
        }
        store.queues.insert(guild_id, queue);
        assert(store@ =~= popped_front(before, guild_id));
    } else {
        assert(store@ =~= popped_front(before, guild_id));
    }
}

/// Cuts a guild's queue down to the track at its front.
pub fn keep_first(store: &mut QueueStore, guild_id: u64)
    ensures
        final(store)@ == kept_first(old(store)@, guild_id),
{
    let ghost before = store@;
    if let Some(mut queue) = store.queues.remove(&guild_id) {
        assert(queue@ == before[guild_id]);
        if queue.len() > 1 {
            queue.truncate(1);
            assert(queue@ =~= before[guild_id].take(1));
        }
        store.queues.insert(guild_id, queue);
        assert(store@ =~= kept_first(before, guild_id));
    } else {
        assert(store@ =~= kept_first(before, guild_id));
    }
}

/// Forgets a guild's queue entirely.
pub fn remove(store: &mut QueueStore, guild_id: u64)
    ensures
        final(store)@ == old(store)@.remove(guild_id),
{
    let ghost before = store@;
    store.queues.remove(&guild_id);
    assert(store@ =~= before.remove(guild_id));
}

/// A copy of a guild's queue, front first; empty for a guild with no entry.
pub fn get(store: &QueueStore, guild_id: u64) -> (tracks: Vec<TrackMetadata>)
    ensures
        tracks@ == queue_of(store@, guild_id),
{
    match store.queues.get(&guild_id) {
        Some(queue) => {
            let mut out: Vec<TrackMetadata> = Vec::new();
            let mut i: usize = 0;
            while i < queue.len()
                invariant
                    i <= queue.len(),
                    out@ == queue@.take(i as int),
                decreases queue.len() - i,
            {
                out.push(queue[i].clone());
                i += 1;
                assert(out@ =~= queue@.take(i as int));
            }
            assert(queue@.take(queue.len() as int) =~= queue@);
            out
        },
        None => Vec::new(),
    }
}


/// The store after pushing every track of `tracks` for `guild`, first to last.
pub open spec fn pushed_all(
    m: Map<u64, Seq<TrackMetadata>>,
    guild: u64,
    tracks: Seq<TrackMetadata>,
) -> Map<u64, Seq<TrackMetadata>>
    decreases tracks.len(),
{
    if tracks.len() == 0 {
        m
    } else {
        pushed(pushed_all(m, guild, tracks.drop_last()), guild, tracks.last())
    }
}

/// The store after `n` calls of `pop_front` for `guild`.
pub open spec fn popped_front_n(m: Map<u64, Seq<TrackMetadata>>, guild: u64, n: nat) -> Map<
    u64,
    Seq<TrackMetadata>,
>
    decreases n,
{
    if n == 0 {
        m
    } else {
        popped_front(popped_front_n(m, guild, (n - 1) as nat), guild)
    }
}

/// A track pushed for a guild is read back at the end of that guild's queue,
/// behind every track that was already there.
pub proof fn lemma_get_after_push(m: Map<u64, Seq<TrackMetadata>>, guild: u64, track: TrackMetadata)
    ensures
        queue_of(pushed(m, guild, track), guild) == queue_of(m, guild).push(track),
{
}

/// Each operation on one guild leaves the queue of every other guild as it was.
pub proof fn lemma_guilds_are_independent(
    m: Map<u64, Seq<TrackMetadata>>,
    guild: u64,
    other: u64,
    track: TrackMetadata,
)
    requires
        guild != other,
    ensures
        queue_of(pushed(m, guild, track), other) == queue_of(m, other),
        queue_of(popped_front(m, guild), other) == queue_of(m, other),
        queue_of(kept_first(m, guild), other) == queue_of(m, other),
        queue_of(m.remove(guild), other) == queue_of(m, other),
{
}

/// After `remove`, the guild's queue reads as empty.
pub proof fn lemma_get_after_remove(m: Map<u64, Seq<TrackMetadata>>, guild: u64)
    ensures
        queue_of(m.remove(guild), guild) == Seq::<TrackMetadata>::empty(),
{
}

/// Pushing tracks one by one appends them, in the order pushed, behind the
/// tracks already queued.
pub proof fn lemma_push_all_appends_in_order(
    m: Map<u64, Seq<TrackMetadata>>,
    guild: u64,
    tracks: Seq<TrackMetadata>,
)
    ensures
        queue_of(pushed_all(m, guild, tracks), guild) == queue_of(m, guild) + tracks,
    decreases tracks.len(),
{
    if tracks.len() > 0 {
        lemma_push_all_appends_in_order(m, guild, tracks.drop_last());
        assert(queue_of(m, guild) + tracks =~= (queue_of(m, guild) + tracks.drop_last()).push(
            tracks.last(),
        ));
    }
}

/// Popping `n` times from a queue removes exactly its first `n` tracks (or
/// all of them, when there are fewer): tracks leave in the order they came.
pub proof fn lemma_pops_remove_front_in_order(
    m: Map<u64, Seq<TrackMetadata>>,
    guild: u64,
    n: nat,
)
    ensures
        queue_of(popped_front_n(m, guild, n), guild) == if n <= queue_of(m, guild).len() {
            queue_of(m, guild).skip(n as int)
        } else {
            Seq::<TrackMetadata>::empty()
        },
    decreases n,
{
    if n > 0 {
        lemma_pops_remove_front_in_order(m, guild, (n - 1) as nat);
        let q = queue_of(m, guild);
        if n <= q.len() {
            assert(q.skip(n - 1).drop_first() =~= q.skip(n as int));
        } else if n - 1 == q.len() {
            assert(q.skip(q.len() as int) =~= Seq::<TrackMetadata>::empty());
        }
    }
}

/// Pushing at the back and popping at the front commute on a non-empty queue.
pub proof fn lemma_push_pop_commute(
    m: Map<u64, Seq<TrackMetadata>>,
    guild: u64,
    track: TrackMetadata,
)
    requires
        queue_of(m, guild).len() > 0,
    ensures
        popped_front(pushed(m, guild, track), guild) == pushed(popped_front(m, guild), guild, track),
{
    let q = queue_of(m, guild);
    assert(q.push(track).drop_first() =~= q.drop_first().push(track));
    assert(popped_front(pushed(m, guild, track), guild) =~= pushed(
        popped_front(m, guild),
        guild,
        track,
    ));
}

/// `keep_first` keeps exactly the front track (if any), and doing it twice is
/// the same as doing it once.
pub proof fn lemma_keep_first(m: Map<u64, Seq<TrackMetadata>>, guild: u64)
    ensures
        queue_of(kept_first(m, guild), guild) == if queue_of(m, guild).len() <= 1 {
            queue_of(m, guild)
        } else {
            queue_of(m, guild).take(1)
        },
        kept_first(kept_first(m, guild), guild) == kept_first(m, guild),
{
}

/// Once the queue is cut down to its front track, the end of that track
/// leaves the queue empty.
pub proof fn lemma_pop_after_keep_first_empties(m: Map<u64, Seq<TrackMetadata>>, guild: u64)
    ensures
        queue_of(popped_front(kept_first(m, guild), guild), guild) == Seq::<TrackMetadata>::empty(),
{
    let q = queue_of(m, guild);
    if q.len() > 1 {
        assert(q.take(1).drop_first() =~= Seq::<TrackMetadata>::empty());
    } else if q.len() == 1 {
        assert(q.drop_first() =~= Seq::<TrackMetadata>::empty());
    }
}

} // verus!
