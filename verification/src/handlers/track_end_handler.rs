//! What happens when tracks finish playing.

use vstd::prelude::*;

use crate::queue_store::{self, popped_front, QueueStore};

verus! {

/// The play state of a track, as the voice library reports it.
#[derive(Debug, Clone, Copy, PartialEq, Eq)]
pub enum PlayState {
    Play,
    Pause,
    Stop,
    End,
    Errored,
}

/// Every track the event reports has reached its end.
pub open spec fn all_ended(states: Seq<PlayState>) -> bool {
    forall|i: int| 0 <= i < states.len() ==> #[trigger] states[i] is End
}

/// Records a track-end event for a guild: when every reported track has
/// ended, the finished track leaves the front of the guild's queue. Returns
/// whether that happened (then the caller checks whether the call went idle).
pub fn on_track_end(store: &mut QueueStore, guild_id: u64, states: &Vec<PlayState>) -> (ended: bool)
    ensures
        ended == all_ended(states@),
        ended ==> final(store)@ == popped_front(old(store)@, guild_id),
        !ended ==> final(store)@ == old(store)@,
{
    let mut i: usize = 0;
    while i < states.len()
        invariant
            i <= states.len(),
            forall|k: int| 0 <= k < i ==> #[trigger] states@[k] is End,
        decreases states.len() - i,
    {
        match &states[i] {
            PlayState::End => {},
            _ => {
                return false;
            },
        }
        i += 1;
    }
    queue_store::pop_front(store, guild_id);
    true
}


/// A track that has not ended keeps the event from counting as the end of
/// the tracks, and adding ended tracks keeps an event that counts.
pub proof fn lemma_all_ended(states: Seq<PlayState>, i: int)
    ensures
        0 <= i < states.len() && !(states[i] is End) ==> !all_ended(states),
        all_ended(states) ==> all_ended(states.push(PlayState::End)),
        all_ended(Seq::<PlayState>::empty()),
{
    if all_ended(states) {
        let longer = states.push(PlayState::End);
        assert forall|k: int| 0 <= k < longer.len() implies #[trigger] longer[k] is End by {
            if k < states.len() {
                assert(longer[k] == states[k]);
            }
        }
    }
}

} // verus!
