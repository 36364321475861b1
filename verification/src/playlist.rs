//! The playlist advancer: a flattened, ordered list of items with a
//! cursor, and the decision taken between titles once a playback run
//! reports its outcome.

use vstd::prelude::*;

use crate::items::Item;

verus! {

/// A flattened, playback-ordered list of items and a cursor that is
/// always a valid index or one past the end.
#[derive(Clone, Debug)]
pub struct Playlist {
    pub items: Vec<Item>,
    pub cursor: usize,
}

/// The first unwatched position at or after `from`, skipping items
/// already marked played.
pub open spec fn spec_next_unwatched(items: Seq<Item>, from: int) -> Option<int>
    decreases items.len() - from,
{
    if from < 0 || from >= items.len() {
        None
    } else if !items[from].UserData.Played {
        Some(from)
    } else {
        spec_next_unwatched(items, from + 1)
    }
}

/// What the advancer decides once a playback run ends.  The prompt
/// variants carry the position the playlist would continue at.
#[derive(Clone, Copy, Debug, PartialEq, Eq, Structural)]
pub enum NextAction {
    /// The title was watched, autoplay is on and an unwatched item
    /// follows: continue there after a short cancellable countdown.
    AutoAdvance { next: usize },
    /// The title was not watched through: offer finish-current,
    /// mark-watched-and-skip, play-next-anyway (where a next item
    /// exists), return-to-menu and exit.
    PromptFinish { next: Option<usize> },
    /// The title was watched but autoplay is off: offer play-next,
    /// return-to-menu and exit.
    PromptNext { next: usize },
    /// Nothing unwatched is left: the playlist ends and control returns
    /// to the menu.
    EndOfPlaylist,
}

impl Playlist {
    /// The cursor is a valid index or one past the end.
    pub open spec fn wf(self) -> bool {
        self.cursor <= self.items@.len()
    }

    /// The next unwatched position after the cursor, as the advancer
    /// sees it.
    pub open spec fn spec_next(self) -> Option<int> {
        spec_next_unwatched(self.items@, self.cursor + 1)
    }
}

/// The decision the advancer owes for a playlist and an outcome.
pub open spec fn spec_advance(p: Playlist, watched: bool, autoplay: bool) -> NextAction {
    match p.spec_next() {
        Some(n) => if !watched {
            NextAction::PromptFinish { next: Some(n as usize) }
        } else if autoplay {
            NextAction::AutoAdvance { next: n as usize }
        } else {
            NextAction::PromptNext { next: n as usize }
        },
        None => if !watched {
            NextAction::PromptFinish { next: None }
        } else {
            NextAction::EndOfPlaylist
        },
    }
}

/// The playlist state after the decision: only an automatic advance
/// moves the cursor; every other decision leaves the playlist alone
/// until the user chooses.
pub open spec fn spec_apply_advance(p: Playlist, watched: bool, autoplay: bool) -> Playlist {
    match spec_advance(p, watched, autoplay) {
        NextAction::AutoAdvance { next } => Playlist { items: p.items, cursor: next },
        _ => p,
    }
}

impl Playlist {
    /// The first unwatched position at or after `from`.
    pub fn next_unwatched(&self, from: usize) -> (r: Option<usize>)
        ensures
            r == match spec_next_unwatched(self.items@, from as int) {
                Some(i) => Some(i as usize),
                None => None::<usize>,
            },
            r matches Some(i) ==> from <= i < self.items@.len() && !self.items@[
                i as int
            ].UserData.Played,
    {
        let mut i: usize = from;
        while i < self.items.len()
            invariant
                from <= i,
                spec_next_unwatched(self.items@, from as int) == spec_next_unwatched(
                    self.items@,
                    i as int,
                ),
            decreases self.items@.len() - i,
        {
            if !self.items[i].UserData.Played {
                return Some(i);
            }
            i += 1;
        }
        None
    }

    /// Decides what happens after a playback run on the current item
    /// reported its outcome, and moves the cursor when the decision is
    /// an automatic advance.  An ended playlist stays exactly as it is,
    /// so deciding again yields the end again.
    pub fn advance(&mut self, watched: bool, autoplay: bool) -> (a: NextAction)
        requires
            old(self).wf(),
        ensures
            final(self).wf(),
            a == spec_advance(*old(self), watched, autoplay),
            *final(self) == spec_apply_advance(*old(self), watched, autoplay),
    {
        let next = if self.cursor < usize::MAX {
            self.next_unwatched(self.cursor + 1)
        } else {
            proof {
                assert(self.items@.len() == self.items.len());
                assert(spec_next_unwatched(self.items@, self.cursor + 1) is None);
            }
            None
        };
        match next {
            Some(n) => {
                if !watched {
                    NextAction::PromptFinish { next: Some(n) }
                } else if autoplay {
                    self.cursor = n;
                    NextAction::AutoAdvance { next: n }
                } else {
                    NextAction::PromptNext { next: n }
                }
            },
            None => {
                if !watched {
                    NextAction::PromptFinish { next: None }
                } else {
                    NextAction::EndOfPlaylist
                }
            },
        }
    }

    /// Moves the cursor to a chosen position (or one past the end).
    pub fn jump_to(&mut self, index: usize)
        requires
            index <= old(self).items@.len(),
        ensures
            final(self).items == old(self).items,
            final(self).cursor == index,
            final(self).wf(),
    {
        self.cursor = index;
    }

    /// Reflects a played / unplayed mark on one item locally, so the
    /// playlist matches the optimistic state sent to the server.
    pub fn set_played(&mut self, index: usize, played: bool)
        requires
            index < old(self).items@.len(),
        ensures
            final(self).cursor == old(self).cursor,
            final(self).items@.len() == old(self).items@.len(),
            final(self).items@[index as int].UserData.Played == played,
            final(self).items@[index as int].UserData.PlaybackPositionTicks == old(
                self,
            ).items@[index as int].UserData.PlaybackPositionTicks,
            final(self).items@[index as int].UserData.PlayedPercentage == old(self).items@[
                index as int
            ].UserData.PlayedPercentage,
            forall|f: int| #![all_triggers]
                0 <= f < old(self).items@.len() && f != index ==> final(self).items@[f] == old(
                    self,
                ).items@[f],
            forall|f: int| #![all_triggers]
                0 <= f < old(self).items@.len() ==> final(self).items@[f].Id == old(
                    self,
                ).items@[f].Id,
    {
        self.items[index].UserData.Played = played;
    }
}

/// Advancing a playlist that has ended changes nothing, and advancing
/// it again with the same outcome ends it again: the end of a playlist
/// is a fixed point of the advancer.
pub proof fn lemma_advance_idempotent_at_end(p: Playlist, watched: bool, autoplay: bool)
    requires
        spec_advance(p, watched, autoplay) is EndOfPlaylist,
    ensures
        spec_apply_advance(p, watched, autoplay) == p,
        spec_advance(spec_apply_advance(p, watched, autoplay), watched, autoplay)
            is EndOfPlaylist,
{
}

} // verus!
