use crate::song::{Song, SongView};
use std::collections::VecDeque;
use vstd::prelude::*;

verus! {

/// One place in the listening queue: a song, and whether it is the one
/// marked as current.
#[derive(Debug)]
pub struct QueueEntry {
    pub song: Song,
    pub is_current: bool,
}

/// What a `QueueEntry` holds, as plain mathematical values.
pub struct QueueEntryView {
    pub song: SongView,
    pub is_current: bool,
}

impl View for QueueEntry {
    type V = QueueEntryView;

    open spec fn view(&self) -> QueueEntryView {
        QueueEntryView { song: self.song@, is_current: self.is_current }
    }
}

impl Clone for QueueEntry {
    fn clone(&self) -> (copy: Self)
        ensures
            copy@ == self@,
    {
        QueueEntry { song: self.song.clone(), is_current: self.is_current }
    }
}

/// The listening queue as a mathematical value: the entries in their order,
/// and the index of the entry that playback is at.
pub struct QueueView {
    pub entries: Seq<QueueEntryView>,
    pub playback_index: nat,
}

impl QueueView {
    /// The queue's invariant: at most one entry is marked as current, and
    /// the playback index points at an entry unless the queue is empty, where
    /// it is 0.
    pub open spec fn wf(self) -> bool {
        &&& self.entries.len() > 0 ==> self.playback_index < self.entries.len()
        &&& self.entries.len() == 0 ==> self.playback_index == 0
        &&& forall|i: int, j: int|
            0 <= i < self.entries.len() && 0 <= j < self.entries.len() && (
            #[trigger] self.entries[i]).is_current && (#[trigger] self.entries[j]).is_current ==> i
                == j
    }

    /// The queue without entries.
    pub open spec fn empty() -> QueueView {
        QueueView { entries: Seq::empty(), playback_index: 0 }
    }

    /// `song` as a queue entry that is not current.
    pub open spec fn entry_for(song: SongView) -> QueueEntryView {
        QueueEntryView { song, is_current: false }
    }

    /// The queue with `song` added behind the last entry.
    pub open spec fn push_back(self, song: SongView) -> QueueView {
        QueueView { entries: self.entries.push(Self::entry_for(song)), ..self }
    }

    /// The queue with `song` added before the first entry. The playback index
    /// keeps its value.
    pub open spec fn push_front(self, song: SongView) -> QueueView {
        QueueView { entries: seq![Self::entry_for(song)] + self.entries, ..self }
    }

    /// Whether `from` and `to` are both places of the queue.
    pub open spec fn can_reorder(self, from: int, to: int) -> bool {
        0 <= from < self.entries.len() && 0 <= to < self.entries.len()
    }

    /// The queue with the entry at `from` taken out and put back so that it
    /// stands at `to`; the queue itself where either is no place of it.
    pub open spec fn reorder(self, from: int, to: int) -> QueueView {
        if self.can_reorder(from, to) {
            QueueView {
                entries: self.entries.remove(from).insert(to, self.entries[from]),
                ..self
            }
        } else {
            self
        }
    }

    /// The queue with the entry at `index` marked as current and every other
    /// entry not; with no entry marked where `index` is no place of it.
    pub open spec fn mark_current(self, index: int) -> QueueView {
        QueueView {
            entries: Seq::new(
                self.entries.len(),
                |i: int| QueueEntryView { song: self.entries[i].song, is_current: i == index },
            ),
            ..self
        }
    }

    /// The queue with the playback index moved one entry on, and left where
    /// it is on the last entry and in the empty queue.
    pub open spec fn step_forward(self) -> QueueView {
        if self.playback_index + 1 < self.entries.len() {
            QueueView { playback_index: self.playback_index + 1, ..self }
        } else {
            self
        }
    }

    /// The queue with the playback index moved one entry back, and left where
    /// it is on the first entry.
    pub open spec fn step_back(self) -> QueueView {
        if self.playback_index > 0 {
            QueueView { playback_index: (self.playback_index - 1) as nat, ..self }
        } else {
            self
        }
    }

    /// The entry that the playback index points at, if there is one.
    pub open spec fn current(self) -> Option<QueueEntryView> {
        if self.playback_index < self.entries.len() {
            Some(self.entries[self.playback_index as int])
        } else {
            None
        }
    }

}

/// The views of the entries of a deque, in the same order.
spec fn entry_views(entries: Seq<QueueEntry>) -> Seq<QueueEntryView> {
    Seq::new(entries.len(), |i: int| entries[i]@)
}

/// The listening queue: the songs to play, in order, with the index of the
/// one that playback is at.
pub struct Queue {
    entries: VecDeque<QueueEntry>,
    playback_index: usize,
}

impl View for Queue {
    type V = QueueView;

    closed spec fn view(&self) -> QueueView {
        QueueView {
            entries: entry_views(self.entries@),
            playback_index: self.playback_index as nat,
        }
    }
}

impl Queue {
    /// Every value of the type meets the invariant.
    #[verifier::type_invariant]
    pub open spec fn inv(self) -> bool {
        self@.wf()
    }

    /// An empty queue.
    pub fn new() -> (queue: Queue)
        ensures
            queue@ == QueueView::empty(),
            queue@.wf(),
    {
        let entries: VecDeque<QueueEntry> = VecDeque::new();
        assert(entry_views(entries@) =~= Seq::empty());
        Queue { entries, playback_index: 0 }
    }

    /// Takes the entries and the index out of the queue and leaves it empty.
    fn take(&mut self) -> (parts: (VecDeque<QueueEntry>, usize))
        ensures
            entry_views(parts.0@) == old(self)@.entries,
            parts.1 == old(self)@.playback_index,
            old(self)@.wf(),
            final(self)@ == QueueView::empty(),
    {
        proof {
            use_type_invariant(&*self);
        }
        let mut taken = Queue::new();
        std::mem::swap(self, &mut taken);
        let Queue { entries, playback_index } = taken;
        (entries, playback_index)
    }

    /// The number of entries.
    pub fn len(&self) -> (len: usize)
        ensures
            len == self@.entries.len(),
    {
        self.entries.len()
    }

    /// The index of the entry that playback is at.
    pub fn playback_index(&self) -> (index: usize)
        ensures
            index == self@.playback_index,
            self@.wf(),
    {
        proof {
            use_type_invariant(self);
        }
        self.playback_index
    }

    /// The entry at `index`, if there is one.
    pub fn get(&self, index: usize) -> (entry: Option<&QueueEntry>)
        ensures
            entry.is_some() == (index < self@.entries.len()),
            entry matches Some(e) ==> e@ == self@.entries[index as int],
    {
        if index < self.entries.len() {
            Some(&self.entries[index])
        } else {
            None
        }
    }

    /// The entry that playback is at, if the queue has any.
    pub fn current(&self) -> (entry: Option<&QueueEntry>)
        ensures
            match entry {
                Some(e) => self@.current() == Some(e@),
                None => self@.current() is None,
            },
    {
        self.get(self.playback_index)
    }

    /// Adds `song` behind the last entry, not marked as current.
    pub fn push_back(&mut self, song: Song)
        ensures
            final(self)@ == old(self)@.push_back(song@),
            final(self)@.wf(),
    {
        let (mut entries, playback_index) = self.take();
        entries.push_back(QueueEntry { song, is_current: false });
        proof {
            assert(entry_views(entries@) =~= old(self)@.push_back(song@).entries);
            old(self)@.lemma_push_back_wf(song@);
        }
        *self = Queue { entries, playback_index };
    }

    /// Adds `song` before the first entry, not marked as current. The
    /// playback index keeps its value.
    pub fn push_front(&mut self, song: Song)
        ensures
            final(self)@ == old(self)@.push_front(song@),
            final(self)@.wf(),
    {
        let (mut entries, playback_index) = self.take();
        entries.push_front(QueueEntry { song, is_current: false });
        proof {
            assert(entry_views(entries@) =~= old(self)@.push_front(song@).entries);
            old(self)@.lemma_push_front_wf(song@);
        }
        *self = Queue { entries, playback_index };
    }

    /// Moves the entry at `from` so that it stands at `to`, with its mark,
    /// and says whether it did: it does nothing where `from` or `to` is no
    /// place of the queue.
    pub fn reorder(&mut self, from: usize, to: usize) -> (moved: bool)
        ensures
            moved == old(self)@.can_reorder(from as int, to as int),
            final(self)@ == old(self)@.reorder(from as int, to as int),
            final(self)@.wf(),
    {
        let (mut entries, playback_index) = self.take();
        let ghost before = entries@;
        let mut moved = false;
        if from < entries.len() && to < entries.len() {
            match entries.remove(from) {
                Some(entry) => {
                    entries.insert(to, entry);
                    moved = true;
                    assert(entry_views(entries@) =~= old(self)@.reorder(
                        from as int,
                        to as int,
                    ).entries);
                },
                None => {},
            }
        }
        proof {
            old(self)@.lemma_reorder_wf(from as int, to as int);
        }
        *self = Queue { entries, playback_index };
        moved
    }

    /// Marks the entry at `index` as current and every other entry as not;
    /// marks none where `index` is no place of the queue.
    pub fn mark_current(&mut self, index: usize)
        ensures
            final(self)@ == old(self)@.mark_current(index as int),
            final(self)@.wf(),
    {
        let (mut entries, playback_index) = self.take();
        let ghost before = entry_views(entries@);
        let ghost target = old(self)@.mark_current(index as int).entries;
        assert(before.len() == entries.len());
        let mut marked: VecDeque<QueueEntry> = VecDeque::new();
        let mut i: usize = 0;
        while entries.len() > 0
            invariant
                before == old(self)@.entries,
                target == old(self)@.mark_current(index as int).entries,
                i + entries@.len() == before.len(),
                marked@.len() == i,
                before.len() <= usize::MAX,
                entry_views(entries@) == before.skip(i as int),
                entry_views(marked@) == target.take(i as int),
            decreases entries@.len(),
        {
            let ghost waiting = entries@;
            let ghost done = marked@;
            match entries.pop_front() {
                Some(entry) => {
                    assert(entry@ == entry_views(waiting)[0]);
                    assert(entry@ == before[i as int]);
                    marked.push_back(QueueEntry { song: entry.song, is_current: i == index });
                    assert forall|k: int| 0 <= k < entries@.len() implies entry_views(
                        entries@,
                    )[k] == before.skip(i + 1)[k] by {
                        assert(entries@[k] == waiting[k + 1]);
                        assert(entry_views(waiting)[k + 1] == before.skip(i as int)[k + 1]);
                    }
                    assert(entry_views(entries@) =~= before.skip(i + 1));
                    assert forall|k: int| 0 <= k < marked@.len() implies entry_views(
                        marked@,
                    )[k] == target.take(i + 1)[k] by {
                        if k < i {
                            assert(marked@[k] == done[k]);
                            assert(entry_views(done)[k] == target.take(i as int)[k]);
                        }
                    }
                    assert(entry_views(marked@) =~= target.take(i + 1));
                    i += 1;
                },
                None => {},
            }
        }
        proof {
            assert(entry_views(marked@) =~= target);
            old(self)@.lemma_mark_current_wf(index as int);
        }
        *self = Queue { entries: marked, playback_index };
    }

    /// Moves the playback index one entry on; leaves it where it is on the
    /// last entry and in the empty queue.
    pub fn step_forward(&mut self)
        ensures
            final(self)@ == old(self)@.step_forward(),
            final(self)@.wf(),
    {
        let (entries, playback_index) = self.take();
        let next: usize = if playback_index < entries.len() && playback_index + 1 < entries.len() {
            playback_index + 1
        } else {
            playback_index
        };
        *self = Queue { entries, playback_index: next };
    }

    /// Moves the playback index one entry back; leaves it where it is on the
    /// first entry.
    pub fn step_back(&mut self)
        ensures
            final(self)@ == old(self)@.step_back(),
            final(self)@.wf(),
    {
        let (entries, playback_index) = self.take();
        let previous: usize = if playback_index > 0 {
            playback_index - 1
        } else {
            playback_index
        };
        *self = Queue { entries, playback_index: previous };
    }
}

impl QueueView {
    /// Adding a song at the back keeps the invariant.
    pub proof fn lemma_push_back_wf(self, song: SongView)
        requires
            self.wf(),
        ensures
            self.push_back(song).wf(),
    {
    }

    /// Adding a song at the front keeps the invariant.
    pub proof fn lemma_push_front_wf(self, song: SongView)
        requires
            self.wf(),
        ensures
            self.push_front(song).wf(),
    {
        let after = self.push_front(song);
        assert forall|i: int, j: int|
            0 <= i < after.entries.len() && 0 <= j < after.entries.len() && (
            #[trigger] after.entries[i]).is_current && (
            #[trigger] after.entries[j]).is_current implies i == j by {
            assert(after.entries[i] == self.entries[i - 1]);
            assert(after.entries[j] == self.entries[j - 1]);
        }
    }

    /// Moving an entry keeps the invariant.
    pub proof fn lemma_reorder_wf(self, from: int, to: int)
        requires
            self.wf(),
        ensures
            self.reorder(from, to).wf(),
    {
        if self.can_reorder(from, to) {
            let without = self.entries.remove(from);
            let after = self.reorder(from, to);
            // Where each entry of the new order stood in the old one.
            let origin = |i: int|
                if i == to {
                    from
                } else {
                    let k = if i < to {
                        i
                    } else {
                        i - 1
                    };
                    if k < from {
                        k
                    } else {
                        k + 1
                    }
                };
            assert forall|i: int| 0 <= i < after.entries.len() implies #[trigger] after.entries[i]
                == self.entries[origin(i)] && 0 <= origin(i) < self.entries.len() by {}
            assert forall|i: int, j: int|
                0 <= i < after.entries.len() && 0 <= j < after.entries.len() && (
                #[trigger] after.entries[i]).is_current && (
                #[trigger] after.entries[j]).is_current implies i == j by {
                assert(self.entries[origin(i)].is_current);
                assert(self.entries[origin(j)].is_current);
                assert(origin(i) == origin(j));
            }
        }
    }

    /// Marking an entry as current keeps the invariant.
    pub proof fn lemma_mark_current_wf(self, index: int)
        requires
            self.wf(),
        ensures
            self.mark_current(index).wf(),
    {
    }

    /// Moving the playback index keeps the invariant.
    pub proof fn lemma_step_wf(self)
        requires
            self.wf(),
        ensures
            self.step_forward().wf(),
            self.step_back().wf(),
    {
    }

    /// In a queue that meets the invariant no two entries are marked as
    /// current.
    pub proof fn lemma_at_most_one_current(self, i: int, j: int)
        requires
            self.wf(),
            0 <= i < self.entries.len(),
            0 <= j < self.entries.len(),
            self.entries[i].is_current,
            self.entries[j].is_current,
        ensures
            i == j,
    {
    }

    /// In a queue that meets the invariant and has entries, the playback
    /// index is the index of one of them.
    pub proof fn lemma_playback_index_in_range(self)
        requires
            self.wf(),
            self.entries.len() > 0,
        ensures
            0 <= self.playback_index < self.entries.len(),
            self.current() is Some,
    {
    }

    /// Marking the same entry as current twice is the same as marking it
    /// once.
    pub proof fn lemma_mark_current_idempotent(self, index: int)
        ensures
            self.mark_current(index).mark_current(index) == self.mark_current(index),
    {
        assert(self.mark_current(index).mark_current(index).entries =~= self.mark_current(
            index,
        ).entries);
    }

    /// Stepping forward does nothing to an empty queue, and nothing when the
    /// playback index is on the last entry.
    pub proof fn lemma_step_forward_at_end(self)
        requires
            self.entries.len() == 0 || self.playback_index == self.entries.len() - 1,
        ensures
            self.step_forward() == self,
    {
    }

    /// Stepping back does nothing when the playback index is on the first
    /// entry.
    pub proof fn lemma_step_back_at_start(self)
        requires
            self.playback_index == 0,
        ensures
            self.step_back() == self,
    {
    }
}

} // verus!
