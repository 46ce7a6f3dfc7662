//! A ring of the most recent raw lines.

use vstd::prelude::*;

verus! {

/// Number of raw lines the history retains.
pub const LOG_REPLAY_CAPACITY: usize = 10000;

/// Mathematical model of the ring: its slots, the slot the next line goes to,
/// and whether the cursor has already passed the last slot once.
pub struct RingModel {
    pub slots: Seq<Seq<char>>,
    pub cursor: nat,
    pub wrapped: bool,
}

/// The last `n` entries of `history`, or all of it when it is shorter.
pub open spec fn most_recent(history: Seq<Seq<char>>, n: nat) -> Seq<Seq<char>> {
    if history.len() <= n {
        history
    } else {
        history.subrange(history.len() - n, history.len() as int)
    }
}

impl RingModel {
    pub open spec fn wf(self) -> bool {
        &&& self.slots.len() == LOG_REPLAY_CAPACITY
        &&& self.cursor < LOG_REPLAY_CAPACITY
    }

    /// The ring before any line was appended: every slot holds the empty line.
    pub open spec fn empty() -> RingModel {
        RingModel {
            slots: Seq::new(LOG_REPLAY_CAPACITY as nat, |i: int| Seq::<char>::empty()),
            cursor: 0,
            wrapped: false,
        }
    }

    /// The ring after `line` was stored at the cursor.
    pub open spec fn push(self, line: Seq<char>) -> RingModel {
        RingModel {
            slots: self.slots.update(self.cursor as int, line),
            cursor: if self.cursor + 1 >= LOG_REPLAY_CAPACITY {
                0
            } else {
                self.cursor + 1
            },
            wrapped: self.wrapped || self.cursor + 1 >= LOG_REPLAY_CAPACITY,
        }
    }

    /// The lines held, oldest first.
    pub open spec fn lines(self) -> Seq<Seq<char>> {
        if self.wrapped {
            self.slots.subrange(self.cursor as int, self.slots.len() as int)
                + self.slots.subrange(0, self.cursor as int)
        } else {
            self.slots.subrange(0, self.cursor as int)
        }
    }

    /// The ring reached from the empty one by appending `history` in order.
    pub open spec fn after(history: Seq<Seq<char>>) -> RingModel
        decreases history.len(),
    {
        if history.len() == 0 {
            RingModel::empty()
        } else {
            RingModel::after(history.drop_last()).push(history.last())
        }
    }
}

/// Fixed-capacity store of raw lines. Once full, each new line takes the
/// place of the oldest one.
#[derive(Debug)]
pub struct CircularBuffer {
    buffer: Vec<String>,
    index: usize,
    looped: bool,
}

impl View for CircularBuffer {
    type V = RingModel;

    closed spec fn view(&self) -> RingModel {
        RingModel {
            slots: self.buffer.deep_view(),
            cursor: self.index as nat,
            wrapped: self.looped,
        }
    }
}

impl CircularBuffer {
    #[verifier::type_invariant]
    spec fn inv(self) -> bool {
        &&& self.buffer.len() == LOG_REPLAY_CAPACITY
        &&& self.index < LOG_REPLAY_CAPACITY
    }

    /// A ring that holds no line yet.
    pub fn new() -> (ring: Self)
        ensures
            ring@ == RingModel::empty(),
            ring@.wf(),
    {
        let mut buffer: Vec<String> = Vec::new();
        let mut filled: usize = 0;
        while filled < LOG_REPLAY_CAPACITY
            invariant
                filled <= LOG_REPLAY_CAPACITY,
                buffer.len() == filled,
                forall|i: int| 0 <= i < filled ==> (#[trigger] buffer[i])@ == Seq::<char>::empty(),
            decreases LOG_REPLAY_CAPACITY - filled,
        {
            buffer.push(String::new());
            filled = filled + 1;
        }
        let ring = CircularBuffer { buffer, index: 0, looped: false };
        assert(ring@.slots =~= RingModel::empty().slots);
        ring
    }

    /// Stores `item` at the cursor and advances the cursor, returning to the
    /// first slot after the last one.
    pub fn push(&mut self, item: String)
        ensures
            final(self)@ == old(self)@.push(item@),
            final(self)@.wf(),
            final(self)@.lines() == most_recent(
                old(self)@.lines().push(item@),
                LOG_REPLAY_CAPACITY as nat,
            ),
    {
        proof {
            use_type_invariant(&*self);
        }
        let ghost before = self@;
        let ghost line = item@;
        self.buffer[self.index] = item;
        if self.index + 1 >= LOG_REPLAY_CAPACITY {
            self.looped = true;
        }
        self.index = (self.index + 1) % LOG_REPLAY_CAPACITY;
        proof {
            assert(self@.slots =~= before.slots.update(before.cursor as int, line));
            lemma_push_keeps_recent(before, line);
        }
    }

    /// The slot that the next line goes to.
    pub fn index(&self) -> (index: usize)
        ensures
            index == self@.cursor,
            index < LOG_REPLAY_CAPACITY,
    {
        proof {
            use_type_invariant(self);
        }
        self.index
    }

    /// Whether the cursor has passed the last slot, so that every slot holds
    /// an appended line.
    pub fn looped(&self) -> (looped: bool)
        ensures
            looped == self@.wrapped,
    {
        self.looped
    }

    /// Every line held, oldest first.
    pub fn get_all(&self) -> (lines: Vec<String>)
        ensures
            lines.deep_view() == self@.lines(),
            lines.len() <= LOG_REPLAY_CAPACITY,
            self@.wf(),
    {
        proof {
            use_type_invariant(self);
        }
        let mut vec: Vec<String> = Vec::new();
        if self.looped {
            let mut i: usize = self.index;
            while i < LOG_REPLAY_CAPACITY
                invariant
                    self.index <= i <= LOG_REPLAY_CAPACITY,
                    self.buffer.len() == LOG_REPLAY_CAPACITY,
                    vec.len() == i - self.index,
                    forall|k: int|
                        0 <= k < vec.len() ==> (#[trigger] vec[k])@ == self.buffer[self.index + k]@,
                decreases LOG_REPLAY_CAPACITY - i,
            {
                vec.push(self.buffer[i].clone());
                i = i + 1;
            }
        }
        let ghost upper = vec.len();
        let mut j: usize = 0;
        while j < self.index
            invariant
                j <= self.index < LOG_REPLAY_CAPACITY,
                self.buffer.len() == LOG_REPLAY_CAPACITY,
                upper == (if self.looped { LOG_REPLAY_CAPACITY - self.index } else { 0 }),
                vec.len() == upper + j,
                forall|k: int|
                    0 <= k < upper ==> (#[trigger] vec[k])@ == self.buffer[self.index + k]@,
                forall|k: int| upper <= k < vec.len() ==> (#[trigger] vec[k])@ == self.buffer[k - upper]@,
            decreases self.index - j,
        {
            vec.push(self.buffer[j].clone());
            j = j + 1;
        }
        vec
    }
}

/// Appending to a well-formed ring keeps exactly the most recent lines.
proof fn lemma_push_keeps_recent(ring: RingModel, line: Seq<char>)
    requires
        ring.wf(),
    ensures
        ring.push(line).wf(),
        ring.push(line).lines() == most_recent(ring.lines().push(line), LOG_REPLAY_CAPACITY as nat),
{
}

/// Where the ring stands after any history: the cursor at the number of
/// appends modulo the capacity, the wrap flag set once that number has
/// reached the capacity, and the lines held the most recent ones.
pub proof fn lemma_ring_after(history: Seq<Seq<char>>)
    ensures
        RingModel::after(history).wf(),
        RingModel::after(history).cursor == history.len() % (LOG_REPLAY_CAPACITY as nat),
        RingModel::after(history).wrapped == (history.len() >= LOG_REPLAY_CAPACITY),
        RingModel::after(history).lines() == most_recent(history, LOG_REPLAY_CAPACITY as nat),
    decreases history.len(),
{
    if history.len() > 0 {
        let earlier = history.drop_last();
        lemma_ring_after(earlier);
        lemma_push_keeps_recent(RingModel::after(earlier), history.last());
    }
}

/// As long as no more lines were appended than the ring has room for, it
/// holds exactly the appended lines, in the order they came.
pub proof fn law_short_history_is_kept(history: Seq<Seq<char>>)
    requires
        history.len() <= LOG_REPLAY_CAPACITY,
    ensures
        RingModel::after(history).lines() == history,
        RingModel::after(history).wrapped == (history.len() == LOG_REPLAY_CAPACITY),
{
    lemma_ring_after(history);
}

/// Once more lines were appended than the ring has room for, it holds
/// exactly the last ones, as many as it has room for, oldest first, and the
/// wrap flag is set.
pub proof fn law_long_history_keeps_the_last(history: Seq<Seq<char>>)
    requires
        history.len() > LOG_REPLAY_CAPACITY,
    ensures
        RingModel::after(history).lines() == history.subrange(
            history.len() - LOG_REPLAY_CAPACITY,
            history.len() as int,
        ),
        RingModel::after(history).lines().len() == LOG_REPLAY_CAPACITY,
        RingModel::after(history).wrapped,
{
    lemma_ring_after(history);
}

/// The append that fills the ring sets the wrap flag, which no earlier one
/// did, and brings the cursor back to the first slot: the next append
/// overwrites that slot and no other.
pub proof fn law_wrap_at_capacity(history: Seq<Seq<char>>, next: Seq<char>)
    requires
        history.len() == LOG_REPLAY_CAPACITY,
    ensures
        !RingModel::after(history.drop_last()).wrapped,
        RingModel::after(history).wrapped,
        RingModel::after(history).cursor == 0,
        RingModel::after(history.push(next)).slots == RingModel::after(history).slots.update(
            0,
            next,
        ),
        RingModel::after(history.push(next)).lines() == history.drop_first().push(next),
{
    lemma_ring_after(history);
    lemma_ring_after(history.drop_last());
    lemma_ring_after(history.push(next));
    assert(history.push(next).drop_last() =~= history);
}

} // verus!
