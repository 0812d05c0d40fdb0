//! The identifier generator and its three timing strategies.
use crate::clock::{biding_time_conditions, get_time_millis, unix_epoch};
use crate::layout::{pack, pack_id, SEQUENCE_SPAN};
use std::time::SystemTime;
use vstd::prelude::*;

verus! {

/// The state of a generator as the contracts see it.
pub struct GeneratorView {
    /// Milliseconds since the epoch of the last identifier, real or virtual.
    pub time: i64,
    /// Sequence number of the last identifier within its millisecond.
    pub idx: u16,
    /// The machine identity, as given.
    pub machine_id: i32,
    /// The node identity, as given.
    pub node_id: i32,
}

impl GeneratorView {
    /// The sequence number stays within its twelve bits.
    pub open spec fn wf(self) -> bool {
        self.idx < SEQUENCE_SPAN
    }

    /// The identifier that this state stands for.
    pub open spec fn id(self) -> i64 {
        pack(self.time, self.machine_id, self.node_id, self.idx)
    }

    /// The sequence number that follows this one.
    pub open spec fn next_idx(self) -> u16 {
        ((self.idx + 1) % (SEQUENCE_SPAN as int)) as u16
    }

    /// Both states belong to the same machine and node.
    pub open spec fn same_identity(self, other: GeneratorView) -> bool {
        self.machine_id == other.machine_id && self.node_id == other.node_id
    }

    /// The state after one call of `lazy_generate`.
    pub open spec fn lazy_next(self) -> GeneratorView {
        let idx = self.next_idx();
        GeneratorView {
            time: if idx == 0 {
                (self.time + 1) as i64
            } else {
                self.time
            },
            idx,
            ..self
        }
    }

    /// One call of `lazy_generate` from this state stays within `i64`.
    pub open spec fn lazy_fits(self) -> bool {
        self.next_idx() != 0 || self.time < i64::MAX
    }

    /// A clock reading of `now` finds this state's millisecond used up:
    /// it equals the stored time and the sequence number is about to wrap.
    /// `generate` and `real_time_generate` then wait for a later reading.
    pub open spec fn used_up(self, now: i64) -> bool {
        now == self.time && self.next_idx() == 0
    }

    /// The state after a call of `generate` whose reading of the clock, when
    /// it takes one, is `now`: the sequence number moves on, and when it
    /// wraps the reading is adopted as the time, whatever its value.
    pub open spec fn generate_after(self, now: i64) -> GeneratorView {
        if self.next_idx() == 0 {
            GeneratorView { time: now, idx: 0, ..self }
        } else {
            GeneratorView { idx: self.next_idx(), ..self }
        }
    }

    /// The state after a call of `real_time_generate` whose reading of the
    /// clock is `now`: in the same millisecond the sequence number moves on;
    /// a reading of another millisecond, later or earlier, is adopted as the
    /// time with sequence number zero.
    pub open spec fn real_time_after(self, now: i64) -> GeneratorView {
        if now == self.time {
            GeneratorView { idx: self.next_idx(), ..self }
        } else {
            GeneratorView { time: now, idx: 0, ..self }
        }
    }

    /// `post` follows this state by a call of `generate` or
    /// `real_time_generate` whose reading, the last one it took, is `now`.
    pub open spec fn clock_next(self, post: GeneratorView, now: i64) -> bool {
        &&& !self.used_up(now)
        &&& (post == self.generate_after(now) || post == self.real_time_after(now))
    }
}

/// The state after `k` calls of `lazy_generate` from `v`.
pub open spec fn lazy_iter(v: GeneratorView, k: nat) -> GeneratorView
    decreases k,
{
    if k == 0 {
        v
    } else {
        lazy_iter(v, (k - 1) as nat).lazy_next()
    }
}

/// The identifiers that `k` calls of `lazy_generate` from `v` return, in
/// the order they are returned.
pub open spec fn lazy_ids(v: GeneratorView, k: nat) -> Seq<i64>
    decreases k,
{
    if k == 0 {
        Seq::empty()
    } else {
        lazy_ids(v, (k - 1) as nat).push(lazy_iter(v, k).id())
    }
}

/// `k` calls of `lazy_generate` from `v` keep the time within `i64`.
pub open spec fn lazy_fits_for(v: GeneratorView, k: nat) -> bool {
    v.time + (v.idx + k) / (SEQUENCE_SPAN as int) <= i64::MAX
}

/// Generates Snowflake identifiers for one machine and node.
#[derive(Clone, Copy, Debug)]
pub struct SnowflakeIdGenerator {
    /// The time from which timestamps are measured.
    epoch: SystemTime,
    /// Milliseconds since `epoch` of the last identifier.
    last_time_millis: i64,
    /// The machine identity; it should fit in five bits.
    pub machine_id: i32,
    /// The node identity; it should fit in five bits.
    pub node_id: i32,
    /// Sequence number within the current millisecond.
    idx: u16,
}

impl View for SnowflakeIdGenerator {
    type V = GeneratorView;

    closed spec fn view(&self) -> GeneratorView {
        GeneratorView {
            time: self.last_time_millis,
            idx: self.idx,
            machine_id: self.machine_id,
            node_id: self.node_id,
        }
    }
}

impl SnowflakeIdGenerator {
    /// The time from which this generator measures timestamps.
    pub closed spec fn epoch(&self) -> SystemTime {
        self.epoch
    }

    /// A generator for `machine_id` and `node_id`, timed from `epoch`, whose
    /// clock read `now_millis` at its start.
    pub fn from_reading(machine_id: i32, node_id: i32, epoch: SystemTime, now_millis: i64) -> (r:
        SnowflakeIdGenerator)
        ensures
            r@ == (GeneratorView { time: now_millis, idx: 0, machine_id, node_id }),
            r.epoch() == epoch,
    {
        SnowflakeIdGenerator { epoch, last_time_millis: now_millis, machine_id, node_id, idx: 0 }
    }

    /// A generator for `machine_id` and `node_id`, timed from the UNIX epoch.
    /// `None` when the clock cannot be read (see `get_time_millis`).
    pub fn new(machine_id: i32, node_id: i32) -> (r: Option<SnowflakeIdGenerator>)
        ensures
            r matches Some(g) ==> {
                &&& g@.wf()
                &&& g@.idx == 0
                &&& g@.time >= 0
                &&& g@.machine_id == machine_id
                &&& g@.node_id == node_id
            },
    {
        Self::with_epoch(machine_id, node_id, unix_epoch())
    }

    /// A generator for `machine_id` and `node_id`, timed from `epoch`; its
    /// time is the clock's reading now (see `from_reading`). `None` when the clock cannot be read
    /// (see `get_time_millis`).
    pub fn with_epoch(machine_id: i32, node_id: i32, epoch: SystemTime) -> (r: Option<
        SnowflakeIdGenerator,
    >)
        ensures
            r matches Some(g) ==> {
                &&& g@.wf()
                &&& g@.idx == 0
                &&& g@.time >= 0
                &&& g@.machine_id == machine_id
                &&& g@.node_id == node_id
                &&& g.epoch() == epoch
            },
    {
        match get_time_millis(epoch) {
            Some(now_millis) => Some(Self::from_reading(machine_id, node_id, epoch, now_millis)),
            None => None,
        }
    }

    /// The identifier of the current state: the last one returned, if any.
    pub fn current_id(&self) -> (r: i64)
        ensures
            r == self@.id(),
    {
        pack_id(self.last_time_millis, self.machine_id, self.node_id, self.idx)
    }

    /// What `real_time_generate` does with a reading `now_millis` of the
    /// clock. Returns whether the millisecond is used up, in which case the
    /// generator is left as it was and the caller waits for a later reading;
    /// otherwise the reading is taken in (see `real_time_after`).
    pub fn real_time_step(&mut self, now_millis: i64) -> (must_wait: bool)
        requires
            old(self)@.wf(),
        ensures
            final(self)@.wf(),
            final(self).epoch() == old(self).epoch(),
            must_wait == old(self)@.used_up(now_millis),
            must_wait ==> *final(self) == *old(self),
            !must_wait ==> final(self)@ == old(self)@.real_time_after(now_millis),
    {
        let idx: u16 = (self.idx + 1) % SEQUENCE_SPAN;
        if now_millis == self.last_time_millis {
            if idx == 0 {
                return true;
            }
            self.idx = idx;
        } else {
            self.last_time_millis = now_millis;
            self.idx = 0;
        }
        false
    }

    /// The strict strategy: reads the clock on every call and takes the
    /// reading in by `real_time_step`. When the millisecond is used up, it
    /// busy-waits for a later reading and takes that in. A reading earlier
    /// than the stored time is adopted too, as after `lazy_generate` has
    /// moved the time ahead of the clock. `None`, with the generator
    /// unchanged, when the clock cannot be read or the wait gives up (see
    /// `biding_time_conditions`).
    pub fn real_time_generate(&mut self) -> (r: Option<i64>)
        requires
            old(self)@.wf(),
        ensures
            final(self)@.wf(),
            final(self).epoch() == old(self).epoch(),
            match r {
                Some(id) => {
                    &&& exists|now: i64|
                        now >= 0 && #[trigger] old(self)@.clock_next(final(self)@, now)
                            && final(self)@ == old(self)@.real_time_after(now)
                    &&& id == final(self)@.id()
                },
                None => *final(self) == *old(self),
            },
    {
        let now_millis = match get_time_millis(self.epoch) {
            Some(t) => t,
            None => {
                return None;
            },
        };
        if self.real_time_step(now_millis) {
            match biding_time_conditions(self.last_time_millis, self.epoch) {
                Some(later) => {
                    let waits = self.real_time_step(later);
                    assert(!waits);
                    assert(old(self)@.clock_next(self@, later));
                },
                None => {
                    return None;
                },
            }
        } else {
            assert(old(self)@.clock_next(self@, now_millis));
        }
        Some(self.current_id())
    }

    /// What `generate` does at a wrap of the sequence number with a reading
    /// `now_millis` of the clock. Returns whether the millisecond is used up,
    /// in which case the generator is left as it was and the caller waits for
    /// a later reading; otherwise the reading is adopted with sequence number
    /// zero.
    pub fn generate_step(&mut self, now_millis: i64) -> (must_wait: bool)
        requires
            old(self)@.wf(),
            old(self)@.next_idx() == 0,
        ensures
            final(self)@.wf(),
            final(self).epoch() == old(self).epoch(),
            must_wait == (now_millis == old(self)@.time),
            must_wait ==> *final(self) == *old(self),
            !must_wait ==> final(self)@ == (GeneratorView { time: now_millis, idx: 0, ..old(self)@ }),
    {
        if now_millis == self.last_time_millis {
            return true;
        }
        self.last_time_millis = now_millis;
        self.idx = 0;
        false
    }

    /// The default strategy: the sequence number moves on, and the clock is
    /// read only when it wraps, by `generate_step`. When the millisecond is
    /// used up, it busy-waits for a later reading and adopts that. A reading
    /// earlier than the stored time is adopted too, as after `lazy_generate`
    /// has moved the time ahead of the clock. `None`, with the generator
    /// unchanged, when the clock cannot be read or the wait gives up (see
    /// `biding_time_conditions`); neither happens when the sequence number
    /// does not wrap.
    pub fn generate(&mut self) -> (r: Option<i64>)
        requires
            old(self)@.wf(),
        ensures
            final(self)@.wf(),
            final(self).epoch() == old(self).epoch(),
            old(self)@.next_idx() != 0 ==> r == Some(final(self)@.id()) && final(self)@
                == old(self)@.generate_after(old(self)@.time),
            match r {
                Some(id) => {
                    &&& exists|now: i64|
                        now >= 0 && #[trigger] old(self)@.clock_next(final(self)@, now)
                            && final(self)@ == old(self)@.generate_after(now)
                    &&& id == final(self)@.id()
                },
                None => *final(self) == *old(self),
            },
    {
        let idx: u16 = (self.idx + 1) % SEQUENCE_SPAN;
        if idx != 0 {
            self.idx = idx;
            assert(old(self)@.clock_next(self@, 0));
            return Some(self.current_id());
        }
        let now_millis = match get_time_millis(self.epoch) {
            Some(t) => t,
            None => {
                return None;
            },
        };
        if self.generate_step(now_millis) {
            match biding_time_conditions(self.last_time_millis, self.epoch) {
                Some(later) => {
                    let waits = self.generate_step(later);
                    assert(!waits);
                    assert(old(self)@.clock_next(self@, later));
                },
                None => {
                    return None;
                },
            }
        } else {
            assert(old(self)@.clock_next(self@, now_millis));
        }
        Some(self.current_id())
    }

    /// The lazy strategy: never reads the clock. The sequence number moves
    /// on, and when it wraps the stored time moves on by one virtual
    /// millisecond.
    pub fn lazy_generate(&mut self) -> (r: i64)
        requires
            old(self)@.wf(),
            old(self)@.lazy_fits(),
        ensures
            final(self)@ == old(self)@.lazy_next(),
            final(self)@.wf(),
            final(self).epoch() == old(self).epoch(),
            r == final(self)@.id(),
    {
        self.idx = (self.idx + 1) % SEQUENCE_SPAN;
        if self.idx == 0 {
            self.last_time_millis = self.last_time_millis + 1;
        }
        self.current_id()
    }
}

} // verus!
