//! A buffer of identifiers, filled a batch at a time by the lazy strategy.
use crate::clock::unix_epoch;
use crate::generator::{lazy_fits_for, lazy_ids, lazy_iter, SnowflakeIdGenerator};
use crate::laws::{lemma_lazy_ids_len, lemma_lazy_step_fits};
use std::time::SystemTime;
use vstd::prelude::*;

verus! {

/// Identifiers made by one refill: fewer than a millisecond's span of
/// sequence numbers, so one refill uses at most one wrap of the sequence.
pub const BATCH_SIZE: usize = 4091;

/// Hands out identifiers from a buffer that it refills, when empty, with a
/// batch made by `lazy_generate`.
#[derive(Clone, Debug)]
pub struct SnowflakeIdBucket {
    /// The generator that fills the buffer.
    snowflake_id_generator: SnowflakeIdGenerator,
    /// Identifiers made and not yet handed out, in the order they were made.
    bucket: Vec<i64>,
}

impl SnowflakeIdBucket {
    /// The generator that fills the buffer.
    pub closed spec fn generator(&self) -> SnowflakeIdGenerator {
        self.snowflake_id_generator
    }

    /// The identifiers waiting in the buffer; the last is handed out first.
    pub closed spec fn pending(&self) -> Seq<i64> {
        self.bucket@
    }

    /// The generator's sequence number stays within its twelve bits.
    pub open spec fn wf(&self) -> bool {
        self.generator()@.wf()
    }

    /// An empty bucket for `machine_id` and `node_id`, timed from the UNIX
    /// epoch. `None` when the clock cannot be read.
    pub fn new(machine_id: i32, node_id: i32) -> (r: Option<SnowflakeIdBucket>)
        ensures
            r matches Some(b) ==> {
                &&& b.wf()
                &&& b.pending() == Seq::<i64>::empty()
                &&& b.generator()@.idx == 0
                &&& b.generator()@.time >= 0
                &&& b.generator()@.machine_id == machine_id
                &&& b.generator()@.node_id == node_id
            },
    {
        Self::with_epoch(machine_id, node_id, unix_epoch())
    }

    /// An empty bucket for `machine_id` and `node_id`, timed from `epoch`.
    /// `None` when the clock cannot be read.
    pub fn with_epoch(machine_id: i32, node_id: i32, epoch: SystemTime) -> (r: Option<
        SnowflakeIdBucket,
    >)
        ensures
            r matches Some(b) ==> {
                &&& b.wf()
                &&& b.pending() == Seq::<i64>::empty()
                &&& b.generator()@.idx == 0
                &&& b.generator()@.time >= 0
                &&& b.generator()@.machine_id == machine_id
                &&& b.generator()@.node_id == node_id
                &&& b.generator().epoch() == epoch
            },
    {
        match SnowflakeIdGenerator::with_epoch(machine_id, node_id, epoch) {
            Some(snowflake_id_generator) => Some(
                SnowflakeIdBucket { snowflake_id_generator, bucket: Vec::new() },
            ),
            None => None,
        }
    }

    /// Appends a batch of `BATCH_SIZE` identifiers from `lazy_generate`.
    fn generate_ids(&mut self)
        requires
            old(self).wf(),
            lazy_fits_for(old(self).generator()@, BATCH_SIZE as nat),
        ensures
            final(self).wf(),
            final(self).generator()@ == lazy_iter(old(self).generator()@, BATCH_SIZE as nat),
            final(self).generator().epoch() == old(self).generator().epoch(),
            final(self).pending() == old(self).pending() + lazy_ids(
                old(self).generator()@,
                BATCH_SIZE as nat,
            ),
    {
        let ghost start = self.snowflake_id_generator@;
        let ghost before = self.bucket@;
        let mut i: usize = 0;
        while i < BATCH_SIZE
            invariant
                0 <= i <= BATCH_SIZE,
                start.wf(),
                lazy_fits_for(start, BATCH_SIZE as nat),
                self.snowflake_id_generator@ == lazy_iter(start, i as nat),
                self.snowflake_id_generator.epoch() == old(self).generator().epoch(),
                self.bucket@ == before + lazy_ids(start, i as nat),
            decreases BATCH_SIZE - i,
        {
            proof {
                lemma_lazy_step_fits(start, BATCH_SIZE as nat, i as nat);
            }
            let id = self.snowflake_id_generator.lazy_generate();
            self.bucket.push(id);
            i = i + 1;
            assert(self.bucket@ =~= before + lazy_ids(start, i as nat));
        }
    }

    /// Hands out the most recently made identifier in the buffer, after
    /// refilling the buffer with one batch if it is empty.
    pub fn get_id(&mut self) -> (r: i64)
        requires
            old(self).wf(),
            old(self).pending().len() > 0 || lazy_fits_for(
                old(self).generator()@,
                BATCH_SIZE as nat,
            ),
        ensures
            final(self).wf(),
            final(self).generator().epoch() == old(self).generator().epoch(),
            old(self).pending().len() > 0 ==> {
                &&& final(self).generator() == old(self).generator()
                &&& final(self).pending() == old(self).pending().drop_last()
                &&& r == old(self).pending().last()
            },
            old(self).pending().len() == 0 ==> {
                let batch = lazy_ids(old(self).generator()@, BATCH_SIZE as nat);
                &&& final(self).generator()@ == lazy_iter(
                    old(self).generator()@,
                    BATCH_SIZE as nat,
                )
                &&& batch.len() == BATCH_SIZE
                &&& final(self).pending() == batch.drop_last()
                &&& r == batch.last()
            },
    {
        if self.bucket.is_empty() {
            self.generate_ids();
            proof {
                lemma_lazy_ids_len(old(self).generator()@, BATCH_SIZE as nat);
                assert(self.bucket@ =~= lazy_ids(old(self).generator()@, BATCH_SIZE as nat));
            }
        }
        self.bucket.pop().unwrap()
    }
}

} // verus!
