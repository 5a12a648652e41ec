//! Host-side sample records and their batching toward durable storage.
use vstd::prelude::*;

verus! {

/// How many records make one batch; a full batch is flushed as a unit.
pub const BATCH_SIZE: usize = 400;

/// A mood label that records may carry.
#[derive(Clone, Copy, Debug, PartialEq, Eq, Structural)]
pub enum Emotion {
    /// High energy, good (elated).
    HighEGood,
    /// Low energy, good (content).
    LowEGood,
    /// High energy, bad (furious).
    HighEBad,
    /// Low energy, bad (disappointed).
    LowEBad,
    /// Not set; the default.
    Unset,
}

/// One sampling cycle's readings.
#[derive(Clone, Copy, Debug, PartialEq, Eq, Structural)]
pub struct Item {
    /// The reference lead is connected. If not, `adc` is not to be trusted.
    pub rcn: bool,
    /// The input lead is connected. If not, `adc` is not to be trusted.
    pub icn: bool,
    /// Shutdown is active. If so, `rcn`, `icn` and `adc` are not to be trusted.
    pub shdn: bool,
    /// The analog reading.
    pub adc: u16,
    /// The buttons pressed, one bit each.
    pub btns: u8,
    /// The estimated maximum sampling rate, in Hz.
    pub est_max_sampling_rate: u16,
    /// Wall-clock time of the cycle, in milliseconds since the Unix epoch.
    pub timestamp: u128,
}

impl Item {
    /// Assembles a record from one cycle's readings. The two lead lines are
    /// active low: a line read low means the lead is connected.
    pub fn from_cycle(
        rcn_line_low: bool,
        icn_line_low: bool,
        shutdown_line_low: bool,
        adc: u16,
        btns: u8,
        est_max_sampling_rate: u16,
        timestamp: u128,
    ) -> (r: Item)
        ensures
            r == (Item {
                rcn: rcn_line_low,
                icn: icn_line_low,
                shdn: shutdown_line_low,
                adc,
                btns,
                est_max_sampling_rate,
                timestamp,
            }),
    {
        Item {
            rcn: rcn_line_low,
            icn: icn_line_low,
            shdn: shutdown_line_low,
            adc,
            btns,
            est_max_sampling_rate,
            timestamp,
        }
    }
}

/// One cycle on a batch holding `pending`: whether it flushes, and what the
/// batch holds afterwards.
pub open spec fn batch_step(pending: Seq<Item>, item: Item) -> (bool, Seq<Item>) {
    if pending.len() + 1 == BATCH_SIZE {
        (true, Seq::empty())
    } else {
        (false, pending.push(item))
    }
}

/// Cycles over `items` from an empty batch: how many flushes occurred, and
/// what the batch holds at the end.
pub open spec fn cycles(items: Seq<Item>) -> (nat, Seq<Item>)
    decreases items.len(),
{
    if items.len() == 0 {
        (0, Seq::empty())
    } else {
        let (flushes, pending) = cycles(items.drop_last());
        let (flushed, next) = batch_step(pending, items.last());
        (if flushed { flushes + 1 } else { flushes }, next)
    }
}

/// After `n` cycles from an empty batch, `n / 400` flushes have occurred and
/// the batch holds the last `n % 400` records, in order.
pub proof fn lemma_cycles(items: Seq<Item>)
    ensures
        cycles(items).0 == items.len() / (BATCH_SIZE as nat),
        cycles(items).1 == items.subrange(
            items.len() - items.len() % (BATCH_SIZE as nat),
            items.len() as int,
        ),
    decreases items.len(),
{
    let n = items.len();
    if n > 0 {
        let rest = items.drop_last();
        lemma_cycles(rest);
        let m = (n - 1) as nat;
        if m % 400 + 1 == 400 {
            assert(n / 400 == m / 400 + 1);
            assert(n % 400 == 0);
            assert(items.subrange(n as int, n as int) =~= Seq::<Item>::empty());
        } else {
            assert(n / 400 == m / 400);
            assert(n % 400 == m % 400 + 1);
            assert(rest.subrange(m - m % 400, m as int).push(items.last()) =~= items.subrange(
                n - n % 400,
                n as int,
            ));
        }
    }
}

/// The records of the current batch, in the order they were taken.
pub struct SampleBatch {
    records: Vec<Item>,
}

impl View for SampleBatch {
    type V = Seq<Item>;

    closed spec fn view(&self) -> Seq<Item> {
        self.records@
    }
}

impl SampleBatch {
    /// A batch is flushed when it fills, so it never holds a full batch.
    pub closed spec fn wf(&self) -> bool {
        self.records@.len() < BATCH_SIZE
    }

    /// An empty batch.
    pub fn new() -> (b: SampleBatch)
        ensures
            b.wf(),
            b@ == Seq::<Item>::empty(),
    {
        SampleBatch { records: Vec::new() }
    }

    /// The number of records held.
    pub fn len(&self) -> (r: usize)
        ensures
            r == self@.len(),
    {
        self.records.len()
    }

    /// Appends one cycle's record. When that fills the batch, the whole batch
    /// is handed back for writing to storage and the batch starts empty.
    pub fn push(&mut self, item: Item) -> (flush: Option<Vec<Item>>)
        requires
            old(self).wf(),
        ensures
            final(self).wf(),
            old(self)@.len() + 1 == BATCH_SIZE ==> flush is Some && flush->Some_0@ == old(
                self,
            )@.push(item),
            (flush is Some) == batch_step(old(self)@, item).0,
            final(self)@ == batch_step(old(self)@, item).1,
    {
        self.records.push(item);
        if self.records.len() == BATCH_SIZE {
            let mut full: Vec<Item> = Vec::new();
            std::mem::swap(&mut full, &mut self.records);
            Some(full)
        } else {
            None
        }
    }
}

} // verus!
