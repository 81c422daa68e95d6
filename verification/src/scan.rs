//! Expansion of one hardware batch into per-sample records.
//!
//! A batch carries a single timestamp, taken when the read completed. The
//! newest sample is given that timestamp; every older sample is placed one
//! nominal sample period further back.

use vstd::prelude::*;
use vstd::arithmetic::div_mod::*;
use vstd::arithmetic::mul::*;

verus! {

/// Nanoseconds in one second.
pub const NANOS_PER_SECOND: u64 = 1_000_000_000;

/// Raw tick count of the quadrature encoder.
pub type EncoderTick = i32;

/// Distance in nanoseconds between the batch timestamp and the sample that
/// lies `k` sample periods before the newest one.
pub open spec fn backward_offset(k: nat, sample_rate: nat) -> nat {
    (k * 1_000_000_000) / sample_rate
}

/// Timestamp of the sample stored at `index` in a batch of `len` samples
/// completed at `timestamp`.
pub open spec fn sample_timestamp(timestamp: nat, len: nat, index: nat, sample_rate: nat) -> int {
    timestamp - backward_offset((len - 1 - index) as nat, sample_rate)
}

/// One hardware-delivered group of raw samples, oldest first, with the time
/// at which the read completed.
pub struct BatchedScan<T> {
    pub samples: Vec<T>,
    pub timestamp: u64,
}

/// One raw sample with its reconstructed timestamp.
#[derive(Debug, Clone, Copy)]
pub struct ScanData<T> {
    pub data: T,
    pub timestamp: u64,
}

impl<T> ScanData<T> {
    pub fn new(data: T, timestamp: u64) -> (record: Self)
        ensures
            record.data == data,
            record.timestamp == timestamp,
    {
        ScanData { data, timestamp }
    }
}

/// One encoder sample with its reconstructed timestamp.
#[derive(Debug, Clone, Copy, PartialEq, Eq, Structural)]
pub struct EncoderReading {
    pub timestamp: u64,
    pub pos: EncoderTick,
}

impl EncoderReading {
    pub fn new(timestamp: u64, pos: EncoderTick) -> (reading: Self)
        ensures
            reading.timestamp == timestamp,
            reading.pos == pos,
    {
        Self { timestamp, pos }
    }
}

/// `backward_offset` grows with the offset.
pub proof fn lemma_backward_offset_monotonic(j: nat, k: nat, sample_rate: nat)
    requires
        sample_rate > 0,
        j <= k,
    ensures
        backward_offset(j, sample_rate) <= backward_offset(k, sample_rate),
{
    lemma_mul_inequality(j as int, k as int, 1_000_000_000);
    lemma_div_is_ordered(
        (j * 1_000_000_000) as int,
        (k * 1_000_000_000) as int,
        sample_rate as int,
    );
}

/// At rates of at most one sample per nanosecond, one step further back is
/// at least one nanosecond earlier.
pub proof fn lemma_backward_offset_strict(k: nat, sample_rate: nat)
    requires
        0 < sample_rate <= 1_000_000_000,
    ensures
        backward_offset(k, sample_rate) < backward_offset(k + 1, sample_rate),
{
    let x = (k * 1_000_000_000) as int;
    let r = sample_rate as int;
    assert((k + 1) * 1_000_000_000 == x + 1_000_000_000) by (nonlinear_arith)
        requires
            x == k * 1_000_000_000,
    ;
    lemma_div_plus_one(x, r);
    lemma_div_is_ordered(x + r, x + 1_000_000_000, r);
}

/// Computes `backward_offset` without overflow.
fn offset_nanos(k: usize, sample_rate: u64) -> (back: u128)
    requires
        sample_rate > 0,
    ensures
        back == backward_offset(k as nat, sample_rate as nat),
{
    assert(k * 1_000_000_000 <= 0xffff_ffff_ffff_ffff * 1_000_000_000) by (nonlinear_arith)
        requires
            0 <= k <= 0xffff_ffff_ffff_ffff,
    ;
    (k as u128) * (NANOS_PER_SECOND as u128) / (sample_rate as u128)
}

impl<T: Copy> BatchedScan<T> {
    /// The samples of the batch, oldest first.
    pub open spec fn view(&self) -> Seq<T> {
        self.samples@
    }

    /// Whether the oldest sample's timestamp is representable, that is, the
    /// batch does not reach back beyond time zero.
    pub open spec fn span_fits(&self, sample_rate: nat) -> bool {
        self.samples@.len() > 0 ==> backward_offset(
            (self.samples@.len() - 1) as nat,
            sample_rate,
        ) <= self.timestamp
    }

    /// The record that reconstruction yields at `index`.
    pub open spec fn record_at(&self, sample_rate: nat, index: int) -> ScanData<T> {
        ScanData {
            timestamp: sample_timestamp(
                self.timestamp as nat,
                self.samples@.len(),
                index as nat,
                sample_rate,
            ) as u64,
            data: self.samples@[index],
        }
    }

    /// The records that reconstruction yields, oldest first.
    pub open spec fn records(&self, sample_rate: nat) -> Seq<ScanData<T>> {
        Seq::new(self.samples@.len(), |i: int| self.record_at(sample_rate, i))
    }

    /// A batch of `batch_size` samples, each of them `fill`, with timestamp
    /// zero: the buffer that a read then overwrites.
    pub fn new_filled(batch_size: usize, fill: T) -> (batch: Self)
        ensures
            batch@ == Seq::new(batch_size as nat, |i: int| fill),
            batch.timestamp == 0,
    {
        let mut samples: Vec<T> = Vec::with_capacity(batch_size);
        let mut i: usize = 0;
        while i < batch_size
            invariant
                i <= batch_size,
                samples@ == Seq::new(i as nat, |j: int| fill),
            decreases batch_size - i,
        {
            samples.push(fill);
            assert(samples@ =~= Seq::new((i + 1) as nat, |j: int| fill));
            i += 1;
        }
        BatchedScan { samples, timestamp: 0 }
    }

    /// Decides `span_fits`.
    pub fn check_span(&self, sample_rate: u64) -> (fits: bool)
        requires
            sample_rate > 0,
        ensures
            fits == self.span_fits(sample_rate as nat),
    {
        let n: usize = self.samples.len();
        if n == 0 {
            return true;
        }
        let span: u128 = offset_nanos(n - 1, sample_rate);
        span <= self.timestamp as u128
    }

    /// Expands the batch into one record per sample, oldest first. The newest
    /// sample carries the batch timestamp; the sample `k` places before it
    /// carries that timestamp less `k * 1e9 / sample_rate` nanoseconds.
    pub fn into_scan(&self, sample_rate: u64) -> (out: Vec<ScanData<T>>)
        requires
            sample_rate > 0,
            self.span_fits(sample_rate as nat),
        ensures
            out@ == self.records(sample_rate as nat),
    {
        let n: usize = self.samples.len();
        let mut out: Vec<ScanData<T>> = Vec::with_capacity(n);
        let mut i: usize = 0;
        while i < n
            invariant
                n == self.samples@.len(),
                sample_rate > 0,
                self.span_fits(sample_rate as nat),
                i <= n,
                out@.len() == i,
                forall|j: int| 0 <= j < i ==> out@[j] == self.record_at(sample_rate as nat, j),
            decreases n - i,
        {
            let k: usize = n - 1 - i;
            proof {
                lemma_backward_offset_monotonic(k as nat, (n - 1) as nat, sample_rate as nat);
            }
            let back: u128 = offset_nanos(k, sample_rate);
            let ts: u64 = self.timestamp - (back as u64);
            out.push(ScanData::new(self.samples[i], ts));
            i += 1;
        }
        assert(out@ =~= self.records(sample_rate as nat));
        out
    }

    /// Reconstruction yields one record per sample, in storage order and in
    /// non-decreasing time; the last record carries the batch timestamp and
    /// the first lies `(N - 1) * 1e9 / sample_rate` nanoseconds before it. At
    /// rates of at most one sample per nanosecond the timestamps strictly
    /// increase.
    pub proof fn lemma_records_chronological(&self, sample_rate: nat)
        requires
            sample_rate > 0,
            self.span_fits(sample_rate),
        ensures
            self.records(sample_rate).len() == self@.len(),
            forall|i: int|
                0 <= i < self@.len() ==> (#[trigger] self.records(sample_rate)[i]).data
                    == self@[i],
            self@.len() > 0 ==> self.records(sample_rate).last().timestamp == self.timestamp,
            self@.len() > 0 ==> self.records(sample_rate).first().timestamp == self.timestamp
                - ((self@.len() - 1) * 1_000_000_000) / (sample_rate as int),
            forall|i: int, j: int|
                0 <= i <= j < self@.len() ==> (#[trigger] self.records(sample_rate)[i]).timestamp
                    <= (#[trigger] self.records(sample_rate)[j]).timestamp,
            sample_rate <= 1_000_000_000 ==> forall|i: int, j: int|
                0 <= i < j < self@.len() ==> (#[trigger] self.records(sample_rate)[i]).timestamp
                    < (#[trigger] self.records(sample_rate)[j]).timestamp,
    {
        let n = self@.len();
        let recs = self.records(sample_rate);
        assert forall|i: int| 0 <= i < n implies (#[trigger] recs[i]).timestamp == self.timestamp
            - backward_offset((n - 1 - i) as nat, sample_rate) by {
            lemma_backward_offset_monotonic((n - 1 - i) as nat, (n - 1) as nat, sample_rate);
        }
        if n > 0 {
            assert(recs.last().timestamp == recs[n - 1].timestamp);
            assert(backward_offset(0, sample_rate) == 0);
            assert(recs.first().timestamp == recs[0].timestamp);
        }
        assert forall|i: int, j: int| 0 <= i <= j < n implies (#[trigger] recs[i]).timestamp <= (
        #[trigger] recs[j]).timestamp by {
            lemma_backward_offset_monotonic(
                (n - 1 - j) as nat,
                (n - 1 - i) as nat,
                sample_rate,
            );
        }
        if sample_rate <= 1_000_000_000 {
            assert forall|i: int, j: int| 0 <= i < j < n implies (#[trigger] recs[i]).timestamp < (
            #[trigger] recs[j]).timestamp by {
                lemma_backward_offset_strict((n - 1 - j) as nat, sample_rate);
                lemma_backward_offset_monotonic(
                    (n - 1 - j + 1) as nat,
                    (n - 1 - i) as nat,
                    sample_rate,
                );
            }
        }
    }
}

impl BatchedScan<EncoderTick> {
    /// The encoder readings of the batch, oldest first: the records of
    /// `into_scan`, one reading for each.
    pub fn into_encoder_reading_iter(&self, sample_rate: usize) -> (out: Vec<EncoderReading>)
        requires
            sample_rate > 0,
            self.span_fits(sample_rate as nat),
        ensures
            out@.len() == self@.len(),
            forall|i: int|
                0 <= i < out@.len() ==> #[trigger] out@[i] == (EncoderReading {
                    timestamp: self.records(sample_rate as nat)[i].timestamp,
                    pos: self@[i],
                }),
    {
        let records: Vec<ScanData<EncoderTick>> = self.into_scan(sample_rate as u64);
        let n: usize = records.len();
        let mut out: Vec<EncoderReading> = Vec::with_capacity(n);
        let mut i: usize = 0;
        while i < n
            invariant
                n == records@.len(),
                n == self@.len(),
                records@ == self.records(sample_rate as nat),
                i <= n,
                out@.len() == i,
                forall|j: int|
                    0 <= j < i ==> #[trigger] out@[j] == (EncoderReading {
                        timestamp: records@[j].timestamp,
                        pos: self@[j],
                    }),
            decreases n - i,
        {
            out.push(EncoderReading::new(records[i].timestamp, records[i].data));
            i += 1;
        }
        out
    }
}

} // verus!
