//! One channel's path from delivered batches to its two sinks: every batch
//! is expanded into records, every record goes to the file sink, and every
//! `stride`-th batch is also shown to the display.

use vstd::prelude::*;
use vstd::arithmetic::div_mod::*;
use crate::bifurcate::{
    fire_count, fires_at, lemma_fire_positions, lemma_teed_from_start, teed, Bifurcate, Polled,
};
use crate::scan::{backward_offset, BatchedScan, ScanData};

verus! {

/// Why a batch was dropped instead of forwarded.
#[derive(Debug, Clone, Copy, PartialEq, Eq, Structural)]
pub enum Dropped {
    /// The batch reaches back beyond time zero, so that its oldest samples
    /// have no timestamp.
    BeforeTimeZero,
}

/// What one batch contributes to the two sinks.
#[derive(Debug)]
pub struct Delivery<T> {
    /// The batch's records, all for the file sink, in order.
    pub file: Vec<ScanData<T>>,
    /// Whether the display is shown this batch as well.
    pub display: bool,
}

/// What a run of batches contributes to the two sinks.
#[derive(Debug)]
pub struct RunOutput<T> {
    /// The records for the file sink, in order.
    pub file: Vec<ScanData<T>>,
    /// The batches that the display is shown, each as its records, in
    /// order.
    pub display: Vec<Vec<ScanData<T>>>,
    /// How many batches were dropped.
    pub dropped: usize,
}

/// The records that a batch contributes: those of its reconstruction, or
/// none where the batch is dropped.
pub open spec fn records_of<T: Copy>(batch: BatchedScan<T>, sample_rate: nat) -> Seq<
    ScanData<T>,
> {
    if batch.span_fits(sample_rate) {
        batch.records(sample_rate)
    } else {
        Seq::empty()
    }
}

/// The records of a run of batches, in delivery order.
pub open spec fn all_records<T: Copy>(batches: Seq<BatchedScan<T>>, sample_rate: nat) -> Seq<
    ScanData<T>,
>
    decreases batches.len(),
{
    if batches.len() == 0 {
        Seq::empty()
    } else {
        all_records(batches.drop_last(), sample_rate) + records_of(batches.last(), sample_rate)
    }
}

/// The batches of a run that are forwarded, each as its records, in
/// delivery order: those that are not dropped.
pub open spec fn forwarded_batches<T: Copy>(batches: Seq<BatchedScan<T>>, sample_rate: nat) -> Seq<
    Seq<ScanData<T>>,
>
    decreases batches.len(),
{
    if batches.len() == 0 {
        Seq::empty()
    } else {
        let before = forwarded_batches(batches.drop_last(), sample_rate);
        if batches.last().span_fits(sample_rate) {
            before.push(batches.last().records(sample_rate))
        } else {
            before
        }
    }
}

/// The records of each of the given batches.
pub open spec fn shown_views<T>(shown: Seq<Vec<ScanData<T>>>) -> Seq<Seq<ScanData<T>>> {
    Seq::new(shown.len(), |i: int| shown[i]@)
}

/// How many batches of a run are dropped.
pub open spec fn dropped_count<T: Copy>(batches: Seq<BatchedScan<T>>, sample_rate: nat) -> nat
    decreases batches.len(),
{
    if batches.len() == 0 {
        0
    } else {
        dropped_count(batches.drop_last(), sample_rate) + if batches.last().span_fits(
            sample_rate,
        ) {
            0nat
        } else {
            1nat
        }
    }
}

/// Whether every batch of the run holds `batch_size` samples and none
/// reaches back beyond time zero.
pub open spec fn uniform_run<T: Copy>(
    batches: Seq<BatchedScan<T>>,
    sample_rate: nat,
    batch_size: nat,
) -> bool {
    forall|j: int|
        0 <= j < batches.len() ==> (#[trigger] batches[j])@.len() == batch_size
            && batches[j].span_fits(sample_rate)
}

/// Whether each batch of the run begins after the batch before it has
/// ended: its oldest sample is later than the newest sample before it.
pub open spec fn spaced_run<T: Copy>(
    batches: Seq<BatchedScan<T>>,
    sample_rate: nat,
    batch_size: nat,
) -> bool {
    forall|j: int|
        1 <= j < batches.len() ==> batches[j - 1].timestamp < (#[trigger] batches[j]).timestamp
            - backward_offset((batch_size - 1) as nat, sample_rate)
}

/// A run of `K` batches of `batch_size` samples each, none of them
/// dropped, yields `K * batch_size` records: those of the first batch, then
/// those of the second, and so on, each once.
pub proof fn lemma_uniform_run<T: Copy>(
    batches: Seq<BatchedScan<T>>,
    sample_rate: nat,
    batch_size: nat,
)
    requires
        sample_rate > 0,
        uniform_run(batches, sample_rate, batch_size),
    ensures
        all_records(batches, sample_rate).len() == batches.len() * batch_size,
        dropped_count(batches, sample_rate) == 0,
        forall|p: int|
            0 <= p < all_records(batches, sample_rate).len() ==> 0 <= #[trigger] (p / (
            batch_size as int)) < batches.len(),
        forall|p: int|
            0 <= p < all_records(batches, sample_rate).len() ==> #[trigger] all_records(
                batches,
                sample_rate,
            )[p] == batches[p / (batch_size as int)].records(sample_rate)[p % (batch_size as int)],
    decreases batches.len(),
{
    let n = batch_size as int;
    let k = batches.len() as int;
    if k == 0 {
        assert(0 * n == 0) by (nonlinear_arith);
    } else {
        let prefix = batches.drop_last();
        let last = batches.last();
        assert forall|j: int| 0 <= j < prefix.len() implies (#[trigger] prefix[j])@.len()
            == batch_size && prefix[j].span_fits(sample_rate) by {
            assert(prefix[j] == batches[j]);
        }
        lemma_uniform_run(prefix, sample_rate, batch_size);
        assert(batches[k - 1] == last);
        assert((k - 1) * n + n == k * n) by (nonlinear_arith);
        let all = all_records(batches, sample_rate);
        let head = all_records(prefix, sample_rate);
        assert(all == head + last.records(sample_rate));
        if n == 0 {
            assert(k * n == 0) by (nonlinear_arith)
                requires
                    n == 0,
            ;
        } else {
            assert forall|p: int| 0 <= p < all.len() implies 0 <= #[trigger] (p / n) < k by {
                if p >= head.len() {
                    lemma_fundamental_div_mod_converse(p, n, k - 1, p - head.len());
                }
            }
            assert forall|p: int| 0 <= p < all.len() implies #[trigger] all[p] == batches[p
                / n].records(sample_rate)[p % n] by {
                if p < head.len() {
                    assert(0 <= p / n < k - 1);
                    assert(all[p] == head[p]);
                    assert(prefix[p / n] == batches[p / n]);
                } else {
                    let i = p - head.len();
                    assert(all[p] == last.records(sample_rate)[i]);
                    lemma_fundamental_div_mod_converse(p, n, k - 1, i);
                }
            }
        }
    }
}

/// Every batch of a run is either forwarded or dropped.
pub proof fn lemma_forwarded_or_dropped<T: Copy>(batches: Seq<BatchedScan<T>>, sample_rate: nat)
    ensures
        forwarded_batches(batches, sample_rate).len() + dropped_count(batches, sample_rate)
            == batches.len(),
    decreases batches.len(),
{
    if batches.len() > 0 {
        lemma_forwarded_or_dropped(batches.drop_last(), sample_rate);
    }
}

/// Of a run in which no batch is dropped, every batch is forwarded, in
/// order.
pub proof fn lemma_forwarded_of_uniform_run<T: Copy>(
    batches: Seq<BatchedScan<T>>,
    sample_rate: nat,
    batch_size: nat,
)
    requires
        uniform_run(batches, sample_rate, batch_size),
    ensures
        forwarded_batches(batches, sample_rate) == Seq::new(
            batches.len(),
            |j: int| batches[j].records(sample_rate),
        ),
    decreases batches.len(),
{
    if batches.len() > 0 {
        let prefix = batches.drop_last();
        assert forall|j: int| 0 <= j < prefix.len() implies (#[trigger] prefix[j])@.len()
            == batch_size && prefix[j].span_fits(sample_rate) by {
            assert(prefix[j] == batches[j]);
        }
        lemma_forwarded_of_uniform_run(prefix, sample_rate, batch_size);
        assert(batches[batches.len() - 1] == batches.last());
    }
    assert(forwarded_batches(batches, sample_rate) =~= Seq::new(
        batches.len(),
        |j: int| batches[j].records(sample_rate),
    ));
}

/// Of a run of `K` batches, none of them dropped, a pipeline that has
/// forwarded nothing before shows the display `K / stride` batches, rounded
/// up: batches `0, stride, 2 * stride, ..` of the run.
pub proof fn lemma_display_of_uniform_run<T: Copy>(
    batches: Seq<BatchedScan<T>>,
    sample_rate: nat,
    batch_size: nat,
    stride: nat,
)
    requires
        stride > 0,
        uniform_run(batches, sample_rate, batch_size),
    ensures
        teed(forwarded_batches(batches, sample_rate), stride, 0).len() == fire_count(
            batches.len(),
            stride,
        ),
        forall|j: int|
            0 <= j < fire_count(batches.len(), stride) ==> #[trigger] teed(
                forwarded_batches(batches, sample_rate),
                stride,
                0,
            )[j] == batches[j * stride].records(sample_rate),
{
    let forwarded = forwarded_batches(batches, sample_rate);
    lemma_forwarded_of_uniform_run(batches, sample_rate, batch_size);
    lemma_teed_from_start(forwarded, stride);
    lemma_fire_positions(batches.len(), stride);
    assert forall|j: int| 0 <= j < fire_count(batches.len(), stride) implies #[trigger] teed(
        forwarded,
        stride,
        0,
    )[j] == batches[j * stride].records(sample_rate) by {
        assert(0 <= j * stride < batches.len());
    }
}

/// In a spaced run, later batches carry later timestamps.
proof fn lemma_batch_times_increase<T: Copy>(
    batches: Seq<BatchedScan<T>>,
    sample_rate: nat,
    batch_size: nat,
    j1: int,
    j2: int,
)
    requires
        spaced_run(batches, sample_rate, batch_size),
        0 <= j1 <= j2 < batches.len(),
    ensures
        batches[j1].timestamp <= batches[j2].timestamp,
        j1 < j2 ==> batches[j1].timestamp < batches[j2].timestamp - backward_offset(
            (batch_size - 1) as nat,
            sample_rate,
        ),
    decreases j2 - j1,
{
    if j1 < j2 {
        lemma_batch_times_increase(batches, sample_rate, batch_size, j1, j2 - 1);
        assert(batches[j2 - 1].timestamp < batches[j2].timestamp - backward_offset(
            (batch_size - 1) as nat,
            sample_rate,
        ));
    }
}

/// A run of batches of equal size, none dropped and each beginning after
/// the one before it has ended, yields records whose timestamps strictly
/// increase, at rates of at most one sample per nanosecond.
pub proof fn lemma_run_strictly_ordered<T: Copy>(
    batches: Seq<BatchedScan<T>>,
    sample_rate: nat,
    batch_size: nat,
)
    requires
        0 < sample_rate <= 1_000_000_000,
        uniform_run(batches, sample_rate, batch_size),
        spaced_run(batches, sample_rate, batch_size),
    ensures
        forall|a: int, b: int|
            0 <= a < b < all_records(batches, sample_rate).len() ==> (#[trigger] all_records(
                batches,
                sample_rate,
            )[a]).timestamp < (#[trigger] all_records(batches, sample_rate)[b]).timestamp,
{
    let n = batch_size as int;
    let k = batches.len() as int;
    let all = all_records(batches, sample_rate);
    lemma_uniform_run(batches, sample_rate, batch_size);
    if n == 0 {
        assert(k * n == 0) by (nonlinear_arith)
            requires
                n == 0,
        ;
    } else {
        assert forall|a: int, b: int| 0 <= a < b < all.len() implies (#[trigger] all[a]).timestamp
            < (#[trigger] all[b]).timestamp by {
            let ja = a / n;
            let ia = a % n;
            let jb = b / n;
            let ib = b % n;
            lemma_fundamental_div_mod(a, n);
            lemma_fundamental_div_mod(b, n);
            lemma_div_is_ordered(a, b, n);
            assert(0 <= ja < k && 0 <= jb < k);
            let ra = batches[ja].records(sample_rate);
            let rb = batches[jb].records(sample_rate);
            assert(all[a] == ra[ia]);
            assert(all[b] == rb[ib]);
            batches[ja].lemma_records_chronological(sample_rate);
            batches[jb].lemma_records_chronological(sample_rate);
            if ja == jb {
                assert(ra[ia].timestamp < ra[ib].timestamp);
            } else {
                lemma_batch_times_increase(batches, sample_rate, batch_size, ja, jb);
                assert(ra[ia].timestamp <= ra[n - 1].timestamp);
                assert(ra[n - 1] == ra.last());
                assert(rb[0] == rb.first());
                assert(rb[0].timestamp <= rb[ib].timestamp);
            }
        }
    }
}

/// One channel's pipeline: its sample rate and the tee in front of its
/// display.
pub struct ChannelPipeline {
    sample_rate: u64,
    tee: Bifurcate,
}

impl ChannelPipeline {
    /// Samples per second.
    pub closed spec fn sample_rate(&self) -> nat {
        self.sample_rate as nat
    }

    /// Every `stride`-th forwarded batch is shown to the display.
    pub closed spec fn stride(&self) -> nat {
        self.tee.stride()
    }

    /// Number of batches forwarded so far.
    pub closed spec fn forwarded(&self) -> nat {
        self.tee.seen()
    }

    /// The rate is positive and the tee is in order.
    pub closed spec fn wf(&self) -> bool {
        self.sample_rate > 0 && self.tee.wf()
    }

    /// A pipeline that is in order has a positive rate and a positive
    /// stride.
    pub proof fn lemma_wf_positive(&self)
        requires
            self.wf(),
        ensures
            self.sample_rate() > 0,
            self.stride() > 0,
    {
        self.tee.lemma_wf_stride_positive();
    }

    /// A pipeline that has forwarded nothing yet.
    pub fn new(sample_rate: u64, stride: usize) -> (pipeline: Self)
        requires
            sample_rate > 0,
            stride > 0,
        ensures
            pipeline.wf(),
            pipeline.sample_rate() == sample_rate,
            pipeline.stride() == stride,
            pipeline.forwarded() == 0,
    {
        ChannelPipeline { sample_rate, tee: Bifurcate::new(stride) }
    }

    /// Takes one batch. A batch whose span fits is forwarded: it is
    /// expanded, all its records go to the file sink, and the display is
    /// shown the batch as well if the number of batches forwarded before it
    /// is a multiple of the stride. Any other batch is dropped and leaves
    /// the pipeline as it was.
    pub fn deliver<T: Copy>(&mut self, batch: &BatchedScan<T>) -> (out: Result<
        Delivery<T>,
        Dropped,
    >)
        requires
            old(self).wf(),
        ensures
            final(self).wf(),
            final(self).sample_rate() == old(self).sample_rate(),
            final(self).stride() == old(self).stride(),
            batch.span_fits(old(self).sample_rate()) ==> out is Ok && out->Ok_0.file@
                == batch.records(old(self).sample_rate()) && out->Ok_0.display == fires_at(
                old(self).forwarded(),
                old(self).stride(),
            ) && final(self).forwarded() == old(self).forwarded() + 1,
            !batch.span_fits(old(self).sample_rate()) ==> out == Err::<Delivery<T>, Dropped>(
                Dropped::BeforeTimeZero,
            ) && final(self).forwarded() == old(self).forwarded(),
    {
        if !batch.check_span(self.sample_rate) {
            return Err(Dropped::BeforeTimeZero);
        }
        let file: Vec<ScanData<T>> = batch.into_scan(self.sample_rate);
        let display: bool = self.tee.poll_next(Polled::Item);
        Ok(Delivery { file, display })
    }

    /// Takes a run of batches, in order. The file sink gets every record of
    /// every forwarded batch; the display is shown every `stride`-th
    /// forwarded batch, counted from the first batch that the pipeline ever
    /// forwarded; dropped batches are counted.
    pub fn run<T: Copy>(&mut self, batches: &Vec<BatchedScan<T>>) -> (out: RunOutput<T>)
        requires
            old(self).wf(),
        ensures
            final(self).wf(),
            final(self).sample_rate() == old(self).sample_rate(),
            final(self).stride() == old(self).stride(),
            out.file@ == all_records(batches@, old(self).sample_rate()),
            shown_views(out.display@) == teed(
                forwarded_batches(batches@, old(self).sample_rate()),
                old(self).stride(),
                old(self).forwarded(),
            ),
            out.dropped == dropped_count(batches@, old(self).sample_rate()),
            final(self).forwarded() == old(self).forwarded() + forwarded_batches(
                batches@,
                old(self).sample_rate(),
            ).len(),
    {
        let count: usize = batches.len();
        let mut file: Vec<ScanData<T>> = Vec::new();
        let mut display: Vec<Vec<ScanData<T>>> = Vec::new();
        let mut dropped: usize = 0;
        let mut k: usize = 0;
        assert(shown_views(display@) =~= Seq::<Seq<ScanData<T>>>::empty());
        while k < count
            invariant
                count == batches@.len(),
                k <= count,
                dropped <= k,
                self.wf(),
                self.sample_rate() == old(self).sample_rate(),
                self.stride() == old(self).stride(),
                self.forwarded() == old(self).forwarded() + forwarded_batches(
                    batches@.take(k as int),
                    old(self).sample_rate(),
                ).len(),
                file@ == all_records(batches@.take(k as int), old(self).sample_rate()),
                shown_views(display@) == teed(
                    forwarded_batches(batches@.take(k as int), old(self).sample_rate()),
                    old(self).stride(),
                    old(self).forwarded(),
                ),
                dropped == dropped_count(batches@.take(k as int), old(self).sample_rate()),
            decreases count - k,
        {
            let ghost shown_before = shown_views(display@);
            let ghost forwarded_before = forwarded_batches(
                batches@.take(k as int),
                old(self).sample_rate(),
            );
            proof {
                assert(batches@.take(k + 1).drop_last() =~= batches@.take(k as int));
                assert(batches@.take(k + 1).last() == batches@[k as int]);
            }
            match self.deliver(&batches[k]) {
                Ok(delivery) => {
                    let mut part: Delivery<T> = delivery;
                    let ghost records = part.file@;
                    proof {
                        assert(forwarded_before.push(records).drop_last() =~= forwarded_before);
                        assert(forwarded_before.push(records).last() == records);
                    }
                    if part.display {
                        display.push(copy_records(&part.file));
                        assert(shown_views(display@) =~= shown_before.push(records));
                    } else {
                        assert(shown_views(display@) =~= shown_before);
                    }
                    file.append(&mut part.file);
                },
                Err(_) => {
                    dropped += 1;
                    assert(file@ + Seq::<ScanData<T>>::empty() =~= file@);
                    assert(shown_views(display@) =~= shown_before);
                },
            }
            k += 1;
        }
        assert(batches@.take(count as int) =~= batches@);
        RunOutput { file, display, dropped }
    }
}

/// A copy of the records.
fn copy_records<T: Copy>(records: &Vec<ScanData<T>>) -> (copy: Vec<ScanData<T>>)
    ensures
        copy@ == records@,
{
    let n: usize = records.len();
    let mut copy: Vec<ScanData<T>> = Vec::with_capacity(n);
    let mut i: usize = 0;
    while i < n
        invariant
            n == records@.len(),
            i <= n,
            copy@ == records@.take(i as int),
        decreases n - i,
    {
        copy.push(records[i]);
        assert(copy@ =~= records@.take(i + 1));
        i += 1;
    }
    assert(records@.take(n as int) =~= records@);
    copy
}

} // verus!
