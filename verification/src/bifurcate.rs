//! The strided tee: every item of a stream passes through unchanged, and
//! every `stride`-th item, counted from zero, is also shown to a side
//! consumer.
//!
//! The operator itself only decides; whoever drives the stream performs the
//! side effect when told to.

use vstd::prelude::*;
use vstd::arithmetic::div_mod::*;

verus! {

/// Number of items among the first `len` whose position is a multiple of
/// `stride`: `len / stride`, rounded up.
pub open spec fn fire_count(len: nat, stride: nat) -> nat {
    ((len + stride - 1) / (stride as int)) as nat
}

/// Whether the item at `position` is shown to the side consumer.
pub open spec fn fires_at(position: nat, stride: nat) -> bool {
    position % stride == 0
}

/// The items shown to the side consumer, in order.
pub open spec fn side_items<T>(items: Seq<T>, stride: nat) -> Seq<T> {
    Seq::new(fire_count(items.len(), stride), |j: int| items[j * stride])
}

/// The items shown to the side consumer by a tee that has already seen
/// `seen` items: those whose position, counted from the first item the tee
/// ever saw, is a multiple of the stride.
pub open spec fn teed<T>(items: Seq<T>, stride: nat, seen: nat) -> Seq<T>
    decreases items.len(),
{
    if items.len() == 0 {
        Seq::empty()
    } else {
        let before = teed(items.drop_last(), stride, seen);
        if fires_at((seen + items.len() - 1) as nat, stride) {
            before.push(items.last())
        } else {
            before
        }
    }
}

/// Counting one more item adds one to `fire_count` exactly when the item's
/// position is a multiple of the stride, and then the position is
/// `fire_count * stride`.
pub proof fn lemma_fire_count_step(len: nat, stride: nat)
    requires
        stride > 0,
    ensures
        fire_count(len + 1, stride) == fire_count(len, stride) + if fires_at(len, stride) {
            1nat
        } else {
            0nat
        },
        fires_at(len, stride) ==> fire_count(len, stride) * stride == len,
        fire_count(0, stride) == 0,
{
    let n = stride as int;
    let x = len as int;
    let q = x / n;
    let r = x % n;
    lemma_fundamental_div_mod(x, n);
    assert(x == q * n + r) by (nonlinear_arith)
        requires
            x == n * q + r,
    ;
    assert((q + 1) * n == q * n + n) by (nonlinear_arith);
    if r == 0 {
        lemma_fundamental_div_mod_converse(x + n - 1, n, q, n - 1);
        lemma_fundamental_div_mod_converse(x + n, n, q + 1, 0);
    } else {
        lemma_fundamental_div_mod_converse(x + n - 1, n, q + 1, r - 1);
        lemma_fundamental_div_mod_converse(x + n, n, q + 1, r);
    }
    lemma_fundamental_div_mod_converse(n - 1, n, 0, n - 1);
}

/// The positions shown to the side consumer are `0, stride, 2 * stride, ..`
/// below `len`, and no others.
pub proof fn lemma_fire_positions(len: nat, stride: nat)
    requires
        stride > 0,
    ensures
        forall|j: int| 0 <= j < fire_count(len, stride) ==> 0 <= #[trigger] (j * stride) < len,
        forall|p: nat|
            p < len && #[trigger] fires_at(p, stride) ==> p / stride < fire_count(len, stride)
                && (p / stride) * stride == p,
        forall|j: int| 0 <= j ==> fires_at(#[trigger] (j * stride) as nat, stride),
{
    let n = stride as int;
    let c = fire_count(len, stride) as int;
    lemma_fundamental_div_mod(len + n - 1, n);
    assert forall|j: int| 0 <= j < c implies 0 <= #[trigger] (j * stride) < len by {
        assert(j * n <= (c - 1) * n) by (nonlinear_arith)
            requires
                0 <= j <= c - 1,
                n > 0,
        ;
        assert((c - 1) * n == n * c - n) by (nonlinear_arith);
        assert(0 <= j * n) by (nonlinear_arith)
            requires
                0 <= j,
                n > 0,
        ;
    }
    assert forall|p: nat| p < len && #[trigger] fires_at(p, stride) implies p / stride
        < fire_count(len, stride) && (p / stride) * stride == p by {
        let q = (p as int) / n;
        lemma_fundamental_div_mod(p as int, n);
        assert(q * n == n * q) by (nonlinear_arith);
        if q >= c {
            assert(q * n >= c * n) by (nonlinear_arith)
                requires
                    q >= c,
                    n > 0,
            ;
            assert(c * n == n * c) by (nonlinear_arith);
        }
    }
    assert forall|j: int| 0 <= j implies fires_at(#[trigger] (j * stride) as nat, stride) by {
        assert(0 <= j * n) by (nonlinear_arith)
            requires
                0 <= j,
                n > 0,
        ;
        lemma_fundamental_div_mod_converse(j * n, n, j, 0);
    }
}

/// A fresh tee shows the items at positions `0, stride, 2 * stride, ..`.
pub proof fn lemma_teed_from_start<T>(items: Seq<T>, stride: nat)
    requires
        stride > 0,
    ensures
        teed(items, stride, 0) == side_items(items, stride),
    decreases items.len(),
{
    if items.len() == 0 {
        lemma_fire_count_step(0, stride);
        assert(teed(items, stride, 0) =~= side_items(items, stride));
    } else {
        let shorter = items.drop_last();
        let len = shorter.len();
        lemma_teed_from_start(shorter, stride);
        lemma_fire_count_step(len, stride);
        lemma_fire_positions(len, stride);
        assert forall|j: int| 0 <= j < fire_count(len, stride) implies shorter[#[trigger] (j
            * stride)] == items[j * stride] by {
            assert(0 <= j * stride < len);
        }
        assert(teed(items, stride, 0) =~= side_items(items, stride));
    }
}

/// What a tee shows of two runs of items, one after the other, is what it
/// shows of the first followed by what it then shows of the second.
pub proof fn lemma_teed_concat<T>(first: Seq<T>, second: Seq<T>, stride: nat, seen: nat)
    ensures
        teed(first + second, stride, seen) == teed(first, stride, seen) + teed(
            second,
            stride,
            seen + first.len(),
        ),
    decreases second.len(),
{
    if second.len() == 0 {
        assert(first + second =~= first);
        assert(teed(first, stride, seen) + teed(second, stride, seen + first.len()) =~= teed(
            first,
            stride,
            seen,
        ));
    } else {
        lemma_teed_concat(first, second.drop_last(), stride, seen);
        assert((first + second).drop_last() =~= first + second.drop_last());
        assert((first + second).last() == second.last());
        assert(teed(first + second, stride, seen) =~= teed(first, stride, seen) + teed(
            second,
            stride,
            seen + first.len(),
        ));
    }
}

/// What the source of a stream answered when asked for its next item.
#[derive(Debug, Clone, Copy, PartialEq, Eq, Structural)]
pub enum Polled {
    /// No item is ready yet.
    Pending,
    /// An item is ready.
    Item,
    /// The source has ended, cleanly or with an error.
    Finished,
}

/// State of one strided tee. It is made fresh for each run and counts the
/// items that have passed.
pub struct Bifurcate {
    phase: usize,
    stride: usize,
    seen: Ghost<nat>,
}

impl Bifurcate {
    /// The stride: every `stride`-th item fires.
    pub closed spec fn stride(&self) -> nat {
        self.stride as nat
    }

    /// Number of items that have passed so far.
    pub closed spec fn seen(&self) -> nat {
        self.seen@
    }

    /// The stride is positive and the stored phase is the count of items
    /// passed, taken modulo the stride.
    pub closed spec fn wf(&self) -> bool {
        &&& self.stride > 0
        &&& self.phase == self.seen@ % (self.stride as nat)
    }

    /// A tee that is in order has a positive stride.
    pub proof fn lemma_wf_stride_positive(&self)
        requires
            self.wf(),
        ensures
            self.stride() > 0,
    {
    }

    /// A tee with the given stride that has seen no item.
    pub fn new(n: usize) -> (op: Self)
        requires
            n > 0,
        ensures
            op.wf(),
            op.stride() == n,
            op.seen() == 0,
    {
        proof {
            lemma_fundamental_div_mod_converse(0, n as int, 0, 0);
        }
        Bifurcate { phase: 0, stride: n, seen: Ghost(0) }
    }

    /// Takes note of what the source answered and says whether the side
    /// consumer is to be shown the item. It is shown exactly the items at
    /// positions that are multiples of the stride; an answer without an item
    /// changes nothing.
    pub fn poll_next(&mut self, polled: Polled) -> (fire: bool)
        requires
            old(self).wf(),
        ensures
            final(self).wf(),
            final(self).stride() == old(self).stride(),
            polled == Polled::Item ==> final(self).seen() == old(self).seen() + 1,
            polled != Polled::Item ==> final(self).seen() == old(self).seen(),
            fire == (polled == Polled::Item && fires_at(old(self).seen(), old(self).stride())),
    {
        match polled {
            Polled::Item => {
                let fire: bool = self.phase == 0;
                proof {
                    let n = self.stride as int;
                    let x = self.seen@ as int;
                    lemma_fundamental_div_mod(x, n);
                    assert((x / n + 1) * n == n * (x / n) + n) by (nonlinear_arith);
                    if self.phase + 1 == self.stride {
                        lemma_fundamental_div_mod_converse(x + 1, n, x / n + 1, 0);
                    } else {
                        assert((x / n) * n == n * (x / n)) by (nonlinear_arith);
                        lemma_fundamental_div_mod_converse(x + 1, n, x / n, self.phase + 1);
                    }
                    self.seen = Ghost((self.seen@ + 1) as nat);
                }
                if self.phase + 1 == self.stride {
                    self.phase = 0;
                } else {
                    self.phase = self.phase + 1;
                }
                fire
            },
            _ => false,
        }
    }
}

impl Bifurcate {
    /// Passes a run of items through the tee and returns those that the side
    /// consumer is shown. The main path is the run itself.
    pub fn feed<T: Copy>(&mut self, items: &Vec<T>) -> (side: Vec<T>)
        requires
            old(self).wf(),
        ensures
            final(self).wf(),
            final(self).stride() == old(self).stride(),
            final(self).seen() == old(self).seen() + items@.len(),
            side@ == teed(items@, old(self).stride(), old(self).seen()),
    {
        let len: usize = items.len();
        let mut side: Vec<T> = Vec::new();
        let mut i: usize = 0;
        while i < len
            invariant
                len == items@.len(),
                i <= len,
                self.wf(),
                self.stride() == old(self).stride(),
                self.seen() == old(self).seen() + i,
                side@ == teed(items@.take(i as int), old(self).stride(), old(self).seen()),
            decreases len - i,
        {
            let fire: bool = self.poll_next(Polled::Item);
            if fire {
                side.push(items[i]);
            }
            proof {
                assert(items@.take(i + 1).drop_last() =~= items@.take(i as int));
                assert(items@.take(i + 1).last() == items@[i as int]);
            }
            i += 1;
        }
        assert(items@.take(len as int) =~= items@);
        side
    }
}

/// Runs a whole finite stream through a tee of the given stride. The first
/// result is the main path, the second what the side consumer was shown.
pub fn bifurcate<T: Copy>(items: &Vec<T>, n: usize) -> (out: (Vec<T>, Vec<T>))
    requires
        n > 0,
    ensures
        out.0@ == items@,
        out.1@ == side_items(items@, n as nat),
{
    let len: usize = items.len();
    let mut op: Bifurcate = Bifurcate::new(n);
    let mut main: Vec<T> = Vec::with_capacity(len);
    let mut side: Vec<T> = Vec::new();
    let mut i: usize = 0;
    proof {
        lemma_fire_count_step(0, n as nat);
    }
    while i < len
        invariant
            len == items@.len(),
            n > 0,
            op.wf(),
            op.stride() == n,
            op.seen() == i,
            i <= len,
            main@ == items@.take(i as int),
            side@.len() == fire_count(i as nat, n as nat),
            forall|j: int| 0 <= j < side@.len() ==> side@[j] == items@[j * n],
        decreases len - i,
    {
        proof {
            lemma_fire_count_step(i as nat, n as nat);
        }
        let fire: bool = op.poll_next(Polled::Item);
        if fire {
            side.push(items[i]);
        }
        main.push(items[i]);
        assert(main@ =~= items@.take(i + 1));
        i += 1;
    }
    assert(main@ =~= items@);
    assert(side@ =~= side_items(items@, n as nat));
    (main, side)
}

} // verus!
