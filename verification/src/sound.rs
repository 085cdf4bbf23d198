//! Queues of sound samples. What a sample is does not matter here.

use std::collections::VecDeque;

use vstd::prelude::*;

use crate::assoc::{distinct_keys, Assoc, Key};

verus! {

/// How many samples a second of voice has.
pub const VOICE_RATE: usize = 48_000;

/// How many samples go into one packet of voice: 20 ms.
pub const FRAME_SAMPLES: usize = 960;

/// The last `max` items of a list.
pub open spec fn newest<S>(s: Seq<S>, max: int) -> Seq<S> {
    if s.len() > max {
        s.skip(s.len() - max)
    } else {
        s
    }
}

/// Puts items behind a queue, which drops the oldest ones beyond `max`.
pub fn push_bounded<S>(q: &mut VecDeque<S>, items: Vec<S>, max: usize)
    ensures
        final(q)@ == newest(old(q)@ + items@, max as int),
{
    let ghost before = q@;
    let ghost list = items@;
    proof {
        assert(before + list.take(0) =~= before);
    }
    for x in it: items
        invariant
            it.seq() == list,
            q@ == before + list.take(it.index() as int),
    {
        q.push_back(x);
        proof {
            assert(q@ =~= before + list.take(it.index() + 1));
        }
    }
    let ghost all = before + list;
    proof {
        assert(list.take(list.len() as int) =~= list);
        assert(q@ =~= all.skip(0));
    }
    let ghost mut gone: int = 0;
    while q.len() > max
        invariant
            0 <= gone <= all.len(),
            q@ == all.skip(gone),
            gone > 0 ==> all.len() - gone >= max,
        decreases q@.len(),
    {
        let _ = q.pop_front();
        proof {
            gone = gone + 1;
            assert(q@ =~= all.skip(gone));
        }
    }
    proof {
        if all.len() > max {
            assert(gone == all.len() - max);
        } else {
            assert(gone == 0);
            assert(q@ =~= all);
        }
    }
}

/// What waits to be played, per speaker.
pub struct OutputMix<S> {
    pub buffers: Assoc<u64, VecDeque<S>>,
}

/// The first samples of the queues that have any, in the order of the queues.
pub open spec fn fronts<S>(qs: Seq<(u64, VecDeque<S>)>) -> Seq<S>
    decreases qs.len(),
{
    if qs.len() == 0 {
        Seq::empty()
    } else {
        let rest = fronts(qs.drop_last());
        if qs.last().1@.len() > 0 {
            rest.push(qs.last().1@[0])
        } else {
            rest
        }
    }
}

/// A queue without its first sample.
pub open spec fn popped<S>(q: Seq<S>) -> Seq<S> {
    if q.len() > 0 {
        q.drop_first()
    } else {
        q
    }
}

impl<S> OutputMix<S> {
    /// No speaker has two queues.
    pub open spec fn wf(&self) -> bool {
        self.buffers.distinct()
    }

    pub fn new() -> (m: OutputMix<S>)
        ensures
            m.wf(),
            m.buffers@ == Map::<u64, VecDeque<S>>::empty(),
    {
        OutputMix { buffers: Assoc::new() }
    }

    /// Samples of a speaker arrived; at most a second of them waits.
    pub fn push(&mut self, speaker: u64, samples: Vec<S>)
        requires
            old(self).wf(),
        ensures
            final(self).wf(),
            final(self).buffers@ == old(self).buffers@.insert(
                speaker,
                final(self).buffers@[speaker],
            ),
            final(self).buffers@[speaker]@ == newest(
                if old(self).buffers@.contains_key(speaker) {
                    old(self).buffers@[speaker]@
                } else {
                    Seq::empty()
                } + samples@,
                48_000,
            ),
    {
        let mut q: VecDeque<S> = match self.buffers.take(&speaker) {
            Some(q) => q,
            None => VecDeque::new(),
        };
        push_bounded(&mut q, samples, VOICE_RATE);
        self.buffers.insert(speaker, q);
        proof {
            assert(self.buffers@ =~= old(self).buffers@.insert(speaker, q));
        }
    }

    /// A speaker is gone.
    pub fn remove(&mut self, speaker: u64)
        requires
            old(self).wf(),
        ensures
            final(self).wf(),
            final(self).buffers@ == old(self).buffers@.remove(speaker),
    {
        self.buffers.remove(&speaker);
    }

    /// Takes the next sample of every speaker that has one.
    pub fn pop_all(&mut self) -> (r: Vec<S>)
        requires
            old(self).wf(),
        ensures
            final(self).wf(),
            r@ == fronts(old(self).buffers.pairs@),
            final(self).buffers.pairs@.len() == old(self).buffers.pairs@.len(),
            forall|i: int|
                0 <= i < final(self).buffers.pairs@.len() ==> (#[trigger] final(
                    self
                ).buffers.pairs@[i]).0 == old(self).buffers.pairs@[i].0 && final(
                    self
                ).buffers.pairs@[i].1@ == popped(old(self).buffers.pairs@[i].1@),
    {
        let mut r: Vec<S> = Vec::new();
        let mut i: usize = 0;
        let ghost before = self.buffers.pairs@;
        while i < self.buffers.pairs.len()
            invariant
                i <= self.buffers.pairs.len(),
                distinct_keys(before),
                self.buffers.pairs@.len() == before.len(),
                forall|k: int|
                    0 <= k < before.len() ==> (#[trigger] self.buffers.pairs@[k]).0 == before[k].0,
                forall|k: int|
                    0 <= k < i ==> (#[trigger] self.buffers.pairs@[k]).1@ == popped(before[k].1@),
                forall|k: int|
                    i <= k < before.len() ==> (#[trigger] self.buffers.pairs@[k]) == before[k],
                r@ == fronts(before.take(i as int)),
            decreases self.buffers.pairs.len() - i,
        {
            proof {
                assert(before.take(i + 1).drop_last() =~= before.take(i as int));
                assert(self.buffers.pairs@[i as int] == before[i as int]);
            }
            let pair = &mut self.buffers.pairs[i];
            match pair.1.pop_front() {
                Some(x) => r.push(x),
                None => {},
            }
            proof {
                assert(self.buffers.pairs@[i as int].1@ =~= popped(before[i as int].1@));
            }
            i += 1;
        }
        proof {
            assert(before.take(i as int) =~= before);
            assert forall|a: int, b: int|
                0 <= a < b < self.buffers.pairs@.len() implies (#[trigger] self.buffers.pairs@[a]).0.key()
                != (#[trigger] self.buffers.pairs@[b]).0.key() by {
                assert(before[a].0.key() != before[b].0.key());
            }
        }
        r
    }
}

/// The whole packets in a list of samples.
pub open spec fn packets<S>(s: Seq<S>, n: int) -> Seq<Seq<S>>
    decreases s.len(),
{
    if n > 0 && s.len() >= n {
        seq![s.take(n)] + packets(s.skip(n), n)
    } else {
        Seq::empty()
    }
}

/// What is left of a list of samples behind its whole packets.
pub open spec fn remainder<S>(s: Seq<S>, n: int) -> Seq<S>
    decreases s.len(),
{
    if n > 0 && s.len() >= n {
        remainder(s.skip(n), n)
    } else {
        s
    }
}

/// Takes the whole packets of `n` samples off the front of what has been collected.
pub fn take_packets<S: Copy>(acc: &mut Vec<S>, n: usize) -> (r: Vec<Vec<S>>)
    requires
        n > 0,
    ensures
        r@.map_values(|p: Vec<S>| p@) == packets(old(acc)@, n as int),
        final(acc)@ == remainder(old(acc)@, n as int),
{
    let ghost all = acc@;
    let mut r: Vec<Vec<S>> = Vec::new();
    proof {
        assert(r@.map_values(|p: Vec<S>| p@) + packets(acc@, n as int) =~= packets(
            all,
            n as int,
        ));
    }
    while acc.len() >= n
        invariant
            n > 0,
            r@.map_values(|p: Vec<S>| p@) + packets(acc@, n as int) == packets(all, n as int),
            remainder(acc@, n as int) == remainder(all, n as int),
        decreases acc.len(),
    {
        let ghost now = acc@;
        let ghost sofar = r@;
        let rest = acc.split_off(n);
        let mut packet = rest;
        std::mem::swap(&mut packet, acc);
        proof {
            assert(packet@ =~= now.take(n as int));
            assert(acc@ =~= now.skip(n as int));
        }
        let ghost p = packet@;
        r.push(packet);
        proof {
            assert(r@.map_values(|p: Vec<S>| p@) =~= sofar.map_values(|p: Vec<S>| p@).push(p));
            assert(sofar.map_values(|p: Vec<S>| p@) + (seq![p] + packets(acc@, n as int))
                =~= r@.map_values(|p: Vec<S>| p@) + packets(acc@, n as int));
        }
    }
    proof {
        assert(r@.map_values(|p: Vec<S>| p@) =~= packets(all, n as int));
    }
    r
}

/// The packets one behind the other.
pub open spec fn joined_packets<S>(ps: Seq<Seq<S>>) -> Seq<S>
    decreases ps.len(),
{
    if ps.len() == 0 {
        Seq::empty()
    } else {
        ps[0] + joined_packets(ps.drop_first())
    }
}

/// No sample is lost and none changes its place: the packets and the remainder make the list.
pub proof fn packets_keep_every_sample<S>(s: Seq<S>, n: int)
    requires
        n > 0,
    ensures
        joined_packets(packets(s, n)) + remainder(s, n) == s,
    decreases s.len(),
{
    if s.len() >= n {
        packets_keep_every_sample(s.skip(n), n);
        let ps = packets(s, n);
        assert(ps[0] == s.take(n));
        assert(ps.drop_first() =~= packets(s.skip(n), n));
        assert(joined_packets(ps) + remainder(s, n) =~= s.take(n) + (joined_packets(
            packets(s.skip(n), n),
        ) + remainder(s.skip(n), n)));
        assert(s.take(n) + s.skip(n) =~= s);
    } else {
        assert(Seq::<S>::empty() + s =~= s);
    }
}

// ---------------------------------------------------------------------------
// Devices
// ---------------------------------------------------------------------------

/// What a device offers: whether its samples are single precision numbers, and its range of rates.
pub struct Offered {
    pub float_samples: bool,
    pub min_rate: u32,
    pub max_rate: u32,
}

pub open spec fn suits(o: Offered, rate: u32) -> bool {
    o.float_samples && o.min_rate <= rate <= o.max_rate
}

/// The first configuration of a device that suits a rate.
pub fn pick_config(offers: &Vec<Offered>, rate: u32) -> (r: Option<usize>)
    ensures
        match r {
            Some(i) => i < offers.len() && suits(offers@[i as int], rate) && forall|j: int|
                0 <= j < i ==> !suits(#[trigger] offers@[j], rate),
            None => forall|j: int| 0 <= j < offers.len() ==> !suits(#[trigger] offers@[j], rate),
        },
{
    let mut i: usize = 0;
    while i < offers.len()
        invariant
            i <= offers.len(),
            forall|j: int| 0 <= j < i ==> !suits(#[trigger] offers@[j], rate),
        decreases offers.len() - i,
    {
        let o = &offers[i];
        if o.float_samples && o.min_rate <= rate && rate <= o.max_rate {
            return Some(i);
        }
        i += 1;
    }
    None
}

} // verus!
