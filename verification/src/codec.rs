//! The queues in front of and behind the codecs of voice channels.

use std::collections::VecDeque;

use vstd::prelude::*;

verus! {

/// The samples per second of voice.
pub const SAMPLE_RATE: u32 = 48_000;

/// The samples of one packet: 20 ms.
pub const FRAME_SAMPLES: usize = 960;

/// A decoder of video that works aside: access units go in at one end, and pictures of four bytes
/// per pixel come out at the other.
pub struct HevcDec {
    /// Whether the decoder still takes access units.
    pub open: bool,
    /// What waits to be decoded.
    pub units: VecDeque<Vec<u8>>,
    /// What was decoded and not fetched yet: width, height and pixels.
    pub frames: Vec<(u32, u32, Vec<u8>)>,
}

impl HevcDec {
    pub fn new() -> (d: HevcDec)
        ensures
            d.open,
            d.units@.len() == 0,
            d.frames@.len() == 0,
    {
        HevcDec { open: true, units: VecDeque::new(), frames: Vec::new() }
    }

    /// Hands an access unit to the decoder, and says whether it was taken.
    pub fn feed(&mut self, au: Vec<u8>) -> (ok: bool)
        ensures
            ok == old(self).open,
            *final(self) == (HevcDec { units: final(self).units, ..*old(self) }),
            final(self).units@ == if ok {
                old(self).units@.push(au)
            } else {
                old(self).units@
            },
    {
        if self.open {
            self.units.push_back(au);
            true
        } else {
            false
        }
    }

    /// The next access unit to decode.
    pub fn next_unit(&mut self) -> (r: Option<Vec<u8>>)
        ensures
            *final(self) == (HevcDec { units: final(self).units, ..*old(self) }),
            match r {
                Some(au) => old(self).units@.len() > 0 && au == old(self).units@[0]
                    && final(self).units@ == old(self).units@.drop_first(),
                None => old(self).units@.len() == 0 && final(self).units@ == old(self).units@,
            },
    {
        let r = self.units.pop_front();
        proof {
            if old(self).units@.len() > 0 {
                assert(self.units@ =~= old(self).units@.drop_first());
            }
        }
        r
    }

    /// A picture was decoded.
    pub fn decoded(&mut self, width: u32, height: u32, rgba: Vec<u8>)
        ensures
            *final(self) == (HevcDec { frames: final(self).frames, ..*old(self) }),
            final(self).frames@ == old(self).frames@.push((width, height, rgba)),
    {
        self.frames.push((width, height, rgba));
    }

    /// The decoder is gone.
    pub fn close(&mut self)
        ensures
            *final(self) == (HevcDec { open: false, ..*old(self) }),
    {
        self.open = false;
    }

    /// Fetches all pictures that were decoded so far, in order.
    pub fn try_drain(&mut self) -> (r: Vec<(u32, u32, Vec<u8>)>)
        ensures
            r@ == old(self).frames@,
            *final(self) == (HevcDec { frames: final(self).frames, ..*old(self) }),
            final(self).frames@.len() == 0,
    {
        let mut r: Vec<(u32, u32, Vec<u8>)> = Vec::new();
        std::mem::swap(&mut r, &mut self.frames);
        r
    }
}

/// The samples of a packet: the first ones of a list, filled up with silence.
pub open spec fn fitted<S>(samples: Seq<S>, n: int, silence: S) -> Seq<S> {
    Seq::new(
        n as nat,
        |i: int|
            if i < samples.len() {
                samples[i]
            } else {
                silence
            },
    )
}

pub fn fit_packet<S: Copy>(samples: &Vec<S>, n: usize, silence: S) -> (r: Vec<S>)
    ensures
        r@ == fitted(samples@, n as int, silence),
{
    let mut r: Vec<S> = Vec::new();
    let mut i: usize = 0;
    while i < n
        invariant
            i <= n,
            r@ == fitted(samples@, n as int, silence).take(i as int),
        decreases n - i,
    {
        if i < samples.len() {
            r.push(samples[i]);
        } else {
            r.push(silence);
        }
        i += 1;
        proof {
            assert(r@ =~= fitted(samples@, n as int, silence).take(i as int));
        }
    }
    proof {
        assert(r@ =~= fitted(samples@, n as int, silence));
    }
    r
}

/// The bytes of some packets, one behind the other.
pub open spec fn concatenated(ps: Seq<Vec<u8>>) -> Seq<u8>
    decreases ps.len(),
{
    if ps.len() == 0 {
        Seq::empty()
    } else {
        concatenated(ps.drop_last()) + ps.last()@
    }
}

/// Puts the packets of an encoder together; without any byte there is nothing.
pub fn collect_packets(packets: Vec<Vec<u8>>) -> (r: Option<Vec<u8>>)
    ensures
        match r {
            Some(b) => b@ == concatenated(packets@) && b@.len() > 0,
            None => concatenated(packets@).len() == 0,
        },
{
    let ghost all = packets@;
    let mut out: Vec<u8> = Vec::new();
    for p in it: packets
        invariant
            it.seq() == all,
            out@ == concatenated(all.take(it.index() as int)),
    {
        proof {
            let i = it.index() as int;
            assert(all.take(i + 1).drop_last() =~= all.take(i));
            assert(all.take(i + 1).last() == p);
        }
        let mut bytes = p;
        out.append(&mut bytes);
    }
    proof {
        assert(all.take(all.len() as int) =~= all);
    }
    if out.len() == 0 {
        None
    } else {
        Some(out)
    }
}

/// Collects the pieces of an access unit, which ends with the piece that bears the mark.
pub struct UnitBuffer {
    pub bytes: Vec<u8>,
}

impl UnitBuffer {
    pub fn new() -> (b: UnitBuffer)
        ensures
            b.bytes@.len() == 0,
    {
        UnitBuffer { bytes: Vec::new() }
    }

    /// Adds a piece, and gives back the whole unit where it ends.
    pub fn push(&mut self, mut piece: Vec<u8>, marker: bool) -> (r: Option<Vec<u8>>)
        ensures
            match r {
                Some(unit) => marker && unit@ == old(self).bytes@ + piece@
                    && final(self).bytes@.len() == 0,
                None => !marker && final(self).bytes@ == old(self).bytes@ + piece@,
            },
    {
        self.bytes.append(&mut piece);
        if marker {
            let mut unit: Vec<u8> = Vec::new();
            std::mem::swap(&mut unit, &mut self.bytes);
            Some(unit)
        } else {
            None
        }
    }
}

/// Whether a frame of a capture has to stand for itself: every `period`-th one, from the first on.
pub fn is_key_frame(frame_no: u64, period: u64) -> (b: bool)
    requires
        period > 0,
    ensures
        b == (frame_no % period == 0),
{
    frame_no % period == 0
}

// ---------------------------------------------------------------------------
// Laws
// ---------------------------------------------------------------------------

/// Access units are decoded in the order in which they were fed: what a decoder that is open was
/// fed comes out behind what was there before, however many units that were.
pub proof fn units_keep_their_order(before: Seq<Vec<u8>>, au: Vec<u8>)
    ensures
        before.push(au)[before.len() as int] == au,
        before.len() > 0 ==> before.push(au).drop_first() == before.drop_first().push(au),
{
    if before.len() > 0 {
        assert(before.push(au).drop_first() =~= before.drop_first().push(au));
    }
}

} // verus!
