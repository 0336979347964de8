//! A word- and bit-exact model of the sequencer: the autonomous engine
//! that shifts one transfer per cycle, refilling its outbound shift
//! buffer from the fill queue and flushing its inbound shift buffer to
//! the drain queue, with one clock toggle per half-period.
//!
//! Blocking on a queue (refill-or-wait, flush-or-wait) is modelled as a
//! precondition on the queue's contents: the engine only steps when the
//! words it would wait for are available.
use vstd::prelude::*;

use crate::config::EngineParams;
use crate::words::spec_combined;
use crate::words::spec_mask;
use crate::words::spec_words_needed;
use crate::words::split_words_spec;
use crate::MAX_BIT_WIDTH;
use crate::MIN_BIT_WIDTH;

verus! {

/// One shift register: `count` live bits, held in the low bits of `bits`.
pub struct ShiftBuffer {
    pub bits: u32,
    pub count: u32,
}

impl ShiftBuffer {
    /// The live bits fit in the low `count` positions.
    pub open spec fn wf(self) -> bool {
        &&& self.count <= 32
        &&& (self.bits as u64) < (1u64 << (self.count as u64))
    }

    /// Drained: no bits held over from a previous phase.
    pub open spec fn is_empty(self) -> bool {
        self.count == 0 && self.bits == 0
    }
}

/// The sequencer's runtime state.
///
/// The engine runs one fixed cycle forever: refill-or-wait, shift out
/// `bit_count` bits, shift in `bit_count` bits, flush-or-wait.  It is
/// created once, started once, and never cloned or shared.
pub struct EngineState {
    /// Outbound word queue: the host pushes at the back, the engine
    /// refills from the front.
    pub fill_queue: Vec<u32>,
    /// Inbound word queue: the engine flushes at the back, the host pulls
    /// from the front.
    pub drain_queue: Vec<u32>,
    /// Outbound shift buffer.
    pub osr: ShiftBuffer,
    /// Inbound shift buffer.
    pub isr: ShiftBuffer,
    /// Bits per transfer, loaded once from the first fill word at
    /// start-up and fixed from then on.
    pub bit_count: u32,
    /// Clock line level; idles high between phases.
    pub clock_high: bool,
    /// Total clock transitions observed since start-up.
    pub clock_transitions: u64,
    /// Every frame emitted on the data-out line so far, oldest first.
    pub mosi_frames: Vec<u64>,
}

impl EngineState {
    /// Both shift buffers hold no more than their width.
    pub open spec fn wf(self) -> bool {
        &&& self.osr.wf()
        &&& self.isr.wf()
    }

    /// Phase-boundary invariant: both shift buffers fully drained and the
    /// clock idle, so no bits of one transfer can reach another.
    pub open spec fn at_boundary(self) -> bool {
        &&& self.osr.is_empty()
        &&& self.isr.is_empty()
        &&& self.clock_high
    }

    /// A fresh engine: queues empty, buffers drained, clock idle high.
    pub fn new() -> (e: EngineState)
        ensures
            e.wf(),
            e.at_boundary(),
            e.fill_queue@ == Seq::<u32>::empty(),
            e.drain_queue@ == Seq::<u32>::empty(),
            e.mosi_frames@ == Seq::<u64>::empty(),
            e.clock_transitions == 0,
            e.bit_count == 0,
    {
        let e = EngineState {
            fill_queue: Vec::new(),
            drain_queue: Vec::new(),
            osr: ShiftBuffer { bits: 0, count: 0 },
            isr: ShiftBuffer { bits: 0, count: 0 },
            bit_count: 0,
            clock_high: true,
            clock_transitions: 0,
            mosi_frames: Vec::new(),
        };
        proof {
            assert(0u64 < (1u64 << 0u64)) by (bit_vector);
        }
        e
    }

    /// Start-up: the engine pulls its first word from the fill queue and
    /// keeps it as the per-transfer bit count, so one fixed program
    /// serves every width.
    pub fn start(&mut self)
        requires
            old(self).fill_queue@.len() >= 1,
        ensures
            final(self).bit_count == old(self).fill_queue@[0],
            final(self).fill_queue@ == old(self).fill_queue@.skip(1),
            final(self).drain_queue@ == old(self).drain_queue@,
            final(self).osr == old(self).osr,
            final(self).isr == old(self).isr,
            final(self).clock_high == old(self).clock_high,
            final(self).clock_transitions == old(self).clock_transitions,
            final(self).mosi_frames@ == old(self).mosi_frames@,
    {
        let w = self.fill_queue.remove(0);
        self.bit_count = w;
        proof {
            assert(old(self).fill_queue@.remove(0) =~= old(self).fill_queue@.skip(1));
        }
    }

    /// Write phase of one cycle: emit exactly `bit_count` bits on the
    /// data-out line, low bit first, refilling the outbound shift buffer
    /// from the fill queue whenever it runs dry, toggling the clock once
    /// per half-period.  Leftover buffer bits are discarded at the end of
    /// the phase so they cannot leak into a later transfer.
    ///
    /// Returns the frame put on the wire: the first `spec_words_needed`
    /// fill words recombined and masked to the transfer width.
    pub fn write_phase(&mut self, params: &EngineParams) -> (mosi: u64)
        requires
            params.wf(),
            old(self).wf(),
            old(self).bit_count == params.bit_width as u32,
            old(self).osr.is_empty(),
            old(self).clock_high,
            old(self).fill_queue@.len() >= spec_words_needed(params.bit_width as u64),
            old(self).clock_transitions + 2 * params.bit_width <= u64::MAX,
        ensures
            ({
                let bwu = params.bit_width as u64;
                let n = spec_words_needed(bwu) as int;
                &&& mosi == spec_combined(old(self).fill_queue@.take(n)) & spec_mask(bwu)
                &&& final(self).fill_queue@ == old(self).fill_queue@.skip(n)
                &&& final(self).drain_queue@ == old(self).drain_queue@
                &&& final(self).mosi_frames@ == old(self).mosi_frames@.push(mosi)
                &&& final(self).clock_transitions == old(self).clock_transitions + 2
                    * params.bit_width
                &&& final(self).wf()
                &&& final(self).osr.is_empty()
                &&& final(self).isr == old(self).isr
                &&& final(self).bit_count == old(self).bit_count
                &&& final(self).clock_high
            }),
    {
        let bw: usize = params.bit_width;
        let y: u32 = self.bit_count;
        let bw64: u64 = y as u64;
        let ghost fill0: Seq<u32> = self.fill_queue@;
        let ghost n: nat = spec_words_needed(bw as u64);
        let ghost x: u64 = spec_combined(fill0.take(n as int));
        let ghost t0: u64 = self.clock_transitions;
        let ghost mut p: nat = 0;

        let mut mosi: u64 = 0;
        let mut i: u64 = 0;

        proof {
            assert((x >> 0u64) & spec_mask(0u64) == 0 && x & spec_mask(0u64) == 0) by (bit_vector);
            assert(fill0.skip(0) =~= fill0);
        }

        while i < bw64
            invariant
                params.wf(),
                bw == params.bit_width,
                bw64 == bw as u64,
                MIN_BIT_WIDTH <= bw64 <= MAX_BIT_WIDTH,
                n == spec_words_needed(bw64),
                n == if bw64 <= 32 {
                    1nat
                } else {
                    2nat
                },
                fill0.len() >= n,
                x == spec_combined(fill0.take(n as int)),
                i <= bw64,
                self.wf(),
                32 * p == i + self.osr.count,
                p <= n,
                self.fill_queue@ == fill0.skip(p as int),
                self.osr.bits as u64 == (x >> i) & spec_mask(self.osr.count as u64),
                mosi == x & spec_mask(i),
                self.isr == old(self).isr,
                self.drain_queue@ == old(self).drain_queue@,
                self.mosi_frames@ == old(self).mosi_frames@,
                self.bit_count == old(self).bit_count,
                self.clock_high,
                t0 == old(self).clock_transitions,
                t0 + 2 * bw64 <= u64::MAX,
                self.clock_transitions == t0 + 2 * i,
            decreases bw64 - i,
        {
            if self.osr.count == 0 {
                // refill-or-wait: the buffer ran dry with bits still owed
                proof {
                    assert(p < n);
                }
                let w = self.fill_queue.remove(0);
                self.osr.bits = w;
                self.osr.count = 32;
                proof {
                    assert(fill0.skip(p as int).remove(0) =~= fill0.skip(p as int + 1));
                    assert(w == fill0[p as int]);
                    let wu = w as u64;
                    if p == 0 {
                        if n == 1 {
                            assert(x == fill0[0] as u64);
                            assert(wu == (x >> i) & spec_mask(32u64) && wu < (1u64 << 32u64))
                                by (bit_vector)
                                requires
                                    x == wu,
                                    wu < 0x1_0000_0000u64,
                                    i == 0u64,
                            ;
                        } else {
                            let w1u = fill0[1] as u64;
                            assert(x == (fill0[0] as u64) | ((fill0[1] as u64) << 32u64));
                            assert(wu == (x >> i) & spec_mask(32u64) && wu < (1u64 << 32u64))
                                by (bit_vector)
                                requires
                                    x == wu | (w1u << 32u64),
                                    wu < 0x1_0000_0000u64,
                                    i == 0u64,
                            ;
                        }
                    } else {
                        let w0u = fill0[0] as u64;
                        assert(x == w0u | ((fill0[1] as u64) << 32u64));
                        assert(wu == (x >> i) & spec_mask(32u64) && wu < (1u64 << 32u64))
                            by (bit_vector)
                            requires
                                x == w0u | (wu << 32u64),
                                wu < 0x1_0000_0000u64,
                                w0u < 0x1_0000_0000u64,
                                i == 32u64,
                        ;
                    }
                    p = p + 1;
                }
            }
            // clock falls: the output bit changes during the low half-period
            self.clock_high = false;
            self.clock_transitions = self.clock_transitions + 1;

            let ghost bits0: u32 = self.osr.bits;
            let ghost c0: u32 = self.osr.count;
            let ghost mosi0: u64 = mosi;
            let b: u32 = self.osr.bits & 1u32;
            self.osr.bits = self.osr.bits >> 1u32;
            self.osr.count = self.osr.count - 1;
            mosi = mosi | ((b as u64) << i);

            // clock rises: the slave samples the stable bit
            self.clock_high = true;
            self.clock_transitions = self.clock_transitions + 1;

            proof {
                assert((bits0 >> 1u32) as u64 == (x >> ((i + 1) as u64)) & spec_mask(
                    ((c0 - 1) as u32) as u64,
                ) && ((bits0 >> 1u32) as u64) < (1u64 << (((c0 - 1) as u32) as u64)) && (mosi0 | (((
                bits0 & 1u32) as u64) << i)) == x & spec_mask((i + 1) as u64)) by (bit_vector)
                    requires
                        bits0 as u64 == (x >> i) & spec_mask(c0 as u64),
                        mosi0 == x & spec_mask(i),
                        1u32 <= c0 <= 32u32,
                        i < 60u64,
                ;
            }
            i = i + 1;
        }

        // exactly bit_count bits went out: discard the leftover filler bits
        self.osr.bits = 0;
        self.osr.count = 0;
        self.mosi_frames.push(mosi);
        proof {
            assert(0u64 < (1u64 << 0u64)) by (bit_vector);
            if n == 1 {
                assert(p == 1);
            } else {
                assert(32 * p > 32);
                assert(p == 2);
            }
        }
        mosi
    }

    /// Read phase of one cycle: sample exactly `bit_count` bits from the
    /// data-in line, low bit first, toggling the clock once per
    /// half-period.  Each time the inbound shift buffer reaches the drain
    /// threshold it is flushed to the drain queue as one word; whatever
    /// remains below the threshold at the end of the phase is
    /// force-flushed, so the host always receives exactly
    /// `spec_words_needed` words per transfer.
    pub fn read_phase(&mut self, params: &EngineParams, miso: u64)
        requires
            params.wf(),
            old(self).wf(),
            old(self).bit_count == params.bit_width as u32,
            old(self).isr.is_empty(),
            old(self).clock_high,
            old(self).clock_transitions + 2 * params.bit_width <= u64::MAX,
        ensures
            ({
                let bwu = params.bit_width as u64;
                &&& final(self).drain_queue@ == old(self).drain_queue@ + split_words_spec(
                    miso & spec_mask(bwu),
                    bwu,
                )
                &&& final(self).drain_queue@.len() == old(self).drain_queue@.len()
                    + spec_words_needed(bwu)
                &&& final(self).fill_queue@ == old(self).fill_queue@
                &&& final(self).mosi_frames@ == old(self).mosi_frames@
                &&& final(self).clock_transitions == old(self).clock_transitions + 2
                    * params.bit_width
                &&& final(self).wf()
                &&& final(self).isr.is_empty()
                &&& final(self).osr == old(self).osr
                &&& final(self).bit_count == old(self).bit_count
                &&& final(self).clock_high
            }),
    {
        let bw: usize = params.bit_width;
        let thr: u32 = params.drain_threshold as u32;
        let y: u32 = self.bit_count;
        let bw64: u64 = y as u64;
        let ghost m: u64 = miso & spec_mask(bw as u64);
        let ghost drain0: Seq<u32> = self.drain_queue@;
        let ghost t0: u64 = self.clock_transitions;
        let ghost mut q: nat = 0;

        let mut i: u64 = 0;

        proof {
            assert((m >> 0u64) & spec_mask(0u64) == 0) by (bit_vector);
            assert(split_words_spec(m, bw64).take(0) =~= Seq::<u32>::empty());
            assert(drain0 + Seq::<u32>::empty() =~= drain0);
        }

        while i < bw64
            invariant
                params.wf(),
                bw == params.bit_width,
                bw64 == bw as u64,
                MIN_BIT_WIDTH <= bw64 <= MAX_BIT_WIDTH,
                thr == params.drain_threshold,
                thr == if bw64 <= 32 {
                    bw64
                } else {
                    32u64
                },
                m == miso & spec_mask(bw64),
                i <= bw64,
                self.wf(),
                self.isr.count < thr,
                q <= 1,
                i == (if q == 0 {
                    0int
                } else {
                    thr as int
                }) + self.isr.count,
                self.isr.bits as u64 == (m >> (if q == 0 {
                    0u64
                } else {
                    thr as u64
                })) & spec_mask(self.isr.count as u64),
                self.drain_queue@ == drain0 + split_words_spec(m, bw64).take(q as int),
                self.fill_queue@ == old(self).fill_queue@,
                self.osr == old(self).osr,
                self.mosi_frames@ == old(self).mosi_frames@,
                self.bit_count == old(self).bit_count,
                self.clock_high,
                t0 == old(self).clock_transitions,
                t0 + 2 * bw64 <= u64::MAX,
                self.clock_transitions == t0 + 2 * i,
            decreases bw64 - i,
        {
            // clock falls: the slave drives its bit during the low half-period
            self.clock_high = false;
            self.clock_transitions = self.clock_transitions + 1;

            let ghost bits0: u32 = self.isr.bits;
            let ghost c0: u32 = self.isr.count;
            let ghost qt: u64 = if q == 0 {
                0u64
            } else {
                thr as u64
            };
            let b: u32 = ((miso >> i) & 1u64) as u32;
            self.isr.bits = self.isr.bits | (b << self.isr.count);
            self.isr.count = self.isr.count + 1;

            // clock rises: the master latches the sampled bit
            self.clock_high = true;
            self.clock_transitions = self.clock_transitions + 1;

            proof {
                assert((bits0 | ((((miso >> i) & 1u64) as u32) << c0)) as u64 == (m >> qt)
                    & spec_mask(((c0 + 1) as u32) as u64) && ((bits0 | ((((miso >> i) & 1u64) as u32)
                    << c0)) as u64) < (1u64 << (((c0 + 1) as u32) as u64))) by (bit_vector)
                    requires
                        bits0 as u64 == (m >> qt) & spec_mask(c0 as u64),
                        m == miso & spec_mask(bw64),
                        i == qt + c0,
                        i < bw64,
                        bw64 <= 60u64,
                        c0 < 32u32,
                        qt <= 32u64,
                ;
            }
            if self.isr.count == thr {
                // flush-or-wait: a full threshold of bits leaves as one word
                proof {
                    assert(q == 0);
                }
                let w = self.isr.bits;
                self.drain_queue.push(w);
                self.isr.bits = 0;
                self.isr.count = 0;
                proof {
                    if bw64 <= 32 {
                        assert(w == (m as u32)) by (bit_vector)
                            requires
                                w as u64 == (m >> 0u64) & spec_mask(thr as u64),
                                thr as u64 == bw64,
                                m == miso & spec_mask(bw64),
                                16u64 <= bw64 <= 32u64,
                        ;
                        assert(w == split_words_spec(m, bw64)[0]);
                    } else {
                        assert(w == ((m & 0xFFFF_FFFFu64) as u32)) by (bit_vector)
                            requires
                                w as u64 == (m >> 0u64) & spec_mask(thr as u64),
                                thr == 32u32,
                        ;
                        assert(w == split_words_spec(m, bw64)[0]);
                    }
                    assert(split_words_spec(m, bw64).take(q as int + 1) =~= split_words_spec(
                        m,
                        bw64,
                    ).take(q as int).push(w));
                    assert((m >> (thr as u64)) & spec_mask(0u64) == 0) by (bit_vector);
                    assert(0u64 < (1u64 << 0u64)) by (bit_vector);
                    q = q + 1;
                }
            }
            i = i + 1;
        }

        // end of phase: force-flush any partial word below the threshold
        if self.isr.count > 0 {
            proof {
                assert(bw64 > 32);
                assert(q == 1);
            }
            let ghost c1: u32 = self.isr.count;
            let w = self.isr.bits;
            self.drain_queue.push(w);
            self.isr.bits = 0;
            self.isr.count = 0;
            proof {
                assert(w == ((m >> 32u64) as u32)) by (bit_vector)
                    requires
                        w as u64 == (m >> 32u64) & spec_mask(c1 as u64),
                        (c1 as u64) + 32u64 == bw64,
                        m == miso & spec_mask(bw64),
                        32u64 < bw64 <= 60u64,
                ;
                assert(w == split_words_spec(m, bw64)[1]);
                assert(0u64 < (1u64 << 0u64)) by (bit_vector);
                assert(self.drain_queue@ =~= drain0 + split_words_spec(m, bw64));
            }
        } else {
            proof {
                assert(q == 1);
                assert((m >> (thr as u64)) & spec_mask(0u64) == 0 && (1u64 << 0u64) == 1u64)
                    by (bit_vector);
                assert(self.isr.bits == 0);
                assert(split_words_spec(m, bw64).take(1) =~= split_words_spec(m, bw64));
            }
        }
        proof {
            assert(0u64 < (1u64 << 0u64)) by (bit_vector);
            assert(split_words_spec(m, bw64).len() == spec_words_needed(bw64));
        }
    }

    /// One full transfer cycle: write phase, then read phase.
    ///
    /// Exactly `4 * bit_count` clock transitions are observed per cycle:
    /// two per bit in each phase.
    pub fn run_cycle(&mut self, params: &EngineParams, miso: u64) -> (mosi: u64)
        requires
            params.wf(),
            old(self).wf(),
            old(self).bit_count == params.bit_width as u32,
            old(self).at_boundary(),
            old(self).fill_queue@.len() >= spec_words_needed(params.bit_width as u64),
            old(self).clock_transitions + 4 * params.bit_width <= u64::MAX,
        ensures
            ({
                let bwu = params.bit_width as u64;
                let n = spec_words_needed(bwu) as int;
                &&& mosi == spec_combined(old(self).fill_queue@.take(n)) & spec_mask(bwu)
                &&& final(self).fill_queue@ == old(self).fill_queue@.skip(n)
                &&& final(self).drain_queue@ == old(self).drain_queue@ + split_words_spec(
                    miso & spec_mask(bwu),
                    bwu,
                )
                &&& final(self).drain_queue@.len() == old(self).drain_queue@.len()
                    + spec_words_needed(bwu)
                &&& final(self).mosi_frames@ == old(self).mosi_frames@.push(mosi)
                &&& final(self).clock_transitions == old(self).clock_transitions + 4
                    * params.bit_width
                &&& final(self).wf()
                &&& final(self).at_boundary()
                &&& final(self).bit_count == old(self).bit_count
            }),
    {
        let mosi = self.write_phase(params);
        self.read_phase(params, miso);
        mosi
    }
}

} // verus!
