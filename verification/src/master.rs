//! The host-side transfer orchestrator: splits a logical value into
//! 32-bit transport words, feeds the sequencer, and recombines the words
//! the sequencer drains back.
use vstd::prelude::*;

use crate::config::validate_config;
use crate::config::ConfigError;
use crate::config::EngineParams;
use crate::config::SpiMasterConfig;
use crate::engine::EngineState;
use crate::words::combine_words;
use crate::words::lemma_split_combine_roundtrip;
use crate::words::mask_u64;
use crate::words::spec_mask;
use crate::words::spec_words_needed;
use crate::words::split_words_spec;
use crate::words::tx_words;
use crate::words::words_needed;
use crate::MAX_BIT_WIDTH;
use crate::MIN_BIT_WIDTH;

verus! {

/// A serial master driving one sequencer instance, which it owns
/// exclusively: the instance is moved in at construction and never
/// cloned or shared.
pub struct PioSpiMaster {
    /// Parameters fixed at construction.
    pub params: EngineParams,
    /// The sequencer owned by this master.
    pub engine: EngineState,
}

impl PioSpiMaster {
    /// The engine agrees with the derived parameters: its loop counter
    /// was loaded with the configured width.
    pub open spec fn wf(self) -> bool {
        &&& self.params.wf()
        &&& self.engine.wf()
        &&& self.engine.bit_count == self.params.bit_width as u32
    }

    /// The engine stands at its phase boundary with the fill queue empty:
    /// the state between balanced host calls.
    pub open spec fn idle(self) -> bool {
        &&& self.engine.at_boundary()
        &&& self.engine.fill_queue@.len() == 0
    }

    /// Idle with nothing left to drain: every transfer so far has been
    /// fully pulled.
    pub open spec fn quiescent(self) -> bool {
        &&& self.idle()
        &&& self.engine.drain_queue@.len() == 0
    }

    /// The configured transfer width, in bits.
    pub open spec fn bit_width(self) -> u64 {
        self.params.bit_width as u64
    }

    /// Creates a master and starts its engine.
    ///
    /// Validation succeeds exactly when the requested width lies in the
    /// supported range; the only failure is `WidthOutOfRange`.  On
    /// success the engine has been handed its bit count as the first
    /// fill word and stands quiescent, clock idle, with no transitions
    /// observed yet.
    pub fn new(config: SpiMasterConfig) -> (r: Result<PioSpiMaster, ConfigError>)
        requires
            config.clk_div >= 1,
        ensures
            r is Ok <==> MIN_BIT_WIDTH <= config.message_size <= MAX_BIT_WIDTH,
            r is Err ==> r->Err_0 == ConfigError::WidthOutOfRange,
            r is Ok ==> ({
                let m = r->Ok_0;
                &&& m.wf()
                &&& m.quiescent()
                &&& m.params.bit_width == config.message_size
                &&& m.params.clock_divisor_bits == (config.clk_div - 1) * 256
                &&& m.engine.clock_transitions == 0
                &&& m.engine.mosi_frames@.len() == 0
            }),
    {
        let params = match validate_config(&config) {
            Ok(p) => p,
            Err(e) => {
                return Err(e);
            },
        };
        let mut engine = EngineState::new();
        engine.fill_queue.push(params.bit_width as u32);
        engine.start();
        Ok(PioSpiMaster { params, engine })
    }

    /// Performs one full transfer: pushes the transport words of `data`
    /// into the fill queue, runs the engine through one cycle against the
    /// slave's response `miso`, then pulls and recombines exactly the
    /// words that cycle drained.
    ///
    /// Only the low `bit_width` bits of `data` reach the wire; the result
    /// is the low `bit_width` bits of `miso`.
    pub fn transfer(&mut self, data: u64, miso: u64) -> (r: u64)
        requires
            old(self).wf(),
            old(self).quiescent(),
            old(self).engine.clock_transitions + 4 * old(self).params.bit_width <= u64::MAX,
        ensures
            r == miso & spec_mask(old(self).bit_width()),
            final(self).wf(),
            final(self).quiescent(),
            final(self).params == old(self).params,
            final(self).engine.mosi_frames@ == old(self).engine.mosi_frames@.push(
                data & spec_mask(old(self).bit_width()),
            ),
            final(self).engine.clock_transitions == old(self).engine.clock_transitions + 4
                * old(self).params.bit_width,
    {
        let ghost bwu: u64 = self.params.bit_width as u64;
        let words = tx_words(data, self.params.bit_width);
        // host to fill queue, low word first
        self.engine.fill_queue.push(words[0]);
        if words.len() > 1 {
            self.engine.fill_queue.push(words[1]);
        }
        proof {
            assert(self.engine.fill_queue@ =~= words@);
            assert(words@.take(spec_words_needed(bwu) as int) =~= words@);
            let d = data & spec_mask(bwu);
            assert(d & spec_mask(bwu) == d) by (bit_vector)
                requires
                    d == data & spec_mask(bwu),
            ;
            lemma_split_combine_roundtrip(d, bwu);
        }
        let _mosi = self.engine.run_cycle(&self.params, miso);
        proof {
            assert(self.engine.fill_queue@ =~= Seq::<u32>::empty());
            let m = miso & spec_mask(bwu);
            assert(m & spec_mask(bwu) == m) by (bit_vector)
                requires
                    m == miso & spec_mask(bwu),
            ;
            lemma_split_combine_roundtrip(m, bwu);
        }
        // drain queue to host, low word first
        let n = words_needed(self.params.bit_width);
        let mut pulled: Vec<u32> = Vec::new();
        let w0 = self.engine.drain_queue.remove(0);
        pulled.push(w0);
        if n > 1 {
            let w1 = self.engine.drain_queue.remove(0);
            pulled.push(w1);
        }
        proof {
            let m = miso & spec_mask(bwu);
            assert(pulled@ =~= split_words_spec(m, bwu));
            assert(self.engine.drain_queue@ =~= Seq::<u32>::empty());
        }
        combine_words(&pulled, self.params.bit_width)
    }

    /// Fire-and-forget transfer: pushes the transport words of `data` and
    /// lets the engine run one cycle, but leaves the drained response
    /// words in the drain queue.  The sequencer always executes the read
    /// phase on the wire regardless.
    ///
    /// Each unpulled transfer leaves `spec_words_needed` words behind; on
    /// real hardware the drain queue is bounded, so repeated use without
    /// ever draining eventually stalls the engine.
    pub fn write(&mut self, data: u64, miso: u64)
        requires
            old(self).wf(),
            old(self).idle(),
            old(self).engine.clock_transitions + 4 * old(self).params.bit_width <= u64::MAX,
        ensures
            final(self).wf(),
            final(self).idle(),
            final(self).params == old(self).params,
            final(self).engine.drain_queue@ == old(self).engine.drain_queue@ + split_words_spec(
                miso & spec_mask(old(self).bit_width()),
                old(self).bit_width(),
            ),
            final(self).engine.mosi_frames@ == old(self).engine.mosi_frames@.push(
                data & spec_mask(old(self).bit_width()),
            ),
            final(self).engine.clock_transitions == old(self).engine.clock_transitions + 4
                * old(self).params.bit_width,
    {
        let ghost bwu: u64 = self.params.bit_width as u64;
        let words = tx_words(data, self.params.bit_width);
        self.engine.fill_queue.push(words[0]);
        if words.len() > 1 {
            self.engine.fill_queue.push(words[1]);
        }
        proof {
            assert(self.engine.fill_queue@ =~= words@);
            assert(words@.take(spec_words_needed(bwu) as int) =~= words@);
            let d = data & spec_mask(bwu);
            assert(d & spec_mask(bwu) == d) by (bit_vector)
                requires
                    d == data & spec_mask(bwu),
            ;
            lemma_split_combine_roundtrip(d, bwu);
        }
        let _mosi = self.engine.run_cycle(&self.params, miso);
        proof {
            assert(self.engine.fill_queue@ =~= Seq::<u32>::empty());
        }
    }

    /// A transfer whose data-in line is wired directly to the data-out
    /// line: the slave echoes every emitted bit back, so the result is
    /// the sent value masked to the transfer width.
    pub fn loopback_transfer(&mut self, data: u64) -> (r: u64)
        requires
            old(self).wf(),
            old(self).quiescent(),
            old(self).engine.clock_transitions + 4 * old(self).params.bit_width <= u64::MAX,
        ensures
            r == data & spec_mask(old(self).bit_width()),
            final(self).wf(),
            final(self).quiescent(),
            final(self).params == old(self).params,
            final(self).engine.clock_transitions == old(self).engine.clock_transitions + 4
                * old(self).params.bit_width,
    {
        let ghost bwu: u64 = self.params.bit_width as u64;
        let mask = mask_u64(self.params.bit_width);
        let echoed = data & mask;
        proof {
            let d = data & spec_mask(bwu);
            assert(d & spec_mask(bwu) == d) by (bit_vector)
                requires
                    d == data & spec_mask(bwu),
            ;
        }
        self.transfer(data, echoed)
    }
}

} // verus!
