use vstd::prelude::*;

pub mod divider;
pub mod envelope;
pub mod frame_counter;
pub mod length_counter;
pub mod noise;
pub mod pulse;
pub mod sweep;
pub mod timer;
pub mod triangle;

use crate::apu::noise::Noise;
use crate::apu::pulse::{Pulse, PulseId};
use crate::apu::triangle::{Triangle, ramp};
use std::collections::VecDeque;
use vstd::arithmetic::div_mod::{lemma_fundamental_div_mod, lemma_fundamental_div_mod_converse};

verus! {

/// CPU cycles per second.
pub const CPU_CLOCK_RATE: u64 = 1789773;
/// Audio samples per second.
pub const SAMPLE_RATE: u64 = 44100;
/// Capacity of the sample ring.
pub const BUFFER_LENGTH: usize = 1024;

/// The number of samples due after `clocks` CPU cycles: floor(clocks * 44100 / 1789773).
pub open spec fn sample_index_spec(clocks: int) -> int {
    clocks * 44100 / 1789773
}

fn sample_index(clocks: u64) -> (r: u64)
    requires
        clocks <= CPU_CLOCK_RATE,
    ensures
        r == sample_index_spec(clocks as int),
{
    assert(clocks * 44100 <= 1789773 * 44100) by (nonlinear_arith)
        requires
            clocks <= 1789773,
    ;
    clocks * SAMPLE_RATE / CPU_CLOCK_RATE
}

/// One audio sample: the output level (0..15) of each channel. The mixer that
/// turns these into a voltage lives with the audio device.
#[derive(Debug, Clone, Copy, PartialEq, Eq, Structural)]
pub struct ChannelLevels {
    pub pulse1: u8,
    pub pulse2: u8,
    pub triangle: u8,
    pub noise: u8,
}

/// `s` with `x` appended, the oldest entry dropped when `s` is full.
pub open spec fn bounded_push(s: Seq<ChannelLevels>, x: ChannelLevels) -> Seq<ChannelLevels> {
    if s.len() >= BUFFER_LENGTH {
        s.subrange(1, s.len() as int).push(x)
    } else {
        s.push(x)
    }
}

/// Audio processing unit.
pub struct Apu {
    pub pulse1: Pulse,
    pub pulse2: Pulse,
    pub triangle: Triangle,
    pub noise: Noise,
    /// CPU cycles modulo the clock rate
    pub clocks: u64,
    /// samples not yet drained, oldest first
    pub buffer: VecDeque<ChannelLevels>,
}

impl Default for Apu {
    /// A silent APU with an empty sample ring.
    fn default() -> (r: Apu)
        ensures
            r.wf(),
            r.clocks == 0,
            r.buffer@.len() == 0,
    {
        Apu::new()
    }
}

impl Apu {
    pub open spec fn wf(&self) -> bool {
        &&& self.pulse1.wf()
        &&& self.pulse2.wf()
        &&& self.triangle.wf()
        &&& self.noise.wf()
        &&& self.clocks < CPU_CLOCK_RATE
        &&& self.buffer@.len() <= BUFFER_LENGTH
    }

    /// The four channel levels now.
    pub open spec fn levels(&self) -> ChannelLevels {
        ChannelLevels {
            pulse1: self.pulse1.sample_spec(),
            pulse2: self.pulse2.sample_spec(),
            triangle: ramp(self.triangle.sequencer.clock),
            noise: self.noise.sample_spec(),
        }
    }

    /// `post` is this APU after one CPU cycle: every channel ticks, and a
    /// sample of the new levels is appended whenever the number of samples
    /// due, floor(t * 44100 / 1789773), goes up.
    pub open spec fn tick_post(&self, post: Apu) -> bool {
        &&& post.pulse1 == self.pulse1.ticked()
        &&& post.pulse2 == self.pulse2.ticked()
        &&& post.triangle == self.triangle.ticked()
        &&& post.noise == self.noise.ticked()
        &&& post.clocks == (self.clocks + 1) % (CPU_CLOCK_RATE as int)
        &&& post.buffer@ == if sample_index_spec(self.clocks + 1) != sample_index_spec(self.clocks as int) {
            bounded_push(self.buffer@, post.levels())
        } else {
            self.buffer@
        }
    }

    /// `post` is this APU after a CPU write of `val` to register `addr`
    /// (relative to 0x4000).
    pub open spec fn store_post(&self, post: Apu, addr: u16, val: u8) -> bool {
        &&& post.wf()
        &&& post.clocks == self.clocks
        &&& post.buffer == self.buffer
        &&& if addr <= 0x03 {
            self.pulse1.store_post(post.pulse1, addr, val) && post.pulse2 == self.pulse2
                && post.triangle == self.triangle && post.noise == self.noise
        } else if addr <= 0x07 {
            self.pulse2.store_post(post.pulse2, (addr - 4) as u16, val) && post.pulse1 == self.pulse1
                && post.triangle == self.triangle && post.noise == self.noise
        } else if addr <= 0x0b {
            self.triangle.store_post(post.triangle, (addr - 8) as u16, val) && post.pulse1
                == self.pulse1 && post.pulse2 == self.pulse2 && post.noise == self.noise
        } else if addr <= 0x0f {
            self.noise.store_post(post.noise, (addr - 0x0c) as u16, val) && post.pulse1 == self.pulse1
                && post.pulse2 == self.pulse2 && post.triangle == self.triangle
        } else if addr == 0x15 {
            &&& self.pulse1.store_post(post.pulse1, 0x15, val)
            &&& self.pulse2.store_post(post.pulse2, 0x15, val >> 1)
            &&& self.triangle.store_post(post.triangle, 0x15, val >> 2)
            &&& self.noise.store_post(post.noise, 0x15, val >> 3)
        } else if addr == 0x17 {
            &&& self.pulse1.store_post(post.pulse1, 0x17, val)
            &&& self.pulse2.store_post(post.pulse2, 0x17, val)
            &&& self.triangle.store_post(post.triangle, 0x17, val)
            &&& self.noise.store_post(post.noise, 0x17, val)
        } else {
            post.pulse1 == self.pulse1 && post.pulse2 == self.pulse2 && post.triangle == self.triangle
                && post.noise == self.noise
        }
    }

    pub fn new() -> (r: Apu)
        ensures
            r.wf(),
            r.clocks == 0,
            r.buffer@.len() == 0,
    {
        Apu {
            pulse1: Pulse::new(PulseId::One),
            pulse2: Pulse::new(PulseId::Two),
            triangle: Triangle::new(),
            noise: Noise::new(),
            clocks: 0,
            buffer: VecDeque::new(),
        }
    }

    /// Reads register `addr`: none of them is readable, all read as zero.
    pub fn load(&self, addr: u16) -> (r: u8)
        ensures
            r == 0,
    {
        0
    }

    /// Writes register `addr` (relative to 0x4000). Writes to registers that
    /// the channels do not have are dropped.
    pub fn store(&mut self, addr: u16, val: u8)
        requires
            old(self).wf(),
        ensures
            old(self).store_post(*final(self), addr, val),
    {
        if addr <= 0x03 {
            self.pulse1.store(addr, val);
        } else if addr <= 0x07 {
            self.pulse2.store(addr - 0x04, val);
        } else if addr <= 0x0b {
            self.triangle.store(addr - 0x08, val);
        } else if addr <= 0x0f {
            self.noise.store(addr - 0x0c, val);
        } else if addr == 0x15 {
            self.pulse1.store(addr, val);
            self.pulse2.store(addr, val >> 1);
            self.triangle.store(addr, val >> 2);
            self.noise.store(addr, val >> 3);
        } else if addr == 0x17 {
            self.pulse1.store(addr, val);
            self.pulse2.store(addr, val);
            self.triangle.store(addr, val);
            self.noise.store(addr, val);
        }
    }

    /// The current sample.
    pub fn sample(&self) -> (r: ChannelLevels)
        requires
            self.wf(),
        ensures
            r == self.levels(),
    {
        ChannelLevels {
            pulse1: self.pulse1.sample(),
            pulse2: self.pulse2.sample(),
            triangle: self.triangle.sample(),
            noise: self.noise.sample(),
        }
    }

    /// One CPU cycle.
    pub fn tick(&mut self)
        requires
            old(self).wf(),
        ensures
            final(self).wf(),
            old(self).tick_post(*final(self)),
    {
        self.pulse1.tick();
        self.pulse2.tick();
        self.triangle.tick();
        self.noise.tick();
        if sample_index(self.clocks) != sample_index(self.clocks + 1) {
            let s = self.sample();
            self.append_buffer(s);
        }
        self.clocks = (self.clocks + 1) % CPU_CLOCK_RATE;
    }

    fn append_buffer(&mut self, p: ChannelLevels)
        requires
            old(self).buffer@.len() <= BUFFER_LENGTH,
        ensures
            final(self).buffer@ == bounded_push(old(self).buffer@, p),
            final(self).buffer@.len() <= BUFFER_LENGTH,
            *final(self) == (Apu { buffer: final(self).buffer, ..*old(self) }),
    {
        if self.buffer.len() >= BUFFER_LENGTH {
            self.buffer.pop_front();
        }
        self.buffer.push_back(p);
    }

    /// Hands out the samples gathered so far, oldest first, and empties the ring.
    pub fn consume_buffer(&mut self) -> (r: Vec<ChannelLevels>)
        ensures
            r@ == old(self).buffer@,
            final(self).buffer@.len() == 0,
            *final(self) == (Apu { buffer: final(self).buffer, ..*old(self) }),
            old(self).wf() ==> final(self).wf(),
    {
        let ghost all = self.buffer@;
        let mut out: Vec<ChannelLevels> = Vec::new();
        while self.buffer.len() > 0
            invariant
                out@ + self.buffer@ == all,
                *self == (Apu { buffer: self.buffer, ..*old(self) }),
            decreases self.buffer@.len(),
        {
            let ghost before = self.buffer@;
            match self.buffer.pop_front() {
                Some(x) => {
                    out.push(x);
                    proof {
                        assert(before =~= seq![x] + self.buffer@);
                        assert(out@ + self.buffer@ =~= all);
                    }
                },
                None => {},
            }
        }
        proof {
            assert(out@ =~= all);
        }
        out
    }
}

/// Consecutive APU states, each one CPU cycle after the one before.
pub open spec fn ticks_run(ts: Seq<Apu>) -> bool {
    &&& ts.len() >= 1
    &&& forall|i: int| 0 <= i < ts.len() - 1 ==> #[trigger] ts[i].tick_post(ts[i + 1])
}

/// Over `d` CPU cycles from any count `c`, the number of samples due grows by
/// floor(44100 d / 1789773) or by one more; one cycle adds at most one sample.
pub proof fn lemma_sample_count(c: nat, d: nat)
    ensures
        sample_index_spec(d as int) <= sample_index_spec((c + d) as int) - sample_index_spec(c as int)
            <= sample_index_spec(d as int) + 1,
        0 <= sample_index_spec((c + 1) as int) - sample_index_spec(c as int) <= 1,
{
    let a = c * 44100;
    let b = d * 44100;
    assert((c + d) * 44100 == a + b && (c + 1) * 44100 == a + 44100 && 0 <= a && 0 <= b)
        by (nonlinear_arith)
        requires
            a == c * 44100,
            b == d * 44100,
            c >= 0,
            d >= 0,
    ;
}

/// A whole second of cycles adds exactly 44100 samples due.
proof fn lemma_sample_index_periodic(n: int, q: int)
    requires
        n >= 0,
        q >= 0,
    ensures
        sample_index_spec(n + q * 1789773) == sample_index_spec(n) + 44100 * q,
{
    let x = n * 44100;
    lemma_fundamental_div_mod(x, 1789773);
    let a = x / 1789773;
    let r = x % 1789773;
    assert((n + q * 1789773) * 44100 == (a + 44100 * q) * 1789773 + r) by (nonlinear_arith)
        requires
            x == n * 44100,
            x == 1789773 * a + r,
    ;
    lemma_fundamental_div_mod_converse((n + q * 1789773) * 44100, 1789773, a + 44100 * q, r);
}

proof fn lemma_samples_prefix(ts: Seq<Apu>, k: int)
    requires
        ticks_run(ts),
        ts[0].clocks < CPU_CLOCK_RATE,
        0 <= k < ts.len(),
        ts[0].buffer@.len() + sample_index_spec(ts.len() - 1) + 1 <= BUFFER_LENGTH,
    ensures
        ts[k].clocks == (ts[0].clocks + k) % (CPU_CLOCK_RATE as int),
        ts[k].buffer@.len() == ts[0].buffer@.len() + sample_index_spec(ts[0].clocks + k)
            - sample_index_spec(ts[0].clocks as int),
    decreases k,
{
    if k > 0 {
        lemma_samples_prefix(ts, k - 1);
        let c0 = ts[0].clocks as int;
        let n = c0 + k - 1;
        lemma_fundamental_div_mod(n, 1789773);
        let q = n / 1789773;
        let ck = n % 1789773;
        let j = k - 1;
        assert(ts[j].tick_post(ts[j + 1]));
        assert(ck + q * 1789773 == n) by (nonlinear_arith)
            requires
                n == 1789773 * q + ck,
        ;
        assert(q >= 0) by (nonlinear_arith)
            requires
                n == 1789773 * q + ck,
                n >= 0,
                0 <= ck < 1789773,
        ;
        lemma_sample_index_periodic(ck, q);
        lemma_sample_index_periodic(ck + 1, q);
        lemma_sample_count(ck as nat, 1);
        let d = ts.len() - 1;
        lemma_sample_count(c0 as nat, d as nat);
        lemma_sample_count((c0 + k) as nat, (d - k) as nat);
        assert(sample_index_spec(d - k) >= 0) by {
            assert((d - k) * 44100 >= 0) by (nonlinear_arith)
                requires
                    d - k >= 0,
            ;
        }
        if ck + 1 == 1789773 {
            lemma_fundamental_div_mod_converse(c0 + k, 1789773, q + 1, 0);
        } else {
            lemma_fundamental_div_mod_converse(c0 + k, 1789773, q, ck + 1);
        }
    }
}

/// Over D consecutive cycles with nothing drained and no sample dropped, the
/// ring gains floor(44100 D / 1789773) samples or one more.
pub proof fn lemma_samples_over_ticks(ts: Seq<Apu>)
    requires
        ticks_run(ts),
        ts[0].clocks < CPU_CLOCK_RATE,
        ts[0].buffer@.len() + sample_index_spec(ts.len() - 1) + 1 <= BUFFER_LENGTH,
    ensures
        sample_index_spec(ts.len() - 1) <= ts.last().buffer@.len() - ts[0].buffer@.len()
            <= sample_index_spec(ts.len() - 1) + 1,
{
    lemma_samples_prefix(ts, ts.len() - 1);
    lemma_sample_count(ts[0].clocks as nat, (ts.len() - 1) as nat);
}

} // verus!
