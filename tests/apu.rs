use nes::apu::envelope::Envelope;
use nes::apu::frame_counter::{FrameCounter, SequencerMode};
use nes::apu::length_counter::LengthCounter;
use nes::apu::noise::Noise;
use nes::apu::pulse::{Pulse, PulseId};
use nes::apu::sweep::{NegateMode, Sweep};
use nes::apu::timer::Timer;
use nes::apu::triangle::Triangle;
use nes::apu::Apu;

#[test]
fn pulse_mute_below_period_8() {
    let mut p = Pulse::new(PulseId::One);
    p.store(0x15, 0x01);
    p.store(0, 0x3f);
    p.store(2, 7);
    p.store(3, 0x08);
    assert_eq!(p.timer.period, 7);
    assert_eq!(p.length_counter.counter, 254);
    for _ in 0..100 {
        p.tick();
        assert_eq!(p.sample(), 0);
    }
}

#[test]
fn pulse_sounds_at_period_8() {
    let mut p = Pulse::new(PulseId::One);
    p.store(0x15, 0x01);
    p.store(0, 0xbf);
    p.store(2, 8);
    p.store(3, 0x08);
    let mut heard = false;
    for _ in 0..200 {
        p.tick();
        if p.sample() == 15 {
            heard = true;
        }
    }
    assert!(heard);
}

#[test]
fn frame_counter_five_step_clocks_at_once() {
    let mut apu = Apu::new();
    apu.store(0x17, 0x80);
    assert!(apu.pulse1.frame_counter.is_half_frame());
    assert!(apu.pulse1.frame_counter.is_quarter_frame());
    assert!(apu.noise.frame_counter.is_half_frame());
    let mut fc = FrameCounter::new();
    fc.set_mode(SequencerMode::FiveStep);
    assert!(fc.is_half_frame() && fc.is_quarter_frame());
    fc.set_mode(SequencerMode::FourStep);
    assert!(!fc.is_half_frame() && !fc.is_quarter_frame());
}

#[test]
fn frame_counter_four_step_schedule() {
    let mut fc = FrameCounter::new();
    let mut quarters = vec![];
    let mut halves = vec![];
    for t in 1..=29830u32 {
        fc.tick();
        if fc.is_quarter_frame() {
            quarters.push(t);
        }
        if fc.is_half_frame() {
            halves.push(t);
        }
    }
    assert_eq!(quarters, vec![7457, 14913, 22371, 29829]);
    assert_eq!(halves, vec![14913, 29829]);
}

#[test]
fn samples_follow_the_cpu_clock() {
    let mut apu = Apu::new();
    let mut total = 0usize;
    for _ in 0..10 {
        for _ in 0..29830 {
            apu.tick();
        }
        total += apu.consume_buffer().len();
    }
    // floor(44100 * 298300 / 1789773) = 7350
    assert!(total == 7350 || total == 7351 || total == 7349);
    let mut apu = Apu::new();
    // floor(44100 * 17897 / 1789773) = 440
    for _ in 0..17897 {
        apu.tick();
    }
    assert_eq!(apu.consume_buffer().len(), 440);
}

#[test]
fn sample_ring_drops_oldest() {
    let mut apu = Apu::new();
    for _ in 0..60000 {
        apu.tick();
    }
    assert_eq!(apu.buffer.len(), 1024);
    assert_eq!(apu.consume_buffer().len(), 1024);
    assert!(apu.buffer.is_empty());
}

#[test]
fn length_counter_table_and_disable() {
    let mut l = LengthCounter::new();
    l.load_with_index(1);
    assert_eq!(l.counter(), 254);
    l.load_with_index(31);
    assert_eq!(l.counter(), 30);
    l.tick();
    assert_eq!(l.counter(), 29);
    l.set_halt(true);
    l.tick();
    assert_eq!(l.counter(), 29);
    l.set_enabled(false);
    assert_eq!(l.counter(), 0);
}

#[test]
fn envelope_decays_and_loops() {
    let mut e = Envelope::new();
    e.set_volume(0);
    e.tick();
    assert_eq!(e.volume(), 15);
    e.tick();
    assert_eq!(e.volume(), 14);
    for _ in 0..14 {
        e.tick();
    }
    assert_eq!(e.volume(), 0);
    e.tick();
    assert_eq!(e.volume(), 0);
    e.set_loop_flag(true);
    e.tick();
    assert_eq!(e.volume(), 15);
    e.set_constant_flag(true);
    e.set_volume(6);
    assert_eq!(e.volume(), 6);
}

#[test]
fn noise_lfsr_first_step() {
    let mut n = Noise::new();
    n.tick();
    assert_eq!(n.sequencer.state, 0x4000);
    n.store(2, 0x80);
    assert_eq!(n.timer.period, 4);
    assert!(n.sequencer.mode_flag);
}

#[test]
fn sweep_negates_by_channel() {
    let timer = Timer::new(0x100);
    let mut one = Sweep::new(NegateMode::OneComplement);
    one.store(0x89);
    assert_eq!(one.target_period(&timer), 0x7f);
    let mut two = Sweep::new(NegateMode::TwoComplement);
    two.store(0x89);
    assert_eq!(two.target_period(&timer), 0x80);
    two.store(0x81);
    assert_eq!(two.target_period(&timer), 0x180);
    let big = Timer::new(0x7f0);
    assert!(two.is_mute(&big));
}

#[test]
fn triangle_walks_its_ramp() {
    let mut t = Triangle::new();
    t.store(0x15, 0x01);
    t.store(0, 0x7f);
    t.store(3, 0x08);
    assert_eq!(t.sample(), 15);
    // the linear counter loads on the first quarter frame
    for _ in 0..7458 {
        t.tick();
    }
    let before = t.sequencer.clock;
    t.tick();
    assert_eq!(t.sequencer.clock, (before + 1) % 32);
}

#[test]
fn pulse_with_period_7_stays_silent_through_frames() {
    let mut p = Pulse::new(PulseId::One);
    p.store(0x15, 0x01);
    p.store(0x02, 0x07);
    p.store(0x03, 0x08);
    for _ in 0..20000 {
        p.tick();
        assert_eq!(p.sample(), 0);
    }
    assert_eq!(p.timer.period, 7);
}

#[test]
fn five_step_write_clocks_once_then_waits() {
    let mut p = Pulse::new(PulseId::One);
    p.store(0x15, 0x01);
    p.store(0x00, 0x00);
    p.store(0x03, 0x08);
    p.store(0x17, 0x80);
    let length = p.length_counter.counter;
    let decay = p.envelope.decay.decay;
    p.tick();
    assert_eq!(p.length_counter.counter, length - 1);
    assert!(!p.envelope.start_flag);
    assert_eq!(p.envelope.decay.decay, 15);
    assert!(decay == 15);
    for _ in 0..7456 {
        p.tick();
        assert_eq!(p.length_counter.counter, length - 1);
        assert_eq!(p.envelope.decay.decay, 15);
    }
}
