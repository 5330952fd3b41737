use m_playlist::audio_mix::{
    deck_output_slots, device_choice, frames_available, planar_index, pop_deck_frame, PeakMeter,
};
use m_playlist::audio_ring::{AudioRingBuffer, UNITY_GAIN_BITS};
use m_playlist::clock::MasterClock;

#[test]
fn ring_pops_in_push_order() {
    let mut ring = AudioRingBuffer::new(8);
    for s in [10u32, 20, 30] {
        assert_eq!(ring.push(s), Ok(()));
    }
    assert_eq!(ring.pop(), Some(10));
    assert_eq!(ring.push(40), Ok(()));
    assert_eq!(ring.pop(), Some(20));
    assert_eq!(ring.pop(), Some(30));
    assert_eq!(ring.pop(), Some(40));
    assert_eq!(ring.pop(), None);
}

#[test]
fn ring_refuses_when_only_the_spare_slot_is_left() {
    let mut ring = AudioRingBuffer::new(4);
    assert_eq!(ring.push(1), Ok(()));
    assert_eq!(ring.push(2), Ok(()));
    assert_eq!(ring.push(3), Ok(()));
    assert_eq!(ring.get_occupancy(), 3);
    assert_eq!(ring.push(4), Err("Audio Buffer Overflow"));
    assert_eq!(ring.get_occupancy(), 3);
    assert_eq!(ring.pop(), Some(1));
    assert_eq!(ring.push(4), Ok(()));
    assert_eq!(ring.pop(), Some(2));
    assert_eq!(ring.pop(), Some(3));
    assert_eq!(ring.pop(), Some(4));
}

#[test]
fn ring_of_one_slot_is_always_full() {
    let mut ring = AudioRingBuffer::new(1);
    assert_eq!(ring.push(7), Err("Audio Buffer Overflow"));
    assert_eq!(ring.pop(), None);
    assert_eq!(ring.get_occupancy(), 0);
}

#[test]
fn ring_occupancy_across_the_wrap() {
    let mut ring = AudioRingBuffer::new(5);
    for s in 0..4u32 {
        ring.push(s).unwrap();
    }
    for _ in 0..3 {
        ring.pop().unwrap();
    }
    ring.push(100).unwrap();
    ring.push(101).unwrap();
    // write position has wrapped below the read position
    assert_eq!(ring.get_occupancy(), 3);
    assert_eq!(ring.get_capacity(), 5);
    assert_eq!(ring.pop(), Some(3));
    assert_eq!(ring.pop(), Some(100));
    assert_eq!(ring.pop(), Some(101));
}

#[test]
fn ring_clear_and_flush_drop_everything() {
    let mut ring = AudioRingBuffer::new(16);
    for s in 0..10u32 {
        ring.push(s).unwrap();
    }
    ring.clear();
    assert_eq!(ring.get_occupancy(), 0);
    assert_eq!(ring.pop(), None);
    for s in 0..5u32 {
        ring.push(s).unwrap();
    }
    ring.flush();
    assert_eq!(ring.get_occupancy(), 0);
    assert_eq!(ring.get_capacity(), 16);
    ring.push(9).unwrap();
    assert_eq!(ring.pop(), Some(9));
}

#[test]
fn ring_default_routing_is_stereo_identity() {
    let ring = AudioRingBuffer::new(2);
    assert_eq!(ring.route_gain(0), UNITY_GAIN_BITS);
    assert_eq!(ring.route_gain(17), UNITY_GAIN_BITS);
    assert_eq!(ring.route_gain(1), 0);
    assert_eq!(ring.route_gain(16), 0);
    assert_eq!(ring.route_gain(34), 0);
    assert_eq!(ring.route_gain(255), 0);
    assert_eq!(UNITY_GAIN_BITS, 1.0f32.to_bits());
    assert_eq!(ring.get_routing_offset(), 0);
}

#[test]
fn ring_set_route_ignores_out_of_range_channels() {
    let mut ring = AudioRingBuffer::new(2);
    let half = 0.5f32.to_bits();
    ring.set_route(3, 5, half);
    assert_eq!(ring.route_gain(3 * 16 + 5), half);
    ring.set_route(16, 0, half);
    ring.set_route(0, 16, half);
    assert_eq!(ring.route_gain(0), UNITY_GAIN_BITS);
    ring.set_routing_offset(2);
    assert_eq!(ring.get_routing_offset(), 2);
}

#[test]
fn ring_empty_capacity_never_yields() {
    let mut ring = AudioRingBuffer::new(0);
    assert_eq!(ring.get_occupancy(), 0);
    assert_eq!(ring.pop(), None);
    assert_eq!(ring.get_capacity(), 0);
}

#[test]
fn deck_frame_pads_underrun_with_silence() {
    let mut ring = AudioRingBuffer::new(64);
    for s in 1..=20u32 {
        ring.push(s).unwrap();
    }
    let first = pop_deck_frame(&mut ring);
    assert_eq!(first, (1..=16u32).collect::<Vec<u32>>());
    let second = pop_deck_frame(&mut ring);
    let mut expected = vec![17u32, 18, 19, 20];
    expected.extend(std::iter::repeat(0u32).take(12));
    assert_eq!(second, expected);
    assert_eq!(ring.get_occupancy(), 0);
    assert_eq!(pop_deck_frame(&mut ring), vec![0u32; 16]);
}

#[test]
fn output_slots_follow_the_routing_offset() {
    assert_eq!(deck_output_slots(0, 2), (Some(0), Some(1)));
    assert_eq!(deck_output_slots(1, 2), (None, None));
    assert_eq!(deck_output_slots(1, 3), (Some(2), None));
    assert_eq!(deck_output_slots(2, 8), (Some(4), Some(5)));
    assert_eq!(deck_output_slots(0, 1), (Some(0), None));
}

#[test]
fn planar_layout_index() {
    assert_eq!(planar_index(0, 480, 0), 0);
    assert_eq!(planar_index(3, 480, 7), 3 * 480 + 7);
    assert_eq!(planar_index(15, 480, 479), 16 * 480 - 1);
}

#[test]
fn device_frames_and_choice() {
    assert_eq!(frames_available(480, 120), 360);
    assert_eq!(frames_available(480, 480), 0);
    assert_eq!(device_choice(u32::MAX), None);
    assert_eq!(device_choice(2), Some(2));
}

#[test]
fn peak_meter_keeps_maximum_until_read() {
    let mut m = PeakMeter::new();
    m.record(0.25f32.to_bits(), 0.5f32.to_bits());
    m.record(0.75f32.to_bits(), 0.125f32.to_bits());
    assert_eq!(m.take(), (0.75f32.to_bits(), 0.5f32.to_bits()));
    assert_eq!(m.take(), (0, 0));
}

#[test]
fn clock_counts_frames_unless_paused() {
    let mut c = MasterClock::new(48_000);
    assert_eq!(c.frames_played(), 0);
    assert_eq!(c.sample_rate(), 48_000);
    assert!(!c.is_paused());
    c.add_frames(480);
    c.add_frames(20);
    assert_eq!(c.frames_played(), 500);
    c.set_paused(true);
    c.add_frames(1000);
    assert_eq!(c.frames_played(), 500);
    c.set_paused(false);
    c.add_frames(1);
    assert_eq!(c.frames_played(), 501);
}

#[test]
fn clock_advances_add_up_across_the_wrap() {
    let mut c = MasterClock::new(48_000);
    c.add_frames(u64::MAX - 1);
    c.add_frames(5);
    assert_eq!(c.frames_played(), 3);
}

#[test]
fn clock_overwrite_time_truncates_toward_zero() {
    let mut c = MasterClock::new(44_100);
    c.overwrite_time(10_000_000);
    assert_eq!(c.frames_played(), 48_000);
    c.overwrite_time(2_083);
    // 2_083 * 48_000 / 10_000_000 = 9.998..., truncated
    assert_eq!(c.frames_played(), 9);
    c.overwrite_time(-10_001);
    // -48.0048 truncates to -48, which wraps as u64
    assert_eq!(c.frames_played(), (-48i64) as u64);
    assert_eq!(c.sample_rate(), 44_100);
}

#[test]
fn ring_occupancy_is_ok_pushes_minus_some_pops_since_clear() {
    let mut r = AudioRingBuffer::new(4);
    let (mut pushed, mut popped) = (0usize, 0usize);
    for k in 0..6u32 {
        if r.push(k).is_ok() {
            pushed += 1;
        }
    }
    assert_eq!(pushed, 3);
    for _ in 0..2 {
        if r.pop().is_some() {
            popped += 1;
        }
    }
    r.set_route(0, 1, 7);
    r.set_routing_offset(2);
    assert_eq!(r.get_occupancy(), pushed - popped);
    assert_eq!(r.get_capacity(), 4);
    r.clear();
    let (mut pushed, mut popped) = (0usize, 0usize);
    if r.push(9).is_ok() {
        pushed += 1;
    }
    for _ in 0..3 {
        if r.pop().is_some() {
            popped += 1;
        }
    }
    assert_eq!((pushed, popped), (1, 1));
    assert_eq!(r.get_occupancy(), 0);
    assert_eq!(r.get_capacity(), 4);
}
