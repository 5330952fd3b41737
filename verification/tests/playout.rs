use m_playlist::app_logic::{CommandEffect, EngineCommand, EngineCue, LogicState, OwnedCue};
use m_playlist::audio_ring::AudioRingBuffer;
use m_playlist::clock::MasterClock;
use m_playlist::playlist::{
    BlendUpdate, Deck, DeckLaunch, Playlist, TickAction, BLEND_DECK_A_BITS, BLEND_DECK_B_BITS,
};

fn audio_path() -> (AudioRingBuffer, AudioRingBuffer, MasterClock) {
    (AudioRingBuffer::new(8), AudioRingBuffer::new(8), MasterClock::new(48000))
}

/// The progress test the shell makes before each tick: elapsed clock time
/// over the crossfade length, as an `f32`, clamped to [0, 1].
fn progress_reached(p: &Playlist, clock: &MasterClock) -> bool {
    let rate = clock.sample_rate() as f64;
    let elapsed = clock.frames_played() as f64 / rate - p.transition_start_frames as f64 / rate;
    let duration = p.transition_duration_hnsecs as f64 / 10_000_000.0;
    let mut progress = (elapsed / duration) as f32;
    if progress > 1.0 {
        progress = 1.0;
    }
    if progress < 0.0 {
        progress = 0.0;
    }
    p.is_transitioning && progress >= 1.0
}

fn tick(p: &mut Playlist, clock: &MasterClock, a_started: bool, b_started: bool) -> TickAction {
    let reached = progress_reached(p, clock);
    p.tick(clock, a_started, b_started, reached)
}

fn cue(modality: u8, transition_hnsecs: i64) -> OwnedCue {
    OwnedCue {
        filepath: String::from("C:\\show\\clip.mp4"),
        in_point_hnsecs: 10_000_000,
        out_point_hnsecs: 50_000_000,
        is_looping: 2,
        hold_last_frame: 0,
        audio_routing: 3,
        transition_duration_hnsecs: transition_hnsecs,
        modality,
        hardware_index: 1,
    }
}

fn idle() -> TickAction {
    TickAction {
        blend: BlendUpdate::Keep,
        drop_a: false,
        drop_b: false,
        flush_a: false,
        flush_b: false,
        stop_worker_a: false,
        stop_worker_b: false,
    }
}

#[test]
fn engine_cue_turns_flag_bytes_into_booleans() {
    let e = EngineCue::from_owned(&cue(0, 0));
    assert_eq!(e.filepath, "C:\\show\\clip.mp4");
    assert!(e.is_looping);
    assert!(!e.hold_last_frame);
    assert_eq!(e.in_point_hnsecs, 10_000_000);
    assert_eq!(e.out_point_hnsecs, 50_000_000);
    assert_eq!(e.audio_routing, 3);
    assert_eq!(e.hardware_index, 1);
}

#[test]
fn first_fire_goes_to_deck_a_and_waits_for_its_first_frame() {
    let clock = MasterClock::new(48_000);
    let mut p = Playlist::new();
    assert!(!p.is_deck_a_active);
    let act = p.fire_cue(&cue(0, 5_000_000), 0);
    assert_eq!(act.deck, Deck::A);
    assert_eq!(act.launch, DeckLaunch::MediaEngine);
    assert!(!act.stop_previous_worker);
    assert!(p.deck_a_loaded);
    assert!(p.pending_fire);
    // nothing on air: no crossfade is armed
    assert_eq!(p.transition_duration_hnsecs, 0);
    // the switch is left to tick
    assert!(!p.is_deck_a_active);
    // decoder not started yet: nothing happens
    assert_eq!(tick(&mut p, &clock, false, false), idle());
    assert!(!p.is_deck_a_active);
    assert!(p.pending_fire);
    // first frame decoded: hard cut onto deck A
    let t = tick(&mut p, &clock, true, false);
    assert!(p.is_deck_a_active);
    assert!(!p.pending_fire);
    assert_eq!(t.blend, BlendUpdate::Fixed(BLEND_DECK_A_BITS));
    assert!(t.drop_b);
    assert!(!t.drop_a);
    assert_eq!(BLEND_DECK_A_BITS, 0.0f32.to_bits());
    assert_eq!(BLEND_DECK_B_BITS, 1.0f32.to_bits());
    // at rest, ticks are no-ops
    assert_eq!(tick(&mut p, &clock, true, false), idle());
}

#[test]
fn crossfade_runs_for_its_length_then_releases_outgoing_deck() {
    let mut clock = MasterClock::new(48_000);
    let mut p = Playlist::new();
    p.fire_cue(&cue(0, 0), 0);
    tick(&mut p, &clock, true, false);
    assert!(p.is_deck_a_active);

    // 0.5 s crossfade into deck B, requested as 0.50004 s (sub-millisecond part dropped)
    let act = p.fire_cue(&cue(0, 5_000_400), BLEND_DECK_A_BITS);
    assert_eq!(act.deck, Deck::B);
    assert_eq!(p.transition_duration_hnsecs, 5_000_000);
    clock.add_frames(1000);
    let t = tick(&mut p, &clock, true, true);
    assert!(!p.is_deck_a_active);
    assert!(p.is_transitioning);
    assert_eq!(p.transition_start_frames, 1000);
    assert_eq!(t.blend, BlendUpdate::Ramp { toward_b: true });
    assert!(!t.drop_a && !t.drop_b);

    clock.add_frames(23_999);
    let t = tick(&mut p, &clock, true, true);
    assert!(p.is_transitioning);
    assert_eq!(t.blend, BlendUpdate::Ramp { toward_b: true });

    clock.add_frames(1);
    let t = tick(&mut p, &clock, true, true);
    assert!(!p.is_transitioning);
    assert_eq!(p.transition_duration_hnsecs, 0);
    assert_eq!(t.blend, BlendUpdate::Fixed(BLEND_DECK_B_BITS));
    assert!(t.drop_a && t.flush_a);
    assert!(!p.deck_a_loaded);
    assert!(p.deck_b_loaded);
    assert_eq!(tick(&mut p, &clock, true, true), idle());
}

#[test]
fn crossfade_ends_when_the_float_progress_rounds_to_one() {
    let mut clock = MasterClock::new(48_000);
    let mut p = Playlist::new();
    p.deck_a_loaded = true;
    p.deck_b_loaded = true;
    p.is_deck_a_active = false;
    p.is_transitioning = true;
    p.transition_start_frames = 0;
    p.transition_duration_hnsecs = 6_990_510_000;
    clock.add_frames(33_554_447);
    assert!(progress_reached(&p, &clock));
    let t = tick(&mut p, &clock, true, true);
    assert!(!p.is_transitioning);
    assert_eq!(p.transition_duration_hnsecs, 0);
    assert!(!p.deck_a_loaded);
    assert!(t.drop_a && t.flush_a);
    assert_eq!(t.blend, BlendUpdate::Fixed(BLEND_DECK_B_BITS));
}

#[test]
fn a_crossfade_started_by_a_tick_does_not_end_in_it() {
    let clock = MasterClock::new(48_000);
    let mut p = Playlist::new();
    p.deck_a_loaded = true;
    p.is_deck_a_active = true;
    p.fire_cue(&cue(0, 5_000_000), 0);
    let t = p.tick(&clock, true, true, true);
    assert!(p.is_transitioning);
    assert!(!p.is_deck_a_active);
    assert_eq!(t.blend, BlendUpdate::Ramp { toward_b: true });
    assert!(p.deck_a_loaded);
}

#[test]
fn crossfade_needs_something_on_air() {
    let mut p = Playlist::new();
    p.fire_cue(&cue(1, 5_000_000), 0);
    assert_eq!(p.transition_duration_hnsecs, 0);
    let mut q = Playlist::new();
    q.fire_cue(&cue(1, 5_000_000), 0x3F00_0000);
    assert_eq!(q.transition_duration_hnsecs, 5_000_000);
    let mut r = Playlist::new();
    r.fire_cue(&cue(1, 9_999), 0x3F00_0000);
    assert_eq!(r.transition_duration_hnsecs, 0);
}

#[test]
fn static_and_live_sources_switch_on_the_next_tick() {
    let clock = MasterClock::new(48_000);
    let mut p = Playlist::new();
    let act = p.fire_cue(&cue(2, 0), 0);
    assert_eq!(act.launch, DeckLaunch::NdiReceiver);
    assert!(p.bg_worker_a);
    assert!(p.incoming_is_static);
    tick(&mut p, &clock, false, false);
    assert!(p.is_deck_a_active);
    // a new receiver on deck B; firing into A later stops A's receiver
    let act = p.fire_cue(&cue(4, 0), 0);
    assert_eq!(act.deck, Deck::B);
    assert_eq!(act.launch, DeckLaunch::DesktopCapture);
    tick(&mut p, &clock, false, false);
    let act = p.fire_cue(&cue(1, 0), 0);
    assert_eq!(act.deck, Deck::A);
    assert!(act.stop_previous_worker);
    assert_eq!(act.launch, DeckLaunch::StaticImage);
    assert!(!p.bg_worker_a);
}

#[test]
fn modalities_map_to_launches() {
    let expected = [
        (0u8, DeckLaunch::MediaEngine),
        (1, DeckLaunch::StaticImage),
        (2, DeckLaunch::NdiReceiver),
        (3, DeckLaunch::MediaEngine),
        (4, DeckLaunch::DesktopCapture),
        (5, DeckLaunch::SdiReceiver),
        (6, DeckLaunch::WebviewCapture),
        (7, DeckLaunch::Unhandled),
        (200, DeckLaunch::Unhandled),
    ];
    for (m, launch) in expected {
        let mut p = Playlist::new();
        let act = p.fire_cue(&cue(m, 0), 0);
        assert_eq!(act.launch, launch);
        assert_eq!(act.modality, m);
    }
}

#[test]
fn scrub_targets_the_active_decoder_and_stop_releases_both() {
    let clock = MasterClock::new(48_000);
    let mut p = Playlist::new();
    assert_eq!(p.scrub(5), None);
    p.fire_cue(&cue(0, 0), 0);
    tick(&mut p, &clock, true, false);
    assert_eq!(p.scrub(5), Some(Deck::A));
    assert!(p.has_active_decks());
    p.stop();
    assert!(!p.has_active_decks());
    assert!(!p.pending_fire);
    assert_eq!(p.scrub(5), None);
}

#[test]
fn preload_only_decodes_still_images_into_standby() {
    let clock = MasterClock::new(48_000);
    let mut p = Playlist::new();
    assert_eq!(p.load_cue(&cue(1, 0)), Some(Deck::A));
    assert_eq!(p.load_cue(&cue(0, 0)), None);
    assert_eq!(p.load_cue(&cue(2, 0)), None);
    p.fire_cue(&cue(1, 0), 0);
    tick(&mut p, &clock, false, false);
    assert_eq!(p.load_cue(&cue(1, 0)), Some(Deck::B));
}

#[test]
fn manual_blend_is_ignored_during_an_armed_transition() {
    let mut s = LogicState::new();
    let (mut a, mut b, mut ck) = audio_path();
    match s.apply_command(EngineCommand::SetBlend(0x3F00_0000), 0, &mut a, &mut b, &mut ck) {
        CommandEffect::SetBlend(v) => assert_eq!(v, 0x3F00_0000),
        _ => panic!("blend should be stored"),
    }
    s.playlist.deck_a_loaded = true;
    match s.apply_command(EngineCommand::FireCue(cue(0, 10_000_000)), 0, &mut a, &mut b, &mut ck) {
        CommandEffect::Fire(act) => assert_eq!(act.deck, Deck::A),
        _ => panic!("fire expected"),
    }
    assert_eq!(s.playlist.transition_duration_hnsecs, 10_000_000);
    assert!(matches!(s.apply_command(EngineCommand::SetBlend(0), 0, &mut a, &mut b, &mut ck), CommandEffect::Nothing));
}

#[test]
fn render_parameters_follow_commands() {
    let mut s = LogicState::new();
    let (mut a, mut b, mut ck) = audio_path();
    assert_eq!(s.render.geometry[0], [(-1.0f32).to_bits(), 1.0f32.to_bits(), 0, 0]);
    assert_eq!(s.render.geometry[3], [1.0f32.to_bits(), (-1.0f32).to_bits(), 0, 0]);
    assert_eq!(s.render.pan_zoom, [0, 0, 1.0f32.to_bits()]);
    assert_eq!(s.render.color, [1.0f32.to_bits(); 3]);
    let c = [1u32, 2, 3, 4, 5, 6, 7, 8];
    assert!(matches!(s.apply_command(EngineCommand::SetGeometry(c), 0, &mut a, &mut b, &mut ck), CommandEffect::Nothing));
    assert_eq!(s.render.geometry, [[1, 2, 0, 0], [3, 4, 0, 0], [5, 6, 0, 0], [7, 8, 0, 0]]);
    s.apply_command(EngineCommand::SetCrop { left: 1, top: 2, right: 3, bottom: 4 }, 0, &mut a, &mut b, &mut ck);
    assert_eq!(s.render.crop, [1, 2, 3, 4]);
    s.apply_command(EngineCommand::SetPanZoom { pan_x: 9, pan_y: 8, zoom: 7 }, 0, &mut a, &mut b, &mut ck);
    assert_eq!(s.render.pan_zoom, [9, 8, 7]);
    s.apply_command(EngineCommand::SetColor { brightness: 5, contrast: 6, saturation: 7 }, 0, &mut a, &mut b, &mut ck);
    assert_eq!(s.render.color, [5, 6, 7]);
}

#[test]
fn engine_commands_map_to_effects() {
    let mut s = LogicState::new();
    let (mut a, mut b, mut ck) = audio_path();
    assert!(matches!(s.apply_command(EngineCommand::Pause, 0, &mut a, &mut b, &mut ck), CommandEffect::Nothing));
    assert!(ck.is_paused());
    assert!(matches!(s.apply_command(EngineCommand::Resume, 0, &mut a, &mut b, &mut ck), CommandEffect::Nothing));
    assert!(!ck.is_paused());
    assert!(matches!(s.apply_command(EngineCommand::SetAudioDevice(3), 0, &mut a, &mut b, &mut ck), CommandEffect::SetAudioDevice(3)));
    assert!(matches!(s.apply_command(EngineCommand::SetVolume(42), 0, &mut a, &mut b, &mut ck), CommandEffect::SetVolume(42)));
    assert!(matches!(s.apply_command(EngineCommand::Resize(1920, 1080), 0, &mut a, &mut b, &mut ck), CommandEffect::Resize(1920, 1080)));
    assert!(matches!(
        s.apply_command(EngineCommand::UpdateSubtitle(String::from("hello")), 0, &mut a, &mut b, &mut ck),
        CommandEffect::RefreshSubtitle
    ));
    assert!(matches!(s.apply_command(EngineCommand::Shutdown, 0, &mut a, &mut b, &mut ck), CommandEffect::Shutdown));
    match s.apply_command(EngineCommand::SetAudioRoute { deck_id: 0, in_ch: 2, out_bus: -1, gain_db: 7 }, 0, &mut a, &mut b, &mut ck) {
        CommandEffect::SetAudioRoute { deck, in_ch, out_bus, gain_db } => {
            assert_eq!(deck, Deck::A);
            assert_eq!(in_ch, 2);
            assert_eq!(out_bus, usize::MAX);
            assert_eq!(gain_db, 7);
        }
        _ => panic!("route expected"),
    }
    match s.apply_command(EngineCommand::SetAudioRoute { deck_id: 5, in_ch: 0, out_bus: 0, gain_db: 0 }, 0, &mut a, &mut b, &mut ck) {
        CommandEffect::SetAudioRoute { deck, .. } => assert_eq!(deck, Deck::B),
        _ => panic!("route expected"),
    }
    match s.apply_command(EngineCommand::LoadCue(cue(1, 0)), 0, &mut a, &mut b, &mut ck) {
        CommandEffect::PreloadImage { deck, filepath } => {
            assert_eq!(deck, Deck::A);
            assert_eq!(filepath, "C:\\show\\clip.mp4");
        }
        _ => panic!("preload expected"),
    }
    assert!(matches!(s.apply_command(EngineCommand::LoadCue(cue(0, 0)), 0, &mut a, &mut b, &mut ck), CommandEffect::Nothing));
    a.push(1).unwrap();
    b.push(2).unwrap();
    b.push(3).unwrap();
    match s.apply_command(EngineCommand::Scrub(77), 0, &mut a, &mut b, &mut ck) {
        CommandEffect::Scrub { engine_deck, target_hnsecs } => {
            assert_eq!(engine_deck, None);
            assert_eq!(target_hnsecs, 77);
        }
        _ => panic!("scrub expected"),
    }
    assert_eq!(a.get_occupancy(), 0);
    assert_eq!(b.get_occupancy(), 0);
    s.playlist.deck_a_loaded = true;
    a.push(4).unwrap();
    assert!(matches!(s.apply_command(EngineCommand::Stop, 0, &mut a, &mut b, &mut ck), CommandEffect::StopDecoders));
    assert!(!s.playlist.deck_a_loaded);
    assert_eq!(a.get_occupancy(), 0);
    assert_eq!(a.get_capacity(), 8);
}
