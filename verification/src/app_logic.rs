use vstd::prelude::*;
use crate::audio_ring::AudioRingBuffer;
use crate::clock::MasterClock;
use crate::playlist::{Deck, FireAction, Playlist};

verus! {

/// A cue as the media engine consumes it: flags are booleans.
#[derive(Clone)]
pub struct EngineCue {
    pub filepath: String,
    pub in_point_hnsecs: i64,
    pub out_point_hnsecs: i64,
    pub is_looping: bool,
    pub hold_last_frame: bool,
    pub audio_routing: u8,
    pub transition_duration_hnsecs: i64,
    pub modality: u8,
    pub hardware_index: u8,
}

/// A cue as it crosses the command channel: flags are C-style bytes
/// (zero is false, anything else is true).
#[derive(Clone, Debug)]
pub struct OwnedCue {
    pub filepath: String,
    pub in_point_hnsecs: i64,
    pub out_point_hnsecs: i64,
    pub is_looping: u8,
    pub hold_last_frame: u8,
    pub audio_routing: u8,
    pub transition_duration_hnsecs: i64,
    pub modality: u8,
    pub hardware_index: u8,
}

impl EngineCue {
    /// The engine form of a channel cue: every field is copied, and the
    /// two flag bytes become `byte != 0`.
    pub fn from_owned(cue: &OwnedCue) -> (e: EngineCue)
        ensures
            e.filepath@ == cue.filepath@,
            e.in_point_hnsecs == cue.in_point_hnsecs,
            e.out_point_hnsecs == cue.out_point_hnsecs,
            e.is_looping == (cue.is_looping != 0),
            e.hold_last_frame == (cue.hold_last_frame != 0),
            e.audio_routing == cue.audio_routing,
            e.transition_duration_hnsecs == cue.transition_duration_hnsecs,
            e.modality == cue.modality,
            e.hardware_index == cue.hardware_index,
    {
        EngineCue {
            filepath: cue.filepath.clone(),
            in_point_hnsecs: cue.in_point_hnsecs,
            out_point_hnsecs: cue.out_point_hnsecs,
            is_looping: cue.is_looping != 0,
            hold_last_frame: cue.hold_last_frame != 0,
            transition_duration_hnsecs: cue.transition_duration_hnsecs,
            modality: cue.modality,
            hardware_index: cue.hardware_index,
            audio_routing: cue.audio_routing,
        }
    }
}

/// Bit pattern of the `f32` value 1.0.
pub const ONE_BITS: u32 = 0x3F80_0000;

/// Bit pattern of the `f32` value -1.0.
pub const MINUS_ONE_BITS: u32 = 0xBF80_0000;

/// A command sent to the logic thread. Floating-point parameters travel as
/// the bit patterns of their `f32` values.
pub enum EngineCommand {
    LoadCue(OwnedCue),
    FireCue(OwnedCue),
    SetAudioDevice(u32),
    Scrub(i64),
    /// Corners as x, y pairs: top left, top right, bottom left, bottom right.
    SetGeometry([u32; 8]),
    SetCrop { left: u32, top: u32, right: u32, bottom: u32 },
    SetPanZoom { pan_x: u32, pan_y: u32, zoom: u32 },
    SetColor { brightness: u32, contrast: u32, saturation: u32 },
    Resize(u32, u32),
    /// Linear master amplitude.
    SetVolume(u32),
    SetBlend(u32),
    UpdateSubtitle(String),
    Pause,
    Resume,
    Stop,
    /// Gain in decibels, for deck 0 (A) or any other id (B).
    SetAudioRoute { deck_id: i32, in_ch: i32, out_bus: i32, gain_db: u32 },
    Shutdown,
}

/// What the shell must do to the shared engine after a command.
pub enum CommandEffect {
    /// Nothing outside the logic state changes.
    Nothing,
    /// Decode the still image at `filepath` into the compositor slot of `deck`.
    PreloadImage { deck: Deck, filepath: String },
    /// Carry out a fired cue.
    Fire(FireAction),
    /// Select output device `index` (`u32::MAX` is the default device) and
    /// restart the audio thread.
    SetAudioDevice(u32),
    /// Hand the position to the decoder of `engine_deck` (if any).
    Scrub { engine_deck: Option<Deck>, target_hnsecs: i64 },
    Resize(u32, u32),
    /// Mark the subtitle overlay for redraw.
    RefreshSubtitle,
    /// Drop both decoders.
    StopDecoders,
    /// Store these crossfader bits.
    SetBlend(u32),
    /// Store this master amplitude (bits of an `f32`).
    SetVolume(u32),
    /// Convert the gain from decibels and store it in the routing matrix
    /// of `deck`'s ring.
    SetAudioRoute { deck: Deck, in_ch: usize, out_bus: usize, gain_db: u32 },
    /// Leave the logic loop.
    Shutdown,
}

/// The render parameters the logic thread keeps and hands to the
/// compositor every frame (bit patterns of `f32` values).
pub struct RenderParams {
    /// Corners: top left, top right, bottom left, bottom right; each is
    /// x, y, 0, 0.
    pub geometry: [[u32; 4]; 4],
    /// Left, top, right, bottom.
    pub crop: [u32; 4],
    /// Pan x, pan y, zoom.
    pub pan_zoom: [u32; 3],
    /// Brightness, contrast, saturation.
    pub color: [u32; 3],
}

/// State owned by the logic thread.
pub struct LogicState {
    pub playlist: Playlist,
    pub render: RenderParams,
}

/// Whether `render` holds the start-up parameters: the full-screen quad,
/// no crop, no pan, unit zoom and unit colour factors.
pub open spec fn default_render(r: RenderParams) -> bool {
    &&& r.geometry[0]@ == seq![MINUS_ONE_BITS, ONE_BITS, 0u32, 0u32]
    &&& r.geometry[1]@ == seq![ONE_BITS, ONE_BITS, 0u32, 0u32]
    &&& r.geometry[2]@ == seq![MINUS_ONE_BITS, MINUS_ONE_BITS, 0u32, 0u32]
    &&& r.geometry[3]@ == seq![ONE_BITS, MINUS_ONE_BITS, 0u32, 0u32]
    &&& r.crop@ == seq![0u32, 0u32, 0u32, 0u32]
    &&& r.pan_zoom@ == seq![0u32, 0u32, ONE_BITS]
    &&& r.color@ == seq![ONE_BITS, ONE_BITS, ONE_BITS]
}

/// The ring of deck 0 is deck A's; any other id selects deck B.
pub open spec fn deck_of_id(deck_id: i32) -> Deck {
    if deck_id == 0 {
        Deck::A
    } else {
        Deck::B
    }
}

/// Whether `after` is `before` with its queued audio dropped: nothing is
/// queued, and the capacity, routing matrix and routing offset are kept.
pub open spec fn flushed(before: AudioRingBuffer, after: AudioRingBuffer) -> bool {
    &&& after.wf()
    &&& after.view() == Seq::<u32>::empty()
    &&& after.cap() == before.cap()
    &&& after.routes() == before.routes()
    &&& after.offset() == before.offset()
}

/// Whether the command drops the audio queued in both decks' rings.
pub open spec fn drops_queued_audio(command: EngineCommand) -> bool {
    command is Scrub || command is Stop
}

impl LogicState {
    /// A fresh playlist and the start-up render parameters.
    pub fn new() -> (s: Self)
        ensures
            s.playlist == Playlist::new_spec(),
            default_render(s.render),
    {
        let s = LogicState {
            playlist: Playlist::new(),
            render: RenderParams {
                geometry: [
                    [MINUS_ONE_BITS, ONE_BITS, 0, 0],
                    [ONE_BITS, ONE_BITS, 0, 0],
                    [MINUS_ONE_BITS, MINUS_ONE_BITS, 0, 0],
                    [ONE_BITS, MINUS_ONE_BITS, 0, 0],
                ],
                crop: [0, 0, 0, 0],
                pan_zoom: [0, 0, ONE_BITS],
                color: [ONE_BITS, ONE_BITS, ONE_BITS],
            },
        };
        assert(s.render.geometry[0]@ =~= seq![MINUS_ONE_BITS, ONE_BITS, 0u32, 0u32]);
        assert(s.render.geometry[1]@ =~= seq![ONE_BITS, ONE_BITS, 0u32, 0u32]);
        assert(s.render.geometry[2]@ =~= seq![MINUS_ONE_BITS, MINUS_ONE_BITS, 0u32, 0u32]);
        assert(s.render.geometry[3]@ =~= seq![ONE_BITS, MINUS_ONE_BITS, 0u32, 0u32]);
        assert(s.render.crop@ =~= seq![0u32, 0u32, 0u32, 0u32]);
        assert(s.render.pan_zoom@ =~= seq![0u32, 0u32, ONE_BITS]);
        assert(s.render.color@ =~= seq![ONE_BITS, ONE_BITS, ONE_BITS]);
        s
    }

    /// Applies one command to the logic state, the two decks' audio rings and
    /// the master clock, and says what the shell must do to the rest of the
    /// engine. `blend_bits` is the crossfader as read when the command is
    /// handled. A manual crossfader move is ignored while a timed transition
    /// is armed; a scrub or a stop drops the audio queued in both rings;
    /// pause and resume freeze and release the clock.
    pub fn apply_command(
        &mut self,
        command: EngineCommand,
        blend_bits: u32,
        ring_a: &mut AudioRingBuffer,
        ring_b: &mut AudioRingBuffer,
        clock: &mut MasterClock,
    ) -> (effect: CommandEffect)
        requires
            old(ring_a).wf(),
            old(ring_b).wf(),
        ensures
            final(ring_a).wf(),
            final(ring_b).wf(),
            drops_queued_audio(command) ==> flushed(*old(ring_a), *final(ring_a)),
            drops_queued_audio(command) ==> flushed(*old(ring_b), *final(ring_b)),
            !drops_queued_audio(command) ==> *final(ring_a) == *old(ring_a),
            !drops_queued_audio(command) ==> *final(ring_b) == *old(ring_b),
            command is Pause ==> final(clock).paused(),
            command is Resume ==> !final(clock).paused(),
            command is Pause || command is Resume ==> {
                &&& final(clock).frames() == old(clock).frames()
                &&& final(clock).rate() == old(clock).rate()
            },
            !(command is Pause || command is Resume) ==> *final(clock) == *old(clock),
            match command {
                EngineCommand::LoadCue(cue) => {
                    &&& final(self).playlist == old(self).playlist
                    &&& final(self).render == old(self).render
                    &&& if cue.modality == 1 {
                        &&& effect matches CommandEffect::PreloadImage { deck, filepath }
                        &&& deck == old(self).playlist.standby()
                        &&& filepath@ == cue.filepath@
                    } else {
                        effect is Nothing
                    }
                },
                EngineCommand::FireCue(cue) => {
                    &&& final(self).render == old(self).render
                    &&& effect matches CommandEffect::Fire(act)
                    &&& Playlist::fired(old(self).playlist, final(self).playlist, cue, blend_bits, act)
                },
                EngineCommand::SetAudioDevice(index) => {
                    &&& final(self).playlist == old(self).playlist
                    &&& final(self).render == old(self).render
                    &&& effect == CommandEffect::SetAudioDevice(index)
                },
                EngineCommand::Scrub(target) => {
                    &&& final(self).playlist == old(self).playlist
                    &&& final(self).render == old(self).render
                    &&& effect == CommandEffect::Scrub {
                        engine_deck: if old(self).playlist.loaded(old(self).playlist.active()) {
                            Some(old(self).playlist.active())
                        } else {
                            None
                        },
                        target_hnsecs: target,
                    }
                },
                EngineCommand::SetGeometry(c) => {
                    &&& final(self).playlist == old(self).playlist
                    &&& final(self).render.geometry[0]@ == seq![c[0], c[1], 0u32, 0u32]
                    &&& final(self).render.geometry[1]@ == seq![c[2], c[3], 0u32, 0u32]
                    &&& final(self).render.geometry[2]@ == seq![c[4], c[5], 0u32, 0u32]
                    &&& final(self).render.geometry[3]@ == seq![c[6], c[7], 0u32, 0u32]
                    &&& final(self).render.crop == old(self).render.crop
                    &&& final(self).render.pan_zoom == old(self).render.pan_zoom
                    &&& final(self).render.color == old(self).render.color
                    &&& effect is Nothing
                },
                EngineCommand::SetCrop { left, top, right, bottom } => {
                    &&& final(self).playlist == old(self).playlist
                    &&& final(self).render.crop@ == seq![left, top, right, bottom]
                    &&& final(self).render.geometry == old(self).render.geometry
                    &&& final(self).render.pan_zoom == old(self).render.pan_zoom
                    &&& final(self).render.color == old(self).render.color
                    &&& effect is Nothing
                },
                EngineCommand::SetPanZoom { pan_x, pan_y, zoom } => {
                    &&& final(self).playlist == old(self).playlist
                    &&& final(self).render.pan_zoom@ == seq![pan_x, pan_y, zoom]
                    &&& final(self).render.geometry == old(self).render.geometry
                    &&& final(self).render.crop == old(self).render.crop
                    &&& final(self).render.color == old(self).render.color
                    &&& effect is Nothing
                },
                EngineCommand::SetColor { brightness, contrast, saturation } => {
                    &&& final(self).playlist == old(self).playlist
                    &&& final(self).render.color@ == seq![brightness, contrast, saturation]
                    &&& final(self).render.geometry == old(self).render.geometry
                    &&& final(self).render.crop == old(self).render.crop
                    &&& final(self).render.pan_zoom == old(self).render.pan_zoom
                    &&& effect is Nothing
                },
                EngineCommand::Resize(w, h) => {
                    &&& final(self).playlist == old(self).playlist
                    &&& final(self).render == old(self).render
                    &&& effect == CommandEffect::Resize(w, h)
                },
                EngineCommand::SetVolume(amp) => {
                    &&& final(self).playlist == old(self).playlist
                    &&& final(self).render == old(self).render
                    &&& effect == CommandEffect::SetVolume(amp)
                },
                EngineCommand::SetBlend(val) => {
                    &&& final(self).playlist == old(self).playlist
                    &&& final(self).render == old(self).render
                    &&& if old(self).playlist.transition_duration_hnsecs == 0 {
                        effect == CommandEffect::SetBlend(val)
                    } else {
                        effect is Nothing
                    }
                },
                EngineCommand::UpdateSubtitle(_text) => {
                    &&& final(self).playlist == old(self).playlist
                    &&& final(self).render == old(self).render
                    &&& effect is RefreshSubtitle
                },
                EngineCommand::Pause => {
                    &&& final(self).playlist == old(self).playlist
                    &&& final(self).render == old(self).render
                    &&& effect is Nothing
                },
                EngineCommand::Resume => {
                    &&& final(self).playlist == old(self).playlist
                    &&& final(self).render == old(self).render
                    &&& effect is Nothing
                },
                EngineCommand::Stop => {
                    &&& final(self).render == old(self).render
                    &&& !final(self).playlist.deck_a_loaded
                    &&& !final(self).playlist.deck_b_loaded
                    &&& !final(self).playlist.is_transitioning
                    &&& !final(self).playlist.pending_fire
                    &&& final(self).playlist.is_deck_a_active == old(self).playlist.is_deck_a_active
                    &&& final(self).playlist.transition_duration_hnsecs == old(self).playlist.transition_duration_hnsecs
                    &&& final(self).playlist.transition_start_frames == old(self).playlist.transition_start_frames
                    &&& final(self).playlist.incoming_is_static == old(self).playlist.incoming_is_static
                    &&& final(self).playlist.ndi_enabled == old(self).playlist.ndi_enabled
                    &&& final(self).playlist.bg_worker_a == old(self).playlist.bg_worker_a
                    &&& final(self).playlist.bg_worker_b == old(self).playlist.bg_worker_b
                    &&& effect is StopDecoders
                },
                EngineCommand::SetAudioRoute { deck_id, in_ch, out_bus, gain_db } => {
                    &&& final(self).playlist == old(self).playlist
                    &&& final(self).render == old(self).render
                    &&& effect == CommandEffect::SetAudioRoute {
                        deck: deck_of_id(deck_id),
                        in_ch: in_ch as usize,
                        out_bus: out_bus as usize,
                        gain_db,
                    }
                },
                EngineCommand::Shutdown => {
                    &&& final(self).playlist == old(self).playlist
                    &&& final(self).render == old(self).render
                    &&& effect is Shutdown
                },
            },
    {
        match command {
            EngineCommand::LoadCue(cue) => {
                match self.playlist.load_cue(&cue) {
                    Some(deck) => CommandEffect::PreloadImage { deck, filepath: cue.filepath },
                    None => CommandEffect::Nothing,
                }
            },
            EngineCommand::FireCue(cue) => {
                let act = self.playlist.fire_cue(&cue, blend_bits);
                CommandEffect::Fire(act)
            },
            EngineCommand::SetAudioDevice(index) => CommandEffect::SetAudioDevice(index),
            EngineCommand::Scrub(target_hnsecs) => {
                let deck = self.playlist.scrub(target_hnsecs);
                ring_a.flush();
                ring_b.flush();
                CommandEffect::Scrub { engine_deck: deck, target_hnsecs }
            },
            EngineCommand::SetGeometry(c) => {
                self.render.geometry = [
                    [c[0], c[1], 0, 0],
                    [c[2], c[3], 0, 0],
                    [c[4], c[5], 0, 0],
                    [c[6], c[7], 0, 0],
                ];
                proof {
                    assert(self.render.geometry[0]@ =~= seq![c[0], c[1], 0u32, 0u32]);
                    assert(self.render.geometry[1]@ =~= seq![c[2], c[3], 0u32, 0u32]);
                    assert(self.render.geometry[2]@ =~= seq![c[4], c[5], 0u32, 0u32]);
                    assert(self.render.geometry[3]@ =~= seq![c[6], c[7], 0u32, 0u32]);
                }
                CommandEffect::Nothing
            },
            EngineCommand::SetCrop { left, top, right, bottom } => {
                self.render.crop = [left, top, right, bottom];
                assert(self.render.crop@ =~= seq![left, top, right, bottom]);
                CommandEffect::Nothing
            },
            EngineCommand::SetPanZoom { pan_x, pan_y, zoom } => {
                self.render.pan_zoom = [pan_x, pan_y, zoom];
                assert(self.render.pan_zoom@ =~= seq![pan_x, pan_y, zoom]);
                CommandEffect::Nothing
            },
            EngineCommand::SetColor { brightness, contrast, saturation } => {
                self.render.color = [brightness, contrast, saturation];
                assert(self.render.color@ =~= seq![brightness, contrast, saturation]);
                CommandEffect::Nothing
            },
            EngineCommand::Resize(w, h) => CommandEffect::Resize(w, h),
            EngineCommand::SetVolume(amp) => CommandEffect::SetVolume(amp),
            EngineCommand::SetBlend(val) => {
                if self.playlist.transition_duration_hnsecs == 0 {
                    CommandEffect::SetBlend(val)
                } else {
                    CommandEffect::Nothing
                }
            },
            EngineCommand::UpdateSubtitle(_text) => CommandEffect::RefreshSubtitle,
            EngineCommand::Pause => {
                clock.set_paused(true);
                CommandEffect::Nothing
            },
            EngineCommand::Resume => {
                clock.set_paused(false);
                CommandEffect::Nothing
            },
            EngineCommand::Stop => {
                self.playlist.stop();
                ring_a.flush();
                ring_b.flush();
                CommandEffect::StopDecoders
            },
            EngineCommand::SetAudioRoute { deck_id, in_ch, out_bus, gain_db } => {
                let deck = if deck_id == 0 { Deck::A } else { Deck::B };
                CommandEffect::SetAudioRoute { deck, in_ch: in_ch as usize, out_bus: out_bus as usize, gain_db }
            },
            EngineCommand::Shutdown => CommandEffect::Shutdown,
        }
    }
}

} // verus!
