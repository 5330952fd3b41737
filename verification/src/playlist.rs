use vstd::prelude::*;
use crate::app_logic::{EngineCue, OwnedCue};
use crate::clock::{MasterClock, trunc_div};

verus! {

/// Bit pattern of the `f32` value 0.0: the crossfader fully on deck A.
pub const BLEND_DECK_A_BITS: u32 = 0;

/// Bit pattern of the `f32` value 1.0: the crossfader fully on deck B.
pub const BLEND_DECK_B_BITS: u32 = 0x3F80_0000;

/// One of the two playout decks.
#[derive(PartialEq, Eq, Structural, Clone, Copy, Debug)]
pub enum Deck {
    A,
    B,
}

/// What the shell has to start on the deck that receives a fired cue.
#[derive(PartialEq, Eq, Structural, Clone, Copy, Debug)]
pub enum DeckLaunch {
    /// A new hardware decoder plays the cue (files and local cameras).
    MediaEngine,
    /// The deck's decoder is dropped and the still image is uploaded.
    StaticImage,
    /// A network video receiver thread is spawned.
    NdiReceiver,
    /// A desktop duplication thread is spawned.
    DesktopCapture,
    /// An SDI capture thread is spawned.
    SdiReceiver,
    /// A window capture thread is spawned.
    WebviewCapture,
    /// The modality is unknown: nothing is started.
    Unhandled,
}

/// What the crossfader should be set to after a tick.
#[derive(PartialEq, Eq, Structural, Clone, Copy, Debug)]
pub enum BlendUpdate {
    /// Leave the crossfader as it is.
    Keep,
    /// Store this bit pattern (0.0 or 1.0).
    Fixed(u32),
    /// Store the transition progress, measured from `transition_start_frames`
    /// over `transition_duration_hnsecs` and clamped to [0, 1]; towards deck B
    /// when `toward_b`, otherwise one minus it.
    Ramp { toward_b: bool },
}

/// Everything the shell must do to carry out a fired cue.
pub struct FireAction {
    /// The standby deck that receives the cue; its hardware slot is flushed.
    pub deck: Deck,
    /// The cue's modality, recorded for the compositor.
    pub modality: u8,
    /// Whether the deck's running background receiver must be told to stop.
    pub stop_previous_worker: bool,
    /// What to start on the deck.
    pub launch: DeckLaunch,
    /// The cue in the form the decoder takes.
    pub cue: EngineCue,
}

/// Everything the shell must do after one 60 Hz tick.
#[derive(PartialEq, Eq, Structural, Clone, Copy, Debug)]
pub struct TickAction {
    pub blend: BlendUpdate,
    /// Drop the decoder of deck A / deck B.
    pub drop_a: bool,
    pub drop_b: bool,
    /// Flush the compositor slot of deck A / deck B.
    pub flush_a: bool,
    pub flush_b: bool,
    /// Tell the background receiver of deck A / deck B to stop.
    pub stop_worker_a: bool,
    pub stop_worker_b: bool,
}

impl TickAction {
    /// Whether the action drops the decoder of deck `d`.
    pub open spec fn drops(self, d: Deck) -> bool {
        match d {
            Deck::A => self.drop_a,
            Deck::B => self.drop_b,
        }
    }

    /// Whether the action flushes the compositor slot of deck `d`.
    pub open spec fn flushes(self, d: Deck) -> bool {
        match d {
            Deck::A => self.flush_a,
            Deck::B => self.flush_b,
        }
    }

    /// Whether the action stops the background receiver of deck `d`.
    pub open spec fn stops_worker(self, d: Deck) -> bool {
        match d {
            Deck::A => self.stop_worker_a,
            Deck::B => self.stop_worker_b,
        }
    }
}

/// The deck that is not `deck`.
pub open spec fn other(deck: Deck) -> Deck {
    match deck {
        Deck::A => Deck::B,
        Deck::B => Deck::A,
    }
}

/// What a cue of this modality starts on its deck.
pub open spec fn launch_for(modality: u8) -> DeckLaunch {
    if modality == 0 || modality == 3 {
        DeckLaunch::MediaEngine
    } else if modality == 1 {
        DeckLaunch::StaticImage
    } else if modality == 2 {
        DeckLaunch::NdiReceiver
    } else if modality == 4 {
        DeckLaunch::DesktopCapture
    } else if modality == 5 {
        DeckLaunch::SdiReceiver
    } else if modality == 6 {
        DeckLaunch::WebviewCapture
    } else {
        DeckLaunch::Unhandled
    }
}

/// The transition length actually used: the requested length truncated
/// to whole milliseconds.
pub open spec fn whole_ms_hnsecs(hnsecs: i64) -> int {
    trunc_div(hnsecs as int, 10_000) * 10_000
}

/// The A/B deck state machine. The active deck is on air; cues are fired
/// into the standby deck, and the switch happens on a later tick, once the
/// incoming deck has produced its first frame.
pub struct Playlist {
    /// Whether deck A / deck B holds a running decoder.
    pub deck_a_loaded: bool,
    pub deck_b_loaded: bool,
    pub is_deck_a_active: bool,
    pub is_transitioning: bool,
    /// Clock frame at which the running transition started.
    pub transition_start_frames: u64,
    pub transition_duration_hnsecs: i64,
    pub ndi_enabled: bool,
    pub pending_fire: bool,
    pub incoming_is_static: bool,
    /// Whether deck A / deck B has a background receiver running.
    pub bg_worker_a: bool,
    pub bg_worker_b: bool,
}

impl Playlist {
    /// Whether deck `d` holds a decoder.
    pub open spec fn loaded(&self, d: Deck) -> bool {
        match d {
            Deck::A => self.deck_a_loaded,
            Deck::B => self.deck_b_loaded,
        }
    }

    /// Whether deck `d` has a background receiver.
    pub open spec fn worker(&self, d: Deck) -> bool {
        match d {
            Deck::A => self.bg_worker_a,
            Deck::B => self.bg_worker_b,
        }
    }

    /// The deck on air.
    pub open spec fn active(&self) -> Deck {
        if self.is_deck_a_active {
            Deck::A
        } else {
            Deck::B
        }
    }

    /// The deck not on air, which receives fired and preloaded cues.
    pub open spec fn standby(&self) -> Deck {
        other(self.active())
    }

    /// The ready check and deck switch of a tick. When a fire is pending
    /// and the incoming deck is ready (a static source, or a decoder that
    /// has produced its first frame), the active deck flips; with an armed
    /// crossfade the transition starts at clock frame `now`, otherwise the
    /// crossfader jumps to the new deck and the outgoing decoder is
    /// dropped.
    pub open spec fn pending_step(self, now: u64, a_started: bool, b_started: bool) -> (Playlist, TickAction) {
        let idle = TickAction {
            blend: BlendUpdate::Keep,
            drop_a: false,
            drop_b: false,
            flush_a: false,
            flush_b: false,
            stop_worker_a: false,
            stop_worker_b: false,
        };
        let ready = self.incoming_is_static || (if self.is_deck_a_active {
            self.deck_b_loaded && b_started
        } else {
            self.deck_a_loaded && a_started
        });
        if !self.pending_fire || !ready {
            (self, idle)
        } else {
            let a_now = !self.is_deck_a_active;
            if self.transition_duration_hnsecs > 0 {
                (Playlist {
                    pending_fire: false,
                    is_deck_a_active: a_now,
                    is_transitioning: true,
                    transition_start_frames: now,
                    ..self
                }, idle)
            } else if a_now {
                (Playlist {
                    pending_fire: false,
                    is_deck_a_active: a_now,
                    is_transitioning: false,
                    deck_b_loaded: false,
                    ..self
                }, TickAction { blend: BlendUpdate::Fixed(BLEND_DECK_A_BITS), drop_b: true, ..idle })
            } else {
                (Playlist {
                    pending_fire: false,
                    is_deck_a_active: a_now,
                    is_transitioning: false,
                    deck_a_loaded: false,
                    ..self
                }, TickAction { blend: BlendUpdate::Fixed(BLEND_DECK_B_BITS), drop_a: true, ..idle })
            }
        }
    }

    /// The crossfade step of a tick, given whether the running crossfade
    /// has reached full progress. While transitioning, the crossfader
    /// ramps towards the active deck; once full progress is reached the
    /// transition ends, the crossfader settles on the active deck and,
    /// for a positive length, the outgoing deck is released (decoder
    /// dropped, slot flushed, receiver stopped) and the length is reset.
    pub open spec fn transition_step(self, act: TickAction, progress_reached: bool) -> (Playlist, TickAction) {
        if !self.is_transitioning {
            (self, act)
        } else if !progress_reached {
            (self, TickAction { blend: BlendUpdate::Ramp { toward_b: !self.is_deck_a_active }, ..act })
        } else {
            let settled = if self.is_deck_a_active { BLEND_DECK_A_BITS } else { BLEND_DECK_B_BITS };
            if self.transition_duration_hnsecs <= 0 {
                (Playlist { is_transitioning: false, ..self }, TickAction { blend: BlendUpdate::Fixed(settled), ..act })
            } else if self.is_deck_a_active {
                (Playlist {
                    is_transitioning: false,
                    deck_b_loaded: false,
                    bg_worker_b: false,
                    transition_duration_hnsecs: 0,
                    ..self
                }, TickAction {
                    blend: BlendUpdate::Fixed(settled),
                    drop_b: true,
                    flush_b: true,
                    stop_worker_b: self.bg_worker_b,
                    ..act
                })
            } else {
                (Playlist {
                    is_transitioning: false,
                    deck_a_loaded: false,
                    bg_worker_a: false,
                    transition_duration_hnsecs: 0,
                    ..self
                }, TickAction {
                    blend: BlendUpdate::Fixed(settled),
                    drop_a: true,
                    flush_a: true,
                    stop_worker_a: self.bg_worker_a,
                    ..act
                })
            }
        }
    }

    /// Whether the ready check of this tick starts a crossfade (at the
    /// current clock frame, so with zero elapsed time).
    pub open spec fn starts_crossfade(self, a_started: bool, b_started: bool) -> bool {
        self.pending_fire && incoming_ready(self, a_started, b_started) && self.transition_duration_hnsecs > 0
    }

    /// One tick: the ready check followed by the crossfade step.
    /// `progress_reached` says whether the crossfade stored before the tick
    /// has reached full progress at clock frame `now`; a crossfade that the
    /// ready check starts in this tick has made no progress yet.
    pub open spec fn tick_result(self, now: u64, a_started: bool, b_started: bool, progress_reached: bool) -> (Playlist, TickAction) {
        let (p, act) = self.pending_step(now, a_started, b_started);
        p.transition_step(act, progress_reached && !self.starts_crossfade(a_started, b_started))
    }

    /// The effect of `fire_cue` on the state, given the crossfader bits
    /// read when firing: the standby deck receives the cue, the fire is
    /// pending, the active deck is unchanged, and the crossfade length is
    /// armed only when something is on air.
    pub open spec fn fired(old: Playlist, new: Playlist, cue: OwnedCue, blend_bits: u32, act: FireAction) -> bool {
        &&& act.deck == old.standby()
        &&& act.modality == cue.modality
        &&& act.launch == launch_for(cue.modality)
        &&& act.stop_previous_worker == old.worker(act.deck)
        &&& act.cue.filepath@ == cue.filepath@
        &&& act.cue.in_point_hnsecs == cue.in_point_hnsecs
        &&& act.cue.out_point_hnsecs == cue.out_point_hnsecs
        &&& act.cue.is_looping == (cue.is_looping != 0)
        &&& act.cue.hold_last_frame == (cue.hold_last_frame != 0)
        &&& act.cue.audio_routing == cue.audio_routing
        &&& act.cue.transition_duration_hnsecs == cue.transition_duration_hnsecs
        &&& act.cue.modality == cue.modality
        &&& act.cue.hardware_index == cue.hardware_index
        &&& new.is_deck_a_active == old.is_deck_a_active
        &&& new.pending_fire
        &&& new.incoming_is_static == (cue.modality != 0)
        &&& new.transition_duration_hnsecs == (if whole_ms_hnsecs(cue.transition_duration_hnsecs) > 0
                && (old.deck_a_loaded || old.deck_b_loaded || blend_bits != 0) {
                whole_ms_hnsecs(cue.transition_duration_hnsecs)
            } else {
                0
            })
        &&& new.loaded(act.deck) == (if act.launch == DeckLaunch::MediaEngine {
                true
            } else if act.launch == DeckLaunch::StaticImage {
                false
            } else {
                old.loaded(act.deck)
            })
        &&& new.worker(act.deck) == (act.launch == DeckLaunch::NdiReceiver
                || act.launch == DeckLaunch::DesktopCapture || act.launch == DeckLaunch::SdiReceiver
                || act.launch == DeckLaunch::WebviewCapture)
        &&& new.loaded(other(act.deck)) == old.loaded(other(act.deck))
        &&& new.worker(other(act.deck)) == old.worker(other(act.deck))
        &&& new.is_transitioning == old.is_transitioning
        &&& new.transition_start_frames == old.transition_start_frames
        &&& new.ndi_enabled == old.ndi_enabled
    }

    /// Both decks empty, deck B on air, nothing pending.
    pub open spec fn new_spec() -> Playlist {
        Playlist {
            deck_a_loaded: false,
            deck_b_loaded: false,
            is_deck_a_active: false,
            is_transitioning: false,
            transition_start_frames: 0,
            transition_duration_hnsecs: 0,
            ndi_enabled: false,
            pending_fire: false,
            incoming_is_static: false,
            bg_worker_a: false,
            bg_worker_b: false,
        }
    }

    /// Both decks empty, deck B on air, nothing pending.
    pub fn new() -> (p: Self)
        ensures
            p == Playlist::new_spec(),
    {
        Playlist {
            deck_a_loaded: false,
            deck_b_loaded: false,
            is_deck_a_active: false,
            is_transitioning: false,
            transition_start_frames: 0,
            transition_duration_hnsecs: 0,
            ndi_enabled: false,
            pending_fire: false,
            incoming_is_static: false,
            bg_worker_a: false,
            bg_worker_b: false,
        }
    }

    /// Preload: a still image is decoded into the standby deck ahead of
    /// time; every other modality is prepared only when fired. Returns the
    /// deck to upload the image to, if any.
    pub fn load_cue(&self, target_cue: &OwnedCue) -> (d: Option<Deck>)
        ensures
            d == (if target_cue.modality == 1 { Some(self.standby()) } else { None::<Deck> }),
    {
        let standby_deck = if self.is_deck_a_active { Deck::B } else { Deck::A };
        if target_cue.modality == 2 || target_cue.modality == 3 || target_cue.modality == 4 {
            None
        } else if target_cue.modality == 1 {
            Some(standby_deck)
        } else {
            None
        }
    }

    /// Fires a cue into the standby deck. The active deck does not change
    /// here: `tick` switches decks once the incoming deck is ready. A
    /// crossfade is armed only when something is on air (a loaded deck or
    /// a crossfader off 0.0) and the length, in whole milliseconds, is
    /// positive; otherwise the switch will be a hard cut.
    pub fn fire_cue(&mut self, target_cue: &OwnedCue, blend_bits: u32) -> (act: FireAction)
        ensures
            Playlist::fired(*old(self), *final(self), *target_cue, blend_bits, act),
            final(self).transition_duration_hnsecs % 10_000 == 0,
            (old(self).deck_a_loaded || old(self).deck_b_loaded || blend_bits != 0)
                && target_cue.transition_duration_hnsecs >= 10_000 ==> {
                &&& final(self).transition_duration_hnsecs > 0
                &&& 0 <= target_cue.transition_duration_hnsecs - final(self).transition_duration_hnsecs < 10_000
            },
            !(old(self).deck_a_loaded || old(self).deck_b_loaded || blend_bits != 0)
                || target_cue.transition_duration_hnsecs < 10_000 ==> final(self).transition_duration_hnsecs == 0,
    {
        proof {
            lemma_whole_ms_truncates(target_cue.transition_duration_hnsecs);
        }
        let cue = EngineCue::from_owned(target_cue);
        let transition_ms: i64 = target_cue.transition_duration_hnsecs / 10_000;
        let has_active_deck = self.deck_a_loaded || self.deck_b_loaded || blend_bits != 0;
        let transition_hnsecs: i64 = transition_ms * 10_000;

        self.pending_fire = true;
        self.incoming_is_static = cue.modality != 0;

        if transition_hnsecs > 0 && has_active_deck {
            self.transition_duration_hnsecs = transition_hnsecs;
        } else {
            self.transition_duration_hnsecs = 0;
        }

        let is_deck_a = !self.is_deck_a_active;
        let deck = if is_deck_a { Deck::A } else { Deck::B };
        let stop_previous_worker = if is_deck_a {
            let w = self.bg_worker_a;
            self.bg_worker_a = false;
            w
        } else {
            let w = self.bg_worker_b;
            self.bg_worker_b = false;
            w
        };

        let m = cue.modality;
        let launch = if m == 0 || m == 3 {
            if is_deck_a {
                self.deck_a_loaded = true;
            } else {
                self.deck_b_loaded = true;
            }
            DeckLaunch::MediaEngine
        } else if m == 1 {
            if is_deck_a {
                self.deck_a_loaded = false;
            } else {
                self.deck_b_loaded = false;
            }
            DeckLaunch::StaticImage
        } else if m == 2 || m == 4 || m == 5 || m == 6 {
            if is_deck_a {
                self.bg_worker_a = true;
            } else {
                self.bg_worker_b = true;
            }
            if m == 2 {
                DeckLaunch::NdiReceiver
            } else if m == 4 {
                DeckLaunch::DesktopCapture
            } else if m == 5 {
                DeckLaunch::SdiReceiver
            } else {
                DeckLaunch::WebviewCapture
            }
        } else {
            DeckLaunch::Unhandled
        };

        FireAction { deck, modality: m, stop_previous_worker, launch, cue }
    }

    /// The deck whose decoder receives a scrub: the active deck, if it holds
    /// a decoder.
    pub fn scrub(&self, target_hnsecs: i64) -> (d: Option<Deck>)
        ensures
            d == (if self.loaded(self.active()) { Some(self.active()) } else { None::<Deck> }),
    {
        if self.is_deck_a_active {
            if self.deck_a_loaded { Some(Deck::A) } else { None }
        } else {
            if self.deck_b_loaded { Some(Deck::B) } else { None }
        }
    }

    /// Releases both decoders and cancels any transition or pending fire.
    pub fn stop(&mut self)
        ensures
            !final(self).deck_a_loaded,
            !final(self).deck_b_loaded,
            !final(self).is_transitioning,
            !final(self).pending_fire,
            final(self).is_deck_a_active == old(self).is_deck_a_active,
            final(self).transition_start_frames == old(self).transition_start_frames,
            final(self).transition_duration_hnsecs == old(self).transition_duration_hnsecs,
            final(self).ndi_enabled == old(self).ndi_enabled,
            final(self).incoming_is_static == old(self).incoming_is_static,
            final(self).bg_worker_a == old(self).bg_worker_a,
            final(self).bg_worker_b == old(self).bg_worker_b,
    {
        self.deck_a_loaded = false;
        self.deck_b_loaded = false;
        self.is_transitioning = false;
        self.pending_fire = false;
    }

    /// One 60 Hz step of the state machine, given the clock, whether the
    /// decoders of deck A and deck B have produced their first frame, and
    /// whether the running crossfade has reached full progress. The shell
    /// measures that progress in floating point, as elapsed clock time over
    /// the crossfade length, from the state before the tick and the same
    /// clock reading. Returns what the shell must do before it renders the
    /// frame.
    pub fn tick(&mut self, clock: &MasterClock, deck_a_started: bool, deck_b_started: bool, progress_reached: bool) -> (act: TickAction)
        ensures
            (*final(self), act) == old(self).tick_result(clock.frames(), deck_a_started, deck_b_started, progress_reached),
            final(self).loaded(final(self).active()) == old(self).loaded(final(self).active()),
            final(self).worker(final(self).active()) == old(self).worker(final(self).active()),
            !act.drops(final(self).active()),
            !act.flushes(final(self).active()),
            !act.stops_worker(final(self).active()),
    {
        proof {
            lemma_tick_spares_deck_on_air(*old(self), clock.frames(), deck_a_started, deck_b_started, progress_reached);
        }
        let now = clock.frames_played();
        let mut reached = progress_reached;
        let mut act = TickAction {
            blend: BlendUpdate::Keep,
            drop_a: false,
            drop_b: false,
            flush_a: false,
            flush_b: false,
            stop_worker_a: false,
            stop_worker_b: false,
        };

        if self.pending_fire {
            let incoming_ready = if self.incoming_is_static {
                true
            } else if self.is_deck_a_active {
                self.deck_b_loaded && deck_b_started
            } else {
                self.deck_a_loaded && deck_a_started
            };

            if incoming_ready {
                self.pending_fire = false;
                self.is_deck_a_active = !self.is_deck_a_active;

                if self.transition_duration_hnsecs > 0 {
                    self.is_transitioning = true;
                    self.transition_start_frames = now;
                    reached = false;
                } else {
                    self.is_transitioning = false;
                    if self.is_deck_a_active {
                        act.blend = BlendUpdate::Fixed(BLEND_DECK_A_BITS);
                        self.deck_b_loaded = false;
                        act.drop_b = true;
                    } else {
                        act.blend = BlendUpdate::Fixed(BLEND_DECK_B_BITS);
                        self.deck_a_loaded = false;
                        act.drop_a = true;
                    }
                }
            }
        }

        if self.is_transitioning {
            if reached {
                self.is_transitioning = false;
                if self.is_deck_a_active {
                    act.blend = BlendUpdate::Fixed(BLEND_DECK_A_BITS);
                } else {
                    act.blend = BlendUpdate::Fixed(BLEND_DECK_B_BITS);
                }
                if self.transition_duration_hnsecs > 0 {
                    if self.is_deck_a_active {
                        self.deck_b_loaded = false;
                        act.drop_b = true;
                        act.flush_b = true;
                        act.stop_worker_b = self.bg_worker_b;
                        self.bg_worker_b = false;
                    } else {
                        self.deck_a_loaded = false;
                        act.drop_a = true;
                        act.flush_a = true;
                        act.stop_worker_a = self.bg_worker_a;
                        self.bg_worker_a = false;
                    }
                    self.transition_duration_hnsecs = 0;
                }
            } else {
                act.blend = BlendUpdate::Ramp { toward_b: !self.is_deck_a_active };
            }
        }
        act
    }

    /// Whether either deck holds a decoder.
    pub fn has_active_decks(&self) -> (b: bool)
        ensures
            b == (self.deck_a_loaded || self.deck_b_loaded),
    {
        self.deck_a_loaded || self.deck_b_loaded
    }
}

/// The tick outcome that changes nothing.
pub open spec fn idle_action() -> TickAction {
    TickAction {
        blend: BlendUpdate::Keep,
        drop_a: false,
        drop_b: false,
        flush_a: false,
        flush_b: false,
        stop_worker_a: false,
        stop_worker_b: false,
    }
}

/// Whether the incoming (standby) deck of `p` can go on air, given which
/// decoders have produced their first frame.
pub open spec fn incoming_ready(p: Playlist, a_started: bool, b_started: bool) -> bool {
    p.incoming_is_static || (if p.is_deck_a_active {
        p.deck_b_loaded && b_started
    } else {
        p.deck_a_loaded && a_started
    })
}

/// No black frames: while a fired cue waits for its decoder's first frame
/// (and no crossfade is running), every tick leaves the state as it is and
/// asks for nothing, so the outgoing deck stays on air.
pub proof fn lemma_waiting_fire_keeps_air(p: Playlist, now: u64, a_started: bool, b_started: bool, reached: bool)
    requires
        p.pending_fire,
        !p.is_transitioning,
        !incoming_ready(p, a_started, b_started),
    ensures
        p.tick_result(now, a_started, b_started, reached) == (p, idle_action()),
{
}

/// The deck switch happens in `tick` only, and it puts the standby deck
/// (the one the fired cue went to) on air and clears the pending fire.
pub proof fn lemma_switch_puts_standby_on_air(p: Playlist, now: u64, a_started: bool, b_started: bool, reached: bool)
    requires
        p.pending_fire,
        incoming_ready(p, a_started, b_started),
    ensures
        p.tick_result(now, a_started, b_started, reached).0.active() == p.standby(),
        !p.tick_result(now, a_started, b_started, reached).0.pending_fire,
{
}

/// Firing never touches the deck on air: the cue goes to the standby deck,
/// and the active deck, its decoder and its receiver are unchanged.
pub proof fn lemma_fire_spares_active_deck(old: Playlist, new: Playlist, cue: OwnedCue, blend_bits: u32, act: FireAction)
    requires
        Playlist::fired(old, new, cue, blend_bits, act),
    ensures
        act.deck != old.active(),
        new.active() == old.active(),
        new.loaded(old.active()) == old.loaded(old.active()),
        new.worker(old.active()) == old.worker(old.active()),
{
}

/// A hard cut: without an armed crossfade, the switch puts the crossfader
/// fully on the new deck and drops the outgoing deck's decoder at once.
pub proof fn lemma_hard_cut(p: Playlist, now: u64, a_started: bool, b_started: bool, reached: bool)
    requires
        p.pending_fire,
        incoming_ready(p, a_started, b_started),
        p.transition_duration_hnsecs <= 0,
        !p.is_transitioning,
    ensures
        ({
            let (q, act) = p.tick_result(now, a_started, b_started, reached);
            &&& !q.is_transitioning
            &&& !q.loaded(p.active())
            &&& act.blend == BlendUpdate::Fixed(if q.is_deck_a_active { BLEND_DECK_A_BITS } else { BLEND_DECK_B_BITS })
            &&& (if p.active() == Deck::A { act.drop_a } else { act.drop_b })
        }),
{
}

/// A crossfade that reaches full progress settles the crossfader on the
/// active deck, releases the outgoing deck (decoder dropped, slot flushed,
/// receiver stopped) and disarms itself, so it runs only once.
pub proof fn lemma_crossfade_releases_outgoing(p: Playlist, now: u64, a_started: bool, b_started: bool, reached: bool)
    requires
        !p.pending_fire,
        p.is_transitioning,
        p.transition_duration_hnsecs > 0,
        reached,
    ensures
        ({
            let (q, act) = p.tick_result(now, a_started, b_started, reached);
            &&& !q.is_transitioning
            &&& q.transition_duration_hnsecs == 0
            &&& q.active() == p.active()
            &&& !q.loaded(p.standby())
            &&& !q.worker(p.standby())
            &&& act.blend == BlendUpdate::Fixed(if p.is_deck_a_active { BLEND_DECK_A_BITS } else { BLEND_DECK_B_BITS })
            &&& (if p.standby() == Deck::A { act.drop_a && act.flush_a } else { act.drop_b && act.flush_b })
        }),
{
}

/// Before full progress, a running crossfade only ramps the crossfader
/// towards the active deck; nothing is released.
pub proof fn lemma_crossfade_ramps(p: Playlist, now: u64, a_started: bool, b_started: bool, reached: bool)
    requires
        !p.pending_fire,
        p.is_transitioning,
        !reached,
    ensures
        p.tick_result(now, a_started, b_started, reached)
            == (p, TickAction { blend: BlendUpdate::Ramp { toward_b: !p.is_deck_a_active }, ..idle_action() }),
{
}

/// At rest (nothing pending, no crossfade) a tick changes nothing and asks
/// for nothing: a finished transition does not fire again.
pub proof fn lemma_idle_tick_is_noop(p: Playlist, now: u64, a_started: bool, b_started: bool, reached: bool)
    requires
        !p.pending_fire,
        !p.is_transitioning,
    ensures
        p.tick_result(now, a_started, b_started, reached) == (p, idle_action()),
{
}

/// A crossfade that the ready check starts begins at the current clock
/// frame with zero progress: the tick switches decks and ramps towards the
/// new deck, whatever the progress flag says, and releases nothing.
pub proof fn lemma_new_crossfade_starts_ramping(p: Playlist, now: u64, a_started: bool, b_started: bool, reached: bool)
    requires
        p.pending_fire,
        incoming_ready(p, a_started, b_started),
        p.transition_duration_hnsecs > 0,
    ensures
        p.tick_result(now, a_started, b_started, reached) == (
            Playlist {
                pending_fire: false,
                is_deck_a_active: !p.is_deck_a_active,
                is_transitioning: true,
                transition_start_frames: now,
                ..p
            },
            TickAction { blend: BlendUpdate::Ramp { toward_b: p.is_deck_a_active }, ..idle_action() },
        ),
{
}

/// No tick ever touches the deck it leaves on air: that deck keeps its
/// decoder and its receiver, and the action neither drops its decoder,
/// flushes its slot nor stops its receiver. Only the deck going off air is
/// ever released.
pub proof fn lemma_tick_spares_deck_on_air(p: Playlist, now: u64, a_started: bool, b_started: bool, reached: bool)
    ensures
        ({
            let (q, act) = p.tick_result(now, a_started, b_started, reached);
            &&& q.loaded(q.active()) == p.loaded(q.active())
            &&& q.worker(q.active()) == p.worker(q.active())
            &&& !act.drops(q.active())
            &&& !act.flushes(q.active())
            &&& !act.stops_worker(q.active())
        }),
{
}

/// The armed crossfade length is the requested length truncated towards
/// zero to whole milliseconds: a multiple of 10 000 (100 ns units) within
/// one millisecond of the request, no longer than it, and of the same
/// sign.
pub proof fn lemma_whole_ms_truncates(h: i64)
    ensures
        whole_ms_hnsecs(h) % 10_000 == 0,
        h >= 0 ==> 0 <= h - whole_ms_hnsecs(h) < 10_000,
        h < 0 ==> 0 <= whole_ms_hnsecs(h) - h < 10_000,
        h >= 10_000 ==> whole_ms_hnsecs(h) >= 10_000,
        h < 10_000 ==> whole_ms_hnsecs(h) <= 0,
{
}

} // verus!
