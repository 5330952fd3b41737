# m_playlist

The control core of a live-event playout engine (A/B decks, crossfades,
audio routing, timecode), written in Verus.

- `src/` is the verified library: the audio ring buffer and master clock,
  the A/B deck state machine and its command handler, the decoder timeline
  gate, the LTC decoder, the NDI readback and ping-pong bookkeeping, the
  audio mixing index arithmetic, the OSC trigger match and the C-string
  helpers. Each public function states its behaviour in `requires` /
  `ensures`; the laws that relate several calls are public proof functions.
- `app/` is the Windows shell around it: Direct3D 11 composition, WASAPI
  audio, Media Foundation decoding, NDI, capture threads and the C ABI. It
  performs the I/O and the floating-point work, and hands the library plain
  values.
- `tests/` runs the library on concrete scenarios.
