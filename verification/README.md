# tgcalls

Telegram voice and video calls: group calls, private (one-to-one) calls and
conference calls, streamed through the native ntgcalls engine, with Telegram
reached through the ferogram client.

## Layout

- `src/` is the verified core, checked by Verus. It holds everything the calls
  decide: the group call's lifecycle and its incoming-video subscriptions
  (`call`), the private call's state machine and what each phone call update
  means for it (`p2p`), the conference session (`e2e`), the ffmpeg command
  lines and media descriptions (`media`), playback progress (`calls`), the
  engine's codes and records (`enums`, `errors`, `structures`, `raw`,
  `engine`), and what Telegram's answers mean (`signaling`).
- `app/` is the runtime around it: the engine's C interface (`TgCalls`),
  Telegram requests, ffprobe, and the async drivers (`Call`, `Calls`,
  `P2PCall`) that ask the core before each step and report back after.
  Conference calls are decided in the core (`e2e::ConferenceSession`), but
  their driver is not here: the engine's C interface this crate binds has
  no conference (key chain) operations, so `app/` only recognises
  conference invites.
- `tests/` exercises the core on concrete values.
