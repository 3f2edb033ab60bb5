# goxviet_core

Verified core of a Vietnamese input method: the typing engine (Telex and VNI key processing,
English auto-restore, backspace after space, shortcuts at word boundaries), key codes and
Vietnamese letters, the Telex and VNI key rules, syllable structure checks, English detection for auto-restore, tone and
modifier placement, the typing buffers and their restore logic, text shortcuts with a JSON
form, version comparison and the engine configuration.

Layout:

- `src/` — the library, written in Verus; every function carries its contract and the
  laws of the library are proof functions next to the code they speak of.
- `tests/` — ordinary Rust tests of the library.
- `app/` — the C interface (engine handles, key processing, configuration, version,
  shortcuts) around the library; it is ordinary Rust and is not verified.

Modules of `src/`: `keys`, `chars`, `text`, `domain`, `input`, `buffer`, `restore`, `state`,
`history`, `syllable`, `structure`, `phonotactic`, `vietnamese_validator`, `fsm_validator`,
`detection`, `tone_positioning`, `transform`, `dictionary`, `updater`, `shortcut`, `json`,
`config`, `bridge`, `engine`.
