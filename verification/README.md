# age-otp

Time-based one-time codes derived from an age public key, with no shared secret.
The key text (`age1...`) is bech32-decoded to 32 bytes, HKDF-SHA256 under the context
`age-otp-v1` turns them into a seed, and the code for a time step is the dynamic
truncation of HMAC-SHA256 of the step's eight big-endian bytes, written in a numeric,
upper-case alphanumeric or lower-case hexadecimal alphabet.

The library is written in Verus and proved against its contracts.

- `src/types.rs`: seeds, codes, character sets, parameter checks, key decoding, HMAC and
  dynamic truncation.
- `src/engine.rs`: `OtpEngine`, with generation and the three forms of verification; each
  verification that reads the clock has a form that takes the clock reading as an argument.
- `src/error.rs`: errors, their mathematical values and their messages.
- `src/text.rs`: building ASCII text (decimal numbers, hexadecimal bytes).
- `src/ffi.rs`: the decisions behind the C interface (status codes, character-set numbering,
  seed text, key text, code checks).
- `src/primitives.rs`: the calls into `age-setup`, `bech32`, `hex`, `hkdf`, `hmac`/`sha2` and
  `subtle`, whose contracts are trusted.
- `src/clock.rs`: reading the machine's clock, through three trusted calls into `std::time`.
- `src/laws.rs`: properties across functions, e.g. that a generated code verifies within
  its time-to-live and that verification with zero skew is plain verification.
- `app/`: error types with `Display` (via `thiserror`) and the C interface.
