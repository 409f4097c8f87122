# io_sasl

I/O-free client-side SASL mechanisms, written in Verus and proved
against their specifications. A mechanism is a resumable state machine:
the protocol crate feeds it what the peer said (`SaslResume`), it answers
with what to send or that it waits (`SaslYield`), and it completes with
its outcome. Nothing here opens a socket, reads a clock or draws a
random number.

## Layout

- `src/coroutine.rs`: the contract every mechanism implements, and the
  abstract step (`SaslStep`) the contracts are stated over.
- `src/mechanism.rs`: the mechanism tags and their wire names, the
  plain credential structs, and the closed `Sasl` set.
- `src/client.rs`: the blocking command surface a protocol crate
  implements once (`SaslClient::run`) and inherits every mechanism from.
- One module per mechanism, named after its RFC where it has one:
  `rfc2195` (CRAM-MD5), `rfc4422` (EXTERNAL), `rfc4505` (ANONYMOUS),
  `rfc4616` (PLAIN), `rfc4752` (GSSAPI relay and the security layer
  octets), `rfc5801` (the GS2 header and GS2-KRB5), `rfc5802` (the SCRAM
  family and SCRAM-SHA-1), `rfc7628` (OAUTHBEARER), `rfc7677`
  (SCRAM-SHA-256), `login`, `scram_sha_512`, `xoauth2`.
- `src/rfc4013.rs`: SASLprep, which PLAIN (authentication identity and
  password) and SCRAM (username and password) run their credentials
  through; a refusal completes the exchange with an error.
- `src/text.rs`: byte and string helpers (splitting, decimal and
  hexadecimal digits, UTF-8 conversions).
- `app/lib.rs`: the async twin of `SaslClient`, which hands back futures
  and so stays outside the verified library.

Each mechanism's `resume` is specified by a spec function from the state
and the resume argument to the next state and the step; the laws of the
exchange (what starts it, what ends it, what a stray challenge gets) are
proof functions beside it. The digests, HMAC, PBKDF2, base64, NFKC and
lossy UTF-8 decoding come from their crates through small trusted
wrappers whose results are named by uninterpreted spec functions.
