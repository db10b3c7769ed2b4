# WaterDrop

Sends files between devices on a local network. The receiver decides what lands on its
disk: a file is offered, accepted or denied, and stored in one drop folder.

- `src/` is the library, written in Verus: every function in it is verified against the
  contract it states. It does no input or output. Sessions, the engine and the servicing of
  a multiplexed connection are state machines: they are told what happened and answer with
  what is to be done.
- `app/` is the program around it: TCP and QUIC, files, the prompt and the window.
- `tests/` runs the library.

What holds of the library beyond single functions stands in proof functions whose names
begin with `law_`: that a decoded frame is the one that was encoded, that a file arrives
byte for byte, that a received file stays in the drop folder, that a session tells its end
exactly once, that nothing is stored which the user did not accept, that a certificate
other than the trusted ones is refused.

What the library takes from other crates, and what it assumes of it, stands at the
`external_body` functions, the `assume_specification` items and the `uninterp` functions,
each with a comment. They are in `buffer` (`bytes`), `tls` (`sha2`, `hex`, `rcgen`),
`devices` (`uuid`), `storage` (`dirs`, paths), `protocol` (`serde_json`), `command` (time)
and `text` (strings).
