# wafer

The core of a runtime whose blocks exchange messages, some of them compiled to
WebAssembly. The library is written in Verus: its functions carry contracts,
and the contracts are proved.

- `src/` is the library.
  - `types`, `block`, `meta`: messages, results, self-descriptions.
  - `context`, `command`, `dispatch`, `step`, `results`, `wire`: what a message
    to the runtime leads to, down to the call of a platform service.
  - `services`: the traits that a platform implements.
  - `wasm`: the guest boundary, which is the wire format, the memory of guests,
    the host functions, and the loading and calling of blocks.
  - `base64`, `decimal`, `text`, `json`: the encodings underneath.
  - `laws`: what holds of every message.
- `app/` is the shell around it: JSON by way of serde, log lines, files, and the
  registration of the host functions.
- `tests/` runs the library, with small guests in the WebAssembly text format.

What a message leads to is a `Step`: a result, a log line, a document to be read
or written, or one call of a service. The shell reads, writes and logs; the call
is made by `RuntimeContext::perform`.

What is believed and not proved stands in the functions that call `wasmtime`,
`serde_json` and a few items of `std`; each says above it what it claims.
