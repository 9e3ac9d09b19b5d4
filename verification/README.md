# simprint-runtime

The runtime that drives fingerprinted Chromium browsers for a desktop app. It
reads framed MessagePack requests on stdin and answers on stdout.

- `src/` is the library, verified with Verus:
  - `protocol`, `topics`, `le`, `buffers`: the frame format, its encoder and
    decoder (over the `bytes` crate), with the proof that decoding an encoded
    message gives it back;
  - `framing`: cutting frames out of the input stream;
  - `runtime`, `environments`: the runtime state and what each request does to it;
  - `browser`, `fingerprint`, `cdp_client`: the browser launch plan, fingerprints
    and CDP endpoint URLs;
  - `text`: decimal rendering of numbers;
  - `api`: the payload types.
- `app/` is the program: stdin/stdout, MessagePack (de)serialisation of the
  payload types, spawning Chrome and polling its CDP endpoint.
- `tests/` runs the library on concrete inputs.
