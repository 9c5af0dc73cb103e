# Myrica

Myrica is a web browser. ScarletUI owns the browser chrome and platform
integration, and Blitz lays out and paints pages; what the browser itself
decides is a library whose behaviour is stated in contracts and proved with
[Verus](https://github.com/verus-lang/verus).

- `src/` is the library. It computes on plain values only.
  - `location`, `markup`, `network`, `cookies`: addresses, the browser's own
    pages, requests and responses, and the cookie jar.
  - `backend`: the mailbox between the user interface and the engine, the
    engine's loop, top-level pages and their history, input, input methods,
    scripts fetched ahead, and fonts.
  - `scene`: the bookkeeping of the scene renderer.
  - `shell`, `platform`: the chrome, and the arguments of the process.
  - `text`, `scalar`: strings and floating-point numbers as the rest of the
    library knows them.
- `tests/` runs the library, with the crates that it calls.
- `app/` is the program around it: threads, sockets, windows, documents, and
  everything in floating point.

Floating-point numbers pass through the library as their bit patterns. They are
compared there, and nothing else.

What the library has from another crate it calls through a few small functions
whose contracts are believed, not proved; the comment above each says what is
claimed of which outside function.

    myrica [URL]

The URL is optional and defaults to `https://example.com/`. Built with
`RUSTFLAGS="--cfg without_javascript"`, the browser runs no scripts.
