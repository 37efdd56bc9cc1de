# devserver

A small server for local development: it serves a folder over HTTP and
HTTPS on one port and, when asked to, reloads open pages whenever a file in
the folder changes. It makes no effort to be secure; use it on a trusted
machine only.

## Layout

- `src/` is the verified library (Verus):
  - `text.rs`: the string operations the server applies to requests
    (split, trim, replace, decimal numbers), over `Seq<char>`;
  - `mime.rs`: MIME types by extension;
  - `http.rs`: when a request header is complete, which file a request
    names, TLS detection, and the head of each response;
  - `websocket.rs`: the reload channel's opening handshake and frame;
  - `watch.rs`: what the watcher does with each file-system notice;
  - `cli.rs`: the command line and the listening address.
- `app/` is the program around it: sockets, TLS, files, the watcher thread.
- `tests/` runs the library on concrete inputs.

## Usage

    devserver [--address host:port] [--path folder] [--noreload] [--header Name:value]

HTTPS is offered when an `identity.pfx` file (PKCS #12, password `debug`)
is present in the working directory.
