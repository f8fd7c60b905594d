# quic_h3_emscripten

A verified core for an HTTP/3-over-QUIC client whose UDP socket is driven by
an event reactor (as on `wasm32-unknown-emscripten` under Node.js).

- `src/` is the library, verified with Verus:
  - `address`: socket addresses, the choice of the peer to dial (first IPv4
    address, else the first address) and of the local bind address.
  - `io`: I/O errors, poll results, readiness sets, interests, read buffers.
  - `udp`: the reactor-backed UDP socket. Every operation receives the system
    call as a closure; the socket decides from the reported readiness whether
    to make it, and a `WouldBlock` consumes that readiness.
  - `adapter`: the single-datagram socket given to the QUIC endpoint, and the
    TLS settings (ALPN `h3`, certificate policy).
  - `http3`: the GET request, the response header scan, the decisions on
    HTTP/3 driver events.
  - `preview`, `text`: the body length and one-line preview of the body.
- `app/` holds the program around it: DNS, the operating system's sockets,
  quinn, h3, rustls and the console.
- `tests/` exercises the library on concrete values.
