# moonlight_web

The verified core of a Moonlight game-streaming client and of a web front end for it.

`src/` holds the library, its functions proved by Verus against their contracts:

- `pair`, `crypto`, `pairing`: the pairing PIN, the key derived from salt and PIN, and the
  pairing exchange with a host as a state machine that is fed the host's answers.
- `xml`, `network`, `launch`, `host`: the host's XML answers read into values, the queries
  sent to it, and what the client decides from what the host tells.
- `stream`, `codec`, `video`, `annexb`, `h264`: stream settings, codecs offered to the browser,
  and video frames cut into their units.
- `buffer`, `input`, `signaling`: the binary input messages of the browser and the WebRTC
  negotiation decisions.
- `config`, `data`, `ipc`, `auth`, `api_bindings`, `instance`: configuration defaults, stored
  hosts, the framing between the web server and the streamer, and the browser's views.

Calls into outside crates (hashing, AES, X.509, RSA, PEM, XML, UUID, randomness) stand behind
small trusted wrappers whose contracts name what the crate computes.

`app/` is a small command line front end that keeps the host list and asks a host about itself
over HTTP. `tests/` runs the library on concrete values.
