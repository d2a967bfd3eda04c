# blight

The verified core of the Blight proxy server, written in Verus.

`src/` holds the library: what the server decides, each function with a
contract that Verus proves.

- `ip`: which addresses are globally reachable.
- `headers`, `text`, `json`: header maps, text and JSON as plain values.
- `err`, `consts`, `structs`, `getxb`, `parse`: the Bare (TOMP) protocol's
  errors, vocabularies and request parsing for versions 1 to 3.
- `splitjoin`: long `x-bare-headers` values cut into pieces and joined back.
- `req`: the request sent on to the remote and the answer built from its
  response.
- `ws`, `wsmeta`: WebSocket protocol decoding, metadata parsing and checks.
- `wsproxy`, `wisp`: admission of wsproxy and Wisp connections and the relay
  steps.
- `routes`, `config`, `auth`, `adblock`: routes per version, settings, the
  auth file's entries and the adblock glue.
- `vanguard`: the Vanguard adblock engine over the `adblock` crate: filter
  sets, requests, the engine's checks and content blocking rules.
- `laws`: properties that relate these operations to one another.

`app/` is the server program around it: command line, sockets, DNS, the HTTP
client, WebSocket relays and the metadata store. `tests/` runs the library
on concrete values.
