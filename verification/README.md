# oauth2

OAuth2 for Google desktop applications, in Verus: the authorization flow with
PKCE, the refresh flow, and the DPoP proofs that can go with their requests, as
documented [here](https://developers.google.com/identity/protocols/oauth2/native-app).

The library under `src/` decides and computes. Its functions are verified
against their contracts, except those that stand for a function of another
crate: their contracts are taken on trust (see below). It never touches the network or the disk: a
function that would send something returns what to send, and one that would
wait for an answer takes the answer as an argument. `app/` is ordinary Rust
around it: a command line program and a small client that keep files, run the
local http server, and talk to the token server.

## Layout

* `client`, `tokens`, `error`: the `auth` flow and the steps of the `refresh`
  flow.
* `refresh`: the `refresh` flow as a whole, with its one retry.
* `dpop`, `keys`: keypairs, their PEM documents, and DPoPs.
* `simple`, `client_info`: a client that keeps its tokens.
* `cli`: what the command line program decides and prints.
* `base64url`, `digest`, `json`, `random`, `clock`, `secret`, `text`, `url`: what the
  rest is built on.
* `laws`, `dpop_text`: what holds of the library as a whole.

What the library has from other crates is stated in the contracts of the
functions marked `#[verifier::external_body]`. Each stands for one outside
function and says what is taken on trust.

## Command line

```bash
oauth2-cli generate-dpop-keys
oauth2-cli -o json init --scope "${SCOPE}" > token.json
oauth2-cli -o json refresh > new_token.json
```

Store these files securely: they contain sensitive credentials.
