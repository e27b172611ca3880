# identity-aauth

A verified resolver for inbound AAuth identities. A request that is signed under
AAuth presents a token whose issuer vouches for an agent or a person, and a
signature under the key that the token confirms. The library decides what such a
request proves, and Verus proves that it decides as its contracts say.

## Layout

| Path | Content |
| --- | --- |
| `src/verification.rs` | the checks of a request and their order |
| `src/headers.rs` | header lines and the fields that they make |
| `src/guarantees.rs` | what holds of every verification |
| `src/egress.rs`, `src/ip.rs`, `src/url.rs` | what may be fetched, and from where |
| `src/jwks.rs` | the cache of issuers' key sets |
| `src/replay.rs` | the memory of accepted requests |
| `src/config.rs` | the operator's configuration and its validation |
| `src/identity.rs` | from a verified request to a gateway identity |
| `src/error.rs`, `src/tokens.rs`, `src/json.rs`, `src/text.rs` | the values in between |
| `app/` | the gateway plugin: network, clocks, locks and cryptographic primitives |

## How it is driven

The library performs no input or output. `verify`, `resolve`, `validate`,
`get_json`, `fetch` and
`refresh_step` take what is known so far and either
conclude or name the one action whose result they need next. The caller performs
it, records the result in its slot and calls again. A verification that starts
with no evidence concludes after at most thirteen actions.

## What is taken on trust

Calls into `serde_json` (parsing a document and reading its string members),
`url` (parsing a URL) and `sha2` (the digest of a replay tuple), each behind one
item whose contract says what is claimed of it, and two methods of the standard
library's strings.
