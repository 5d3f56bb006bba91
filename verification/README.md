# zela_std

Guest SDK for Zela custom procedures, and a typed Solana RPC client that tunnels through the host's
`call-rpc` import.

`src/` is the core of the SDK, verified with Verus. It performs no I/O: it decides what is sent to
the host, what a raw reply means, and what happens next.

| Module | What it holds |
| --- | --- |
| `poll` | the bounded busy-poll that drives a procedure's future |
| `host` | the host's two-layer replies, typed |
| `procedure` | one run of a procedure, from parameter bytes to reply bytes |
| `subscription` | host subscriptions and the stream made of one |
| `rpc_client::client` | the client and `send`, through which every reply goes |
| `rpc_client::{transactions, accounts, tokens, cluster, ledger}` | a request and a reply function per RPC method |
| `rpc_client::{confirm, polling}` | the methods that wait, as state machines |
| `rpc_client::pubsub` | subscriptions to a node's notifications |
| `rpc_client::{config, error, keys, request, response}` | the types that these speak of |
| `bindings` | every function of another crate that the core calls, with what is assumed of it |

For an RPC method `m`, `RpcClient::m` builds the request and `RpcClient::m_reply` (or the reply
function of a method with the same reply) turns the host's raw reply into the result. Where a reply
goes through another crate's decoder, a function beside it takes what the decoder returned, so that
the rules can be read and used without the decoder.

`app/` is the shell: the host bindings, the `CustomProcedure` traits, logging, JSON encoding of
parameters, sleeping and the clock.

```rust
pub struct Echo;

impl CustomProcedure for Echo {
    type Params = JsonValue;
    type SuccessData = JsonValue;
    type ErrorData = ();

    async fn run(params: Self::Params) -> Result<Self::SuccessData, RpcError<Self::ErrorData>> {
        Ok(params)
    }
}

zela_custom_procedure!(Echo);
```
