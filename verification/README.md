# teleport

Channel teleport moves a payment channel from one funding output to another without closing
it. The two nodes make the channel quiescent, agree on the new output, sign for it, and switch;
payments that are made meanwhile wait and go out once the channel is idle again.

The library is written in Verus. `src/model.rs` says what each request, message and
disturbance does to one end of a channel, `src/node_model.rs` what it does to a node;
`src/channel.rs` and `src/node.rs` are the executable channel and node, proved to do exactly
that; `src/exchange.rs` drives two nodes through the handshake; `src/laws.rs` proves what holds
of a teleport as a whole. `src/outside.rs` holds the calls into the `bitcoin` crate, whose
contracts are trusted.

Messages that are lost with a connection are not sent again.
