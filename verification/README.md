# realtime-rs

A websocket client for Supabase Realtime whose decisions are verified with
Verus.

- `src/` is the library. It holds the messages and their filters, the state
  machines of a channel, of its presence and of a client, the request that opens
  the socket and the rules of reconnecting. It performs no I/O: it takes in what
  happened and says what is to be done.
- `app/` performs what the library decides, with tokio and tungstenite: the
  socket, the tasks of client and channels, the timers, and the JSON form of the
  messages.
- `tests/` runs the library.

Callbacks, interceptors and middleware are type parameters of the library. A
channel answers a message from the server with the places of the callbacks that
are to be called; whoever holds the channel calls them.

## Modules

| module | what it holds |
| --- | --- |
| `message` | messages, payloads, presence data, filters |
| `realtime_channel` | a channel, its builder, and what it answers |
| `realtime_presence` | who is present, and which callbacks hear of a change |
| `realtime_client` | a client, its builder, delivery and reconnecting |
| `sync` | the client with middleware, and its channels |
| `request` | the request that opens the socket |
| `string_map` | an ordered map from text, with a deep copy |
| `places` | which places of a list are chosen |
| `duration`, `constants` | small plain types |
| `headers`, `uri`, `json`, `identifier` | what is used of `http`, `tungstenite`, `serde_json` and `uuid` |
