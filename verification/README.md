# atpolis

A Polis-style deliberation service on the AT Protocol: users create polls,
make statements on them and vote agree / disagree / pass; a firehose
consumer collects posts that use watched hashtags.

- `src/` is the verified library: the records and their stored
  rows, vote words, the watched-tag list, hashtag selection and the
  mention index, the firehose consumer's decisions, the OAuth callback
  flow, and the answers the HTTP handlers give.
- `app/` is the program around it: the axum server, the sea-orm/SQLite
  store, the Jetstream websocket, and the OAuth client.
- `tests/` exercises the library on concrete values.
