# twitch_eventsub

A service that relays Twitch EventSub notifications (bits, chat messages,
follows, raids, subscriptions) to a RabbitMQ exchange.

- `src/` is the verified library (Verus): the subscription types and their
  names, versions, scopes and conditions; the OAuth authorization URL, the
  callback that carries the authorization code, the token and user
  bookkeeping; the handling of websocket messages and the subscription
  requests; the routing of notifications and their log lines.
- `app/` is the program around it: reading `config.toml`, the HTTP, websocket
  and RabbitMQ traffic, and JSON (de)serialisation of the library's types.
- `tests/` exercises the library on concrete values.
