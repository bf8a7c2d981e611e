# model

Data types of a dating app server's API and database, verified with Verus.

The library holds the server's model values (account, profile, media, chat,
report and admin types) together with the logic that works on them, each
function with a contract that Verus proves:

- the binary WebSocket protocol of server events (`websocket`,
  `websocket_parser`, `minimal_i64`), with a proof that parsing a created
  message gives the event back;
- login tokens and sessions (`login`), random identifiers and UUID text
  (`backend`);
- like, match and block state of two accounts (`interaction`);
- custom report configuration checks (`custom_reports`), report types
  (`report`), admin notification subscriptions and their bitflags
  (`admin_notification`), push notifications (`push_notifications`);
- search groups, age ranges and last seen filters (`search_group`), client
  features configuration checks (`client_features`), which types may be
  logged (`markers`) and more.

Calls into base64, sha2, regex, uuid, getrandom and chrono are gathered in
`src/outside.rs`, each with the contract that the crate's documentation or
source gives it. getrandom supplies the 128 random bits of the tokens; the
server workspace's own random bytes helper is not a published crate, so the
operating system's generator is read through getrandom directly.

`app/` holds the conversions to std's IP address type and chrono's weekday,
the map settings, whose coordinates are floating point numbers, and the
functions that write loggable values to a std formatter.
