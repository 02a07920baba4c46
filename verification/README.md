# connected_home

The services of a small connected-home system: an API gateway, a user
service, an MQTT consumer that turns current measurements into metrics, and
an energy monitor that publishes them.

- `src/` is the library, verified with Verus: signed tokens and what they
  are worth at a given time, password hashing and checking, request routing
  and the responses the gateway and the user service give, configuration
  handling, MQTT subscriptions, and the steps a service takes to shut its
  tasks down. Calls into `jwt`, `hmac`, `chrono`, `rust-argon2`, `rand`,
  `serde_json` and `url` stand behind a few trusted functions whose
  contracts say what the library relies on.
- `app/` is the executable: `connected_home <api-gateway|consumer|producer>
  --config <file.toml>`. It reads the configuration, runs the tasks on
  Tokio, talks to the MQTT broker and serves metrics over HTTP, and carries
  out what the library decides.
- `tests/` runs the library on concrete values.
