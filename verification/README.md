# middle_mqtt

The verified core of a gateway that takes server health reports from an MQTT
broker, classifies them against thresholds, runs an alert state machine over
them, and relays the results to WebSocket dashboards.

- `src/` — the library, verified with Verus:
  - `mqtt::topics` — topic names and recognition of health topics (the
    per-server `{prefix}/simulator/health/{id}` topics and the shared
    `{prefix}/simulator/health_data` topic, whose reports name their server
    and are relayed to dashboards after the fixed-limit validation of
    `validation::apply_health_validation`);
    `mqtt::publisher` — where each command is published;
    `mqtt::consumer` — what one health report does to a server's state.
  - `validation` — status classification from threshold checks.
  - `alerts::engine` — the alert state machine and its laws;
    `alerts::buffer` — the bounded buffer of recent alerts;
    `alerts::dispatcher` — the events a decision produces;
    `alerts::repository` — stored rows back into alerts.
  - `state` — the offline sweep and server rows.
  - `infrastructure::config` — settings with their defaults.
  - `websocket::dto` — command validation and dashboard updates.
  - `text` — decimal text of integers, read and written.
  - `system` — the clock, random ids, and the date and UUID readers.
- `app/` — the program around it: environment, database, MQTT client,
  HTTP and WebSocket server, JSON forms, and the `f32` threshold
  comparisons, whose results it hands to the library as flags.
- `tests/` — tests of the library on concrete values.

Readings (`f32`/`f64`) are carried through the library as their bit patterns;
every comparison on them is made in `app/`.
