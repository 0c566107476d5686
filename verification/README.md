# stromer2mqtt

A service that polls a Stromer e-bike through the Stromer cloud API and
publishes the bike's data to an MQTT broker, with optional Home Assistant
discovery.

## Layout

- `src/` is the library, verified with Verus:
  - `text` – string helpers (decimal rendering, searching, splitting);
  - `changes` – `TrackedField`, a value that remembers whether it changed
    since it was last published;
  - `mqtt` – messages, broker settings, the availability topic and what an
    incoming event asks for;
  - `stromerapi` – the API's data, the requests of the login flow and of each
    call, the checks on the replies and the retry policy of an update;
  - `bike` – the bike's sensors and the messages that a poll publishes;
  - `hassdiscovery` – the discovery messages for Home Assistant;
  - `bridge` – the service's state between polls and the reading of commands.
- `app/` is the program around it: command line, HTTP client, MQTT client,
  JSON and the polling loop.
- `tests/` runs the library on concrete values.
