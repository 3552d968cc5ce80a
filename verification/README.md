# son-of-anton

Home automation helpers: Zigbee light scenes played over MQTT, Oslo transit
departures and journeys from Entur, weather by place name, and a small web
page to control the lights.

- `src/` is the verified library (Verus). It holds the decisions: device
  names and topics, the JSON sent to lights, each scene as an ordered plan,
  the state machine that plays a plan and stops at the first refused
  publish, the transit queries and departure filters, the weather URLs and
  the handling of the geocoder's answer, and the web server's rules
  (password check and refusals, the twenty-entry log, tunnel settings).
- `app/` is the program around it: the MQTT client and event loop, HTTP
  requests, the axum server, environment variables and printing. It performs
  the actions the library decides on.
- `tests/` runs the library on concrete inputs.
