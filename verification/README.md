# pylontech_mqtt_adapter

An adapter between a Pylontech battery stack, reached through a TCP bridge to
its RS485 port, and an MQTT broker with Home Assistant discovery.

The library under `src/` is written in Verus and verified:

- `protocol`: request frames, the length id and checksum, decoding of
  response frames, collecting frames from the byte stream, error texts.
  `lemma_command_frame_roundtrip` shows that decoding an encoded frame gives
  back its address, command and info.
- `hexcodec`: the hexadecimal layer, done by the `hex` crate.
- `payload`: the info payloads (serial number, manufacturer info, analog
  values, system parameters, management info).
- `model`: module and stack figures in the protocol's integer units.
- `stats`: counters, deltas and the liveness line.
- `config`: argument validation and the derived configuration.
- `backoff`, `session`: reconnect delays and the polling schedule.
- `discovery`: topics and the discovery announcements.
- `text`, `error`: string building and the library's errors.

`app/` holds the program: the command line (clap), the TCP link, the MQTT
client (rumqttc), JSON (serde_json), and the conversion of integer readings to
volts, amperes and degrees.
