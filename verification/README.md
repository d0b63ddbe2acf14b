# dynheat

A weather-compensated heating controller. The library (`src/`, verified with
Verus) holds the controller's decisions; the service (`app/`) runs the sensors,
the outputs, the control law and the HTTP interface around it.

- `snapshot`: the combined sensor snapshot and how readings are merged.
- `payload`: how an MQTT sensor message is read once decoded.
- `sensors`, `outputs`: device settings, sensor errors, file readings, relay addresses.
- `broker`: broker URLs to connection endpoints (through the `url` crate).
- `config`: settings, their defaults, run-time updates and the control interval.
- `controller`: setup errors, one evaluation round, and the published status.

Measurements travel through the library as the bit patterns of
single-precision numbers; the service converts them at its edges.
