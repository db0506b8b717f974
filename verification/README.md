# matter_influx

A Matter controller that logs sensor values to InfluxDB and serves a small dashboard of the
current values.

- `src/` is the library, verified with Verus: which attributes are read and subscribed to
  (`matter`), the measurement units (`unit`), how their values are interpreted (`ClusterValueDetails::for_attribute_value`),
  the map of values read once (`attribute_values`), the InfluxDB points built from them
  (`influxdb`), the number and white-space formatting they need (`text`), the configuration's
  defaults and the InfluxDB client (`config`), and the decisions behind the dashboard's pages
  and errors (`controllers`, `errors`).
- `app/` is the program around it: configuration loading, the Matter controller, the
  subscriptions and InfluxDB writes, the web server and its templates, and the float
  arithmetic and formatting of values.
- `tests/` runs the library on concrete values.
