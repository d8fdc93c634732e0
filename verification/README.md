# connector_webhooks

Registration of webhooks at payment connectors, verified with Verus.

* `src/` is the library. The two flows (`registration`, `fetch`) are state machines without I/O:
  each step takes the outcome of the last action and says what to do next. `laws` states what holds
  of whole runs. `json` holds all that is relied on about `serde_json`; everything else is proved.
* `app/` performs the actions: it asks the store and the connector, and reads and writes the JSON of
  the API.
* `tests/` runs the library on concrete requests.
