# planner

The core of a trip-planning web service, verified with Verus.

- `src/` holds the service's decisions with their contracts: the settings
  (`config`), the error replies (`error`), dates and times (`datetime`), ids
  (`ids`), the field rules of requests (`validation`), the e-mails it writes
  (`mail`), and one module per endpoint under `routes/`. Each endpoint is a
  small state machine: it asks for a database lookup, a write, a transaction
  step or an e-mail, and is told the outcome, until it answers. What a
  repeated request does (confirming a trip or a participant twice, sending
  the same change of a trip twice) is proved over a model of the stored rows
  in the modules of those endpoints.
- `app/` is the HTTP server: it reads the environment, connects to PostgreSQL,
  routes requests to the endpoints, carries out what they ask, and sends the
  queued e-mails.
- `tests/` exercises the library on concrete values.
