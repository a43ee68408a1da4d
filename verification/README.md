# perroute back office

The request, response and error logic of the perroute back office, proved
with Verus.

- `src/` is the verified library:
  - `error`, `api_error`, `validation`: how a failure becomes an HTTP error
    body, and how validation failures are flattened into a field map.
  - `links`, `hypermedia`, `response`, `channel_router`: links between
    resources, the bodies that carry them, and the answers of the handlers.
  - `flows`, `channel_router`, `message_type_router`, `guarded_routes`: each
    request handler as a state machine from the reply of the command or
    query bus to its next query, command or answer.
  - `routing`, `api_routes`, `service_routes`: the route tables, and how the
    links resolve against them.
  - `models`, `datetime`, `id`, `exit`, `wrapper`, `service`: request and
    resource models, identifiers, date checks and exit reports.
- `tests/` runs the library on concrete values.
- `app/` is the server around it: actix registration, JSON bodies, the
  conversion of `validator` failures, and logging.
