# nimbra_edge

The decisions behind two commands of the Nimbra Edge command line, verified with
Verus: `operator status`, which shows the state of the NimbraEdge resource, and
`register`, which registers an edge-os appliance.

- `src/` is the verified library. `operator` renders the status; `table` lays out
  its table of components. `register` is a state machine that takes a registration
  from one event to the next action; `appliance` reads the appliance's replies,
  `credentials` decides who logs in, `error` and `failure` say what went wrong.
  `operator_laws` and `color_laws` prove what holds of every output,
  `register_laws` what holds of every sequence of events, and
  `register_option_laws` what each flag changes. `text`, `lines` and `escape` are
  about text: its characters, its lines, and its color escapes.
- `app/` is the program around it: arguments, terminal, HTTP and `kubectl`.
- `tests/` runs the library.
