# envtrackernode

A home-automation server for a few IoT devices: it polls Kasa power strips
and stores their readings, serves a dashboard, and answers Google Home
(SYNC, QUERY, EXECUTE) for a dLight lamp and a Wemo plug, with OAuth2
account linking.

The decisions the server makes are in `src/`, verified with Verus:

- `config` — the configuration and what start-up does with it;
- `editor` — the configuration editor of `--edit-config`: what its buttons
  do to the node and frontend settings;
- `json` — the JSON model the Google Home logic works on;
- `fulfillment`, `endpoint`, `report_state`, `devices` — Google Home
  requests and responses, the fulfillment endpoint's steps, and device
  behaviour;
- `auth` — account linking: link, callback and token endpoints, the
  checks of a session's ID token, and the login page;
- `db`, `kasa`, `poller` — SQL statements, node routes and polling;
- `frontend` — rewriting the links of the dashboard's pages;
- `site` — the dashboard's panes;
- `console` — which file the console's file server answers with;
- `uri` — URLs, handled by the `url` crate;
- `strings` — text helpers shared by the above.

`app/` is the program around the library: command line, configuration
file, HTTP server, database, device I/O and the calls to Google.
