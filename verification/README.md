# unc_jsonrpc

The request handling of a node's JSON RPC server, verified with Verus.

The library in `src/` decides; the program in `app/` acts. For every request the library says
what to do next (send a message to the node, sleep, serialise a response), and turns what comes
back into the next step, until the request is answered.

- `config` is the configuration, `server` the plan of the servers, `cors` their policy for
  other sites, `http` what they answer.
- `dispatch` finds the method of a request among those of `methods`, and `requests` handles it.
- `transactions` is the conversation about a transaction: handing it over, looking for it,
  waiting for its status.
- `query` turns the answer of the node to a query into the answer to the request.
- `debug` and `pages` are the debug endpoints and pages.
- `transaction_laws` and `request_laws` state what holds of every conversation and of every
  request, whatever the node replies.
- `json`, `cors`, `config` and `http` hold what is relied on of `serde_json`, `actix_cors`,
  `actix_web` and the standard library.

`app/` runs the actix servers, watches the time limits, reads parameters and pages, and writes
responses and metrics.
