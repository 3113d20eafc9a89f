# oc_user

Client core of the compute user module, verified with Verus.

- `src/` — the verified library: the messages sent to the verifier service
  (`protocol`), task numbering (`user`), result collection and decoding
  (`tasks`, `json`, `text`, `output`), the keep-alive schedule (`keep_alive`)
  and the websocket route table and connection-loop decisions (`ws_client`).
- `tests/` — tests of the library on concrete values.
- `app/` — the Python module, worker threads, websocket transport and JSON
  forms around the library.
