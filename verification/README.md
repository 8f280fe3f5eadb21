# codex_bridge

The logic that lets other programs drive an interactive agent session, verified with Verus:

- `control_socket`, `control_response`, `request_cache`, `connection`: requests of a control
  socket, what they are answered, what they set off, and what is remembered of them
- `supervisor`: the listener generations of that socket, and how it comes back after a failure
- `external_literal`, `thread_input`, `user_message`: messages that come in from outside and are
  submitted as they are
- `external_btw`: side conversations that run hidden beside the main thread
- `session_log`: the records of a session, as an event stream or in the legacy form
- `sparkle`, `stars`: the stars of the untouched composer
- `model_messages`: tool descriptions from a model catalog
- `app_command`, `app_event`, `channel`, `json`, `io_failure`, `text`, `thread_id`: what the rest is
  built from

`app/` holds what surrounds the library: sockets, threads, files, the environment, encodings and
drawing. `tests/` run the library with the crates that it is linked to.
