# xurl

A curl-like client for the X API v2: raw requests, shortcut commands,
OAuth1, OAuth2 PKCE and bearer authentication over a multi-app token store,
chunked media upload, streaming and a webhook listener.

- `src/` is the library, verified with Verus: URL construction and
  percent-encoding, the endpoint auth matrix and auth-scheme selection, the
  token store and its laws, OAuth1 signing, the OAuth2 flows' decisions, the
  callback listener's request handling, request planning and response
  handling, media upload
  planning, the shortcut requests, JSON highlighting and the picker.
  Hashing, base64, randomness, URL parsing and JSON parsing are called
  through small trusted wrappers in `crypto.rs`, `weburl.rs`, `text.rs`,
  `media.rs` and `transport.rs`.
- `tests/` exercises the library on concrete values.
- `app/` is the command-line program around it: argument handling, HTTP
  over `reqwest`, the token store's YAML file, the browser and callback
  listener, the pending-state file and terminal output.
