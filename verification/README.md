# conrod_chat

Chat client building blocks for the conrod GUI toolkit: a widget that shows one
history entry, a chat view with an edit box and an Enter button, and a
websocket client that feeds received texts to the GUI.

- `src/` is the verified library: the message type, the widgets' cached
  state, and the decisions the widgets and the client take (the caption of an
  entry, the font of its text, what the edit box holds after a frame and what
  Enter submits, which server messages reach the GUI, and what the GUI and the
  caller are told when a session ends), each with a contract that pins its
  result. The handshake builder's contract speaks of the address it targets
  and the subprotocols it offers, a record kept in `backend/websocket/builder.rs`
  that only the two calls into the websocket crate there write; the URL parser
  itself is named, not written out. The `ProcessSender` trait, for users to
  implement, is declared without a contract.
- `app/` draws the widgets with conrod (their layout is floating point) and
  runs the websocket loops, calling the library for every decision and
  handing its texts to the GUI's channel or to a `ProcessSender`.
- `tests/` runs the library on concrete values.
