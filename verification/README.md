# tauri_chat

The core of a desktop instant-messaging client, verified with Verus.

- `src/` is the library. It holds the protobuf wire format of the chat
  protocol (`wire`, `message`, `encode`, `decode`, `codec`), with the proof that
  decoding an encoded packet gives the packet back; the records exchanged
  with the HTTP backend and the local database (`http`, `sqlite`); the
  encryption of the login (`secure`, calling `rsa`, `rand` and `base64`); and
  the decisions of the application shell (`socket`, `commands`, `menu`).
- `app/` is the desktop shell around it: windows, menus and tray, HTTP
  requests, the database, and the socket. It hands the library plain values
  and acts on what comes back.
- `tests/` runs the library, and holds its decoder against `prost` on the
  same inputs.
