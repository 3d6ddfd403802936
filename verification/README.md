# tibia_server

Verified protocol logic of a game server for the Tibia 1.03 client.

- `src/` is the library, verified with Verus: the packet field codec (`io`),
  the packet identifiers (`network::packet`), chat encoding (`chat`), the world
  map and its loading from the map file (`map`), the per-connection state with
  the packet builders, the handling of incoming packets and the login parsing
  (`network::connection`), the registry of logged-in players (`world`), the
  settings (`config`) and the object table of the client file (`dat`).
- `app/` is the server program around it: reading `server.toml` and the JSON
  map file, the TCP listener, one task per connection and the world task.
  `app --extract-dat` prints the object table of `MUDOBJ.CLI`.
- `tests/` runs the library on concrete packets and maps.
