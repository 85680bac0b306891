# satoshi_settlers

The logic of a small Bevy game in which a player picks a name, walks a world
laid out on the Ulam spiral, follows the Bitcoin block height reported by a
game server, and pays Lightning invoices shown as QR codes.

- `src/` is the library, verified with Verus: name cleaning and name entry,
  the on-screen keyboard and its layout, polling counters, server request
  addresses and what the server's replies change, reading the found item
  from the JSON reply, block message validation,
  block labels on the spiral, the player's walk animation, and the invoice
  QR picture.
- `tests/` runs the library on concrete inputs.
- `app/` is the Bevy program that wires the scenes together and calls the
  library for every decision; it does the drawing, the input events, the
  HTTP requests and the decoding of the block and invoice messages.
