# FediTexter

The core of a federated chat client, verified with Verus, and the programs around it.

`src/` is the library. Every function in it carries a contract that Verus proves.

- `text`, `number`, `assoc`, `ids`, `ordered`: strings as sequences of characters, numbers in decimal and
  hexadecimal, maps and ordered lists.
- `json`, `data_url`, `cache`, `totp`, `time`, `img`, `video`, `preview`: the rules of the client
  around calls into outside crates. Each such call stands behind a small trusted function whose
  contract says what is believed of the crate.
- `server`, `links`, `identity`, `mime`, `size`, `colour`: addresses, names, file types, sizes.
- `frames`: the texts that go over the socket and over connections.
- `p2p`, `transfer`: who holds which file, and the two ends of a transfer. A file that arrives is the
  file that was sent (`transfer::file_arrives_whole`).
- `voice`, `sound`, `yuv`, `planes`, `codec`, `media`: voice channels, sound, pictures, playback.
- `preview_job`: looking up a link, one request at a time.
- `chat`: the chat client as a state machine (`chat::update`), what it asks for (`chat::action`), the
  requests and their answers, the socket, and what its window shows (`chat::view`). What holds
  whatever comes in stands in `chat::laws`.
- `desktop`: the desktop client: its state, events, window, requests, settings and socket.
- `bot`: the bot.

`app/` holds the programs: the window, the network, the disk, and what is computed in floating point.
`tests/` runs the library with the real outside crates.
