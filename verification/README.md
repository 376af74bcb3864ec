# leafcast

The Raspberry Pi client of Leafcast: it photographs a plant every five
minutes, keeps the photos on disk, and answers photo requests that arrive
over a websocket.

- `src/` is the verified library: the settings read from environment
  variables, the camera's state and the names of saved photos, the facts
  sent about the Pi, the systemd install plan, the start-up banner, and the
  handling of websocket messages. Each public function carries its contract,
  and the laws that tie functions together are proof functions beside them.
  The verified functions do not panic. Decoding a photo, whose JPEG decoder
  may panic on malformed input, is done in `app/`, where such a panic is
  caught and counted as a failed decode.
- `app/` is the program around it: reading the environment and the files,
  running the camera command, decoding JPEG and encoding WebP, the websocket
  connection, JSON with serde, and carrying out the systemd plan.
- `tests/` runs the library on concrete values.
