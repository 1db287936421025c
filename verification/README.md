# descentinel

A game-room monitor for the Descent board game: a camera feeds images into
RabbitMQ queues, services recognize the overlord card on the table, and a
dashboard shows that card's texts in German.

- `src/` is the verified library (Verus):
  - `cards`: overlord cards, their translations, the card-type names of the
    catalogue, and the catalogue as a keyword table;
  - `table`: a table from text keys to values with distinct keys;
  - `raster`: images as RGBA and grey pixel buffers, decoding and PNG encoding;
  - `detect_card`: QR-code based card identification and the messages the
    card detection service sends on;
  - `identify_game_scene`: the score threshold of the feature-matching
    detector and the messages that follow a detection;
  - `broadcast`: the latest content of each queue, the answer to a request for
    a queue, and the messages a subscriber of a queue receives;
  - `presentation`: message contents as bytes, text and images, PNG data
    URLs, and the card texts the dashboard shows;
  - `text`, `ipc`: text helpers and the message type.
- `app/` holds the services themselves: queue I/O with lapin, the HTTP server,
  the camera capture, the OpenCV feature matching and the leptos dashboard.
  Run a service with `descentinel <service> [options]`.
- `tests/` exercise the library.
