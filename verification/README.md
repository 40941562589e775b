# nag52

The logic of the Ultimate-NAG52 transmission controller and of its host
tools, written in Verus: every function in `src/` carries a contract that
the verifier proves.

- `src/` – the verified library: lookup tables and interpolation, the
  TLE8242 solenoid driver's SPI messages and the solenoid/TCC control
  built on them, sensor conversions, the KWP2000 diagnostic server and
  the bootloader's start-up decision, ISO-TP and USB framing, EEPROM and
  board-information layouts, the RAM test, the flashing protocol of the
  host tool, the reading of firmware images, and the reader of the text
  CAN database.
- `tests/` – tests that run the compiled library, with the outside crates
  linked.
- `app/` – the host flashing tool: argument handling, the serial and
  ISO-TP transports, terminal output and log decoding around the library.

Calls into outside crates (`automotive_diag`, `crc32fast`, `object`,
`defmt-decoder`, `postcard`, `lz4_flex`, `convert_case`, `konst`) go
through small trusted wrappers whose contracts are stated next to them.
