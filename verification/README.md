# nRF24L01+ commands

SPI byte sequences for the commands of the nRF24L01+ 2.4 GHz transceiver and
bitfields for its registers, written in Verus.

- `src/bitfield.rs`: the arithmetic model of a register field
  (`field`, `with_field`, `le_byte`, `le_value`), the laws of that model
  (a field reads back what was written to it, a write leaves every other field
  unchanged, a second write overrides the first, writing back a field's own
  value changes nothing, little-endian bytes give back the value they cover),
  and the verified shift-and-mask helpers that implement it.
- `src/fields.rs`: enums of register fields, with their field values.
- `src/registers.rs`: one type per register. Every getter and writer is
  specified through the model above; every register builds the SPI bytes that
  read and write it.
- `src/lib.rs`: command words and the byte sequences of the commands that
  take no data.

`tests/` holds tests of every register, the documented examples and tests of the
laws on concrete values.
