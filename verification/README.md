# si470x

Driver logic for the Silicon Labs Si470x family of FM radio receivers,
verified with Verus.

- `src/bitfield.rs`: fields packed most-significant-bit first into 16-bit
  register words, with the laws of reading and writing them.
- `src/registers.rs`: the register file in the order the device reads it out
  (0Ah..0Fh, then 00h..09h) and the field layout of each register.
- `src/driver.rs`: for each driver operation, which registers it reads, how it
  changes them, and which bytes go back to the device.
- `src/reset.rs`: the pin sequence that puts the chip into I²C mode.
- `app/`: the driver on `embedded-hal` (blocking) and `embedded-hal-async`
  buses, which performs the transfers, pin changes and delays.
