# dk

Board support logic for the nRF52840 Development Kit, and a line chat client, verified with
Verus.

`src/` is the library. It computes, on plain values and on the packet buffer of the radio
driver, and does no input or output:

- `board`: what the board is made of, and how it comes up
- `led`: the LEDs and the pins that drive them
- `timer`: long waits, split into delays that the 32-bit hardware timer can run
- `clock`: the time since initialisation, from a counter that is read in parts
- `time`: spans of time
- `radio`: an exchange of packets with retries, one state after the other
- `packet`: the frame buffer of the radio driver
- `client`: what the chat client does about each line it reads and each write it makes

The laws that hold across functions are the public proof functions whose names begin with
`law_`.

`app/` drives the hardware and the network with it: it reads registers, pins and lines, hands
them to the library, and carries out what it gets back. `tests/` runs the library on the host,
with the real packet type of the radio driver.
