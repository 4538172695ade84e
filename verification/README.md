# genesoxide

A Sega Genesis / Mega Drive emulator core whose behaviour is stated in contracts
and proved by Verus.

`src/` is the core: the 68000, the VDP, the YM2612 and the PSG, controllers, the
memory maps of both CPUs, the scheduler, the audio timeline, ROM headers, save
states, rewinding and configuration. Each device has a mathematical model; each
method says how it moves the model. What holds across methods stands in the
`laws` modules, and in three more places:

- `cpu/simulation`: instructions depend on the bus through its four operations
  only, so they keep every relation that those respect;
- `api/keeps`: what the machine leaves alone, such as the ROM and the held
  buttons;
- `api/replay`: save states and rewinding resume the machine exactly.

`app/` is what runs around the core: the analog output stage in floating point,
the loop that lets a Z80 engine run, save states as documents, and the
configuration file.

`tests/` runs the compiled core.
