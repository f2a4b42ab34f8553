# phase

The devices of a PlayStation emulator core, written in Verus: each device is
a state machine whose registers, commands and data paths carry contracts
over a mathematical view of its state, proved by Verus.

- `src/gte.rs`: the geometry transformation engine (coprocessor 2).
- `src/gpu/`: GP0/GP1 command decoding, video timing, and the software
  renderer (`renderer/`: rasterisation of triangles, lines and rectangles,
  VRAM transfers, frame output, and the command state machine).
- `src/mdec/`: the motion decoder (run-length and IDCT decoding, colour
  conversion, DMA ordering).
- `src/spu/`: sound RAM, registers, ADPCM decoding, ADSR envelopes, volume
  sweeps and reverb.
- `src/cdrom/`: cue sheets, the layout of a disc's tracks (`disc.rs`:
  where each track's image lies, and which track holds a position), the
  CD-ROM controller with its drive commands (reading sectors from the track
  images held in memory), and the mixing and resampling of CD audio.
- `src/peripheral/`: controllers, memory cards and their serial port.
- `src/mem/`, `src/timer.rs`, `src/interrupt.rs`, `src/cpu/`: RAM, BIOS,
  DMA, the memory map, timers, interrupt control and coprocessor 0.
- `app/main.rs`: a command-line front end that reads the BIOS, the disc's
  images (a raw image, or a cue sheet and its tracks) and memory card files, and runs the renderer on a thread of its own.

`tests/` exercises the library on concrete values.
