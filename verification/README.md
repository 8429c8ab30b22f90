# gecko

Core of a GameCube / Wii emulator, written in Verus. Every function in
`src/` carries a contract; the verifier proves all of them except those of
the few wrappers around outside crates (base64, colored, the Fx hash maps),
whose contracts are trusted and say in their doc comments what they claim.

- `mmu`, `console`, `hw/`: physical memory, address translation, and the
  memory-mapped devices (AI, CP, EXI, MI, PI, SI, VI, GX FIFO).
- `cpu/`: the Gekko CPU state, its system registers, instruction fields and
  the interpreter paths (integer, branch, compare, load/store, string,
  system operations, and the floating-point forms that only move bits),
  the processor step with its external and decrementer interrupts, and
  runs of steps up to a stop condition.
- `loader`: copying an executable's sections into memory and clearing its
  BSS.
- `dsp/`: the audio DSP registers, accumulators and instruction semantics.
- `wiimote`, `ipc`, `input`: the Bluetooth Wii Remote model and IPC replies.
- `idle`: detection of idle loops.
- `iso`: disc images: the header, the apploader header and the file system.
- `jiterpreter`: the cache of hot instruction blocks, bounded, oldest out
  first, run on the fast interpreter path.
- `cpu/jiterp`: the block-at-a-time interpreter: blocks decoded once
  (short forward branches followed), kept by address, and run in chains.
- `wasmjit/`: the WebAssembly block compiler: block discovery, the
  classification of blocks and traces, the runtime book-keeping, and the
  byte-exact lowering of PowerPC instructions to a wasm module.
- `tracefmt`, `kitty`, `debugger`: text and image output helpers.

`tests/` holds the tests, `app/` a small command-line runner, which also
runs the floating-point instructions the library hands back to it.
