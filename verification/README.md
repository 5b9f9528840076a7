# cpuex2_simulator

A cycle-level simulator of the CPUEX group 2 computer, with its behaviour stated in
contracts and proved.

- `src/` is the verified library:
  - `cpu_core.rs`: the machine (memories, cache, registers, the six pipeline stages IF,
    IF2, ID, EX, MEM and WB, forwarding, input and output) and `Core::step`, one cycle,
    stated exactly by the spec function `step_result`; the laws of the memory system
    (`lemma_load_reads_visible_memory`, `lemma_store_writes_visible_memory`, over whole
    sequences of accesses `lemma_accesses_act_as_flat_memory`, also stated
    by `Core::load_word` and `Core::store_word`) and of register 0, which apply to every
    machine through `Core::lemma_state_wf`; the disassembler.
  - `instruction.rs`: every instruction of the machine and its stages.
  - `decoder.rs`, `sign_extension.rs`, `utils.rs`: instruction formats and bit helpers.
  - `cache.rs`, `memory.rs`, `instruction_memory.rs`, `register.rs`: the storage parts;
    the cache is a two-way set-associative LRU cache of 64-byte lines.
  - `fpu.rs`, `fpu_order.rs`: the floating-point adder, negation and order of the FPU.
  - `fpu_tester.rs`: comparison of the FPU with result files of the real machine.
  - `statistics.rs`: fetch counts by address and instruction counts by name.
- `app/main.rs` is the command line program: argument parsing, files, printing.
- `tests/` exercises the library.

Run the program with `--bin <file>` (default `main.bin`), `--sld <file>`, `--verbose 1|2`,
`--test-fpu <operation|all>` and `--disassemble`.

The decoder splits words by the standard RISC-V opcodes, while the instruction tables
accept the machine's own opcode numbers; so a word that decodes to a format is reported as
an instruction the machine does not have. The tests drive the stages directly.
