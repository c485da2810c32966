# daedalus

The verified core of DaedalusOS, a small bare-metal kernel for the
Raspberry Pi 4, and of its development server.

- `src/` is the library, written in Verus. Its functions carry
  contracts that Verus proves, covering packet formats (Ethernet, ARP), the socket
  layer and its binding table, the packet router and protocol registry,
  buffer pools and queues, the register-level decisions of the drivers
  (GIC, GPIO, PL011 UART, system timer, VideoCore mailbox, GENET
  Ethernet), page tables, exception decoding, the shell's parsing and
  line editing, and text formatting. Drivers do not touch hardware
  themselves: they return the register accesses to perform
  (`drivers::mmio::RegOp`) or take the values read as arguments, and
  multi-step hardware interactions are state machines fed by the caller.
  Laws that span several calls are public proof functions (named
  `lemma_*`) next to the functions they are about. The only unproved
  items are three small wrappers around the standard library's clock
  (`SystemTime::now`, `duration_since`, `Duration::as_secs`) in
  `src/dev_server.rs`, whose contracts Verus takes as given; they
  promise nothing about the values returned.
- `tests/` exercises the library on concrete values.
- `app/` is ordinary Rust: the development server (`app/main.rs`) and the
  kernel glue (`app/kernel/`) that performs register accesses, system
  register and cache instructions, printing, global state and the
  exception entry points around the library.
