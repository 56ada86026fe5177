# lace

Verified pieces of `lace`, a small kernel for the Raspberry Pi 4 (BCM2711), and of
the typed register-access layer it is written against.

- `src/` is the library, checked by Verus:
  - `sys_timer`: the torn-read-safe read of the 64-bit system timer (`CounterRead`),
    instants on that counter, and busy-wait delays;
  - `gpio`: switching pins 14 and 15 to the console UART in `GPFSEL1`;
  - `boot`: the values the entry code writes to system registers, and the spin-table
    protocol by which secondary cores are released (`SpinTable`);
  - `regs`: registers, access kinds, accessors, aliased registers, and an example
    peripheral reached by address or through a delegate (`peri`).
- `app/` is the kernel itself: the naked entry code, the volatile register accesses,
  the UART driver calls and the panic handler. It hands the library the values it
  reads and acts on what the library decides.
- `tests/` runs the library on concrete values.
