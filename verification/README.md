# fenix

A small operating system kernel for the AM335x (BeagleBone Black class
boards), written as a verified library: the scheduler, the system-call
interface, the memory management (translation tables, page pool, task heaps),
the GPIO, timer, interrupt-controller and I2C drivers are functions over a
model of the board's register space (`sys::RegisterFile`) and of the MMU
(`internals::mmu::Mmu`), each with a contract proved by Verus.

Layout:

- `src/sys.rs`, `src/utils.rs`: the register space and bit access.
- `src/shared/`: what the kernel and the tasks share: system-call encoding,
  GPIO banks, I2C outcomes, interrupt masking, the bump allocator.
- `src/kernel/`: the kernel: system-call handling, the round-robin scheduler
  with per-task code and data pages, the millisecond clock, GPIO, I2C and pad
  configuration.
- `src/libfenix/`: the task side of the system calls.
- `src/internals/`, `src/boards/`, `src/peripherals/`, `src/interfaces/`,
  `src/tasks/`, `src/interrupts.rs`, `src/clock.rs`: the board layer, the MMU
  set-up, timers and the priority scheduler.
- `src/laws.rs` and the `law_*` proofs beside the code: properties that span
  functions (request encoding round trips, allocation bounds, frame ownership,
  round-robin scheduling, register bit access).
- `app/`: a host program that boots a simulated board and runs the kernel on
  it, with the I2C driver behind the `embedded-hal` interface.
