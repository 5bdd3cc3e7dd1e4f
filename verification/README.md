# rustos

The data structures and rules of a small x86 kernel, written in Verus and
verified: what each function returns or changes is stated in its contract
and proved.

The library (`src/`) covers the VGA text screen and the terminals drawn on
it, the kernel heaps, the descriptor-table encodings, the interrupt
controllers and interrupt lines, the keyboard's key map, PCI configuration
addresses, header parsing and the bus scan, the RTL8139 driver's register
plans, saved thread contexts and the schedulers' queues.

What only the machine can do (port instructions, stores to screen memory,
loading descriptor tables, switching stacks) is in `app/`, the kernel
program, which performs what the library decides: functions that touch
hardware return the port operations or memory stores to perform, and take
the values read back as arguments.

Laws that span functions are public proof functions next to the functions
they speak of (`lemma_*`). The tests in `tests/` run the library on
concrete values.
