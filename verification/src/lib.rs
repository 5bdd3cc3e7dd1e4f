//! A small x86 kernel's data structures and rules: the text screen and
//! terminal, the heap allocators, descriptor-table encodings, interrupt and
//! PCI bookkeeping, device drivers' register plans and the thread scheduler.
pub mod vga;
pub mod terminal;
pub mod bump_pointer;
pub mod allocator;
pub mod gdt;
pub mod idt;
pub mod idt_pointer;
pub mod cpu;
pub mod keyboard;
pub mod thread;
pub mod panic;
pub mod pci;
pub mod pci_probe;
pub mod rtl8139;
pub mod rtl8139_basic;
pub mod driver;
pub mod context;
pub mod scheduler;
pub mod context_scheduler;
pub mod stack;
pub mod tcb_scheduler;
pub mod console;
pub mod text_screen;
pub mod log;
