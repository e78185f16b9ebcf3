//! Hardware access layer for a single-board computer: the bit-field layout of
//! the GPIO registers, the VideoCore mailbox call protocol, address
//! conversions and the mini UART's line rules, each as verified logic over
//! plain values. Reading and writing the memory-mapped registers themselves is
//! left to the caller.
pub mod addr;
pub mod gpio;
pub mod mailboxes;
pub mod mini_uart;
