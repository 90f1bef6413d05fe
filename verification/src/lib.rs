//! Cycle-level model of the Intel 8088: execution engine, bus interface unit
//! with its prefetch queue, ModR/M addressing, microcode cycle annotations and
//! the ALU, together with the plain-data logic of the debugger's token views
//! and of the floppy image list.
pub mod cpu_808x;
pub mod floppy_manager;
pub mod pit_viewer;
pub mod syntax_token;
pub mod token_listview;
