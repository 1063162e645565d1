//! Structures that the processor reads from memory.

pub mod page;
pub mod page_table;
