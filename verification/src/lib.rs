//! Core engine of an interactive table browser for cloud compute instances:
//! the column model, the table state with selection preservation, the
//! standard / search / filter interaction modes, and the refresh merge logic.

pub mod columns;
pub mod console;
pub mod entity;
pub mod filter;
pub mod provider;
pub mod search;
pub mod session;
pub mod sort;
pub mod status;
pub mod table;
pub mod text;
