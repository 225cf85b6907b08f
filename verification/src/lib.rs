//! The verified core of cudatrace, a tracer for CUDA programs: the formatting of trace
//! lines and JSON, the per-thread call stack that decides which lines are written, the
//! UVM ioctl decoder, the symbol tables of the hooks, the tracefs control plans and the
//! settings.

pub mod config;
pub mod text;
pub mod json;
pub mod uvm_fields;
pub mod uvm_table;
pub mod uvm;
pub mod line_meta;
pub mod graph;
pub mod nvidia;
pub mod fd_map;
pub mod logger;
pub mod reentry;
pub mod scope;
pub mod symbols;
pub mod fgraph;
