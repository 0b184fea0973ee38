pub mod elasticsearch;
pub mod in_memory;
