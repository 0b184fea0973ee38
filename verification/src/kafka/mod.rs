pub mod category_consumer;
pub mod category_handler;
pub mod cdc;
pub mod consumer;
pub mod retry;
