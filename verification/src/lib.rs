pub mod app;
pub mod board;
pub mod column;
pub mod ids;
pub mod input;
pub mod storage;
pub mod task;
pub mod text;
pub mod time;
