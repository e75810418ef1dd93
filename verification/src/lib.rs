pub mod audio;
pub mod fallback;
pub mod hint;
pub mod ids;
pub mod llm;
pub mod models;
pub mod secrets;
pub mod session;
pub mod signing;
pub mod storage;
pub mod text;
pub mod transcript;
pub mod wire;
