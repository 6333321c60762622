//! Durable supervision of long scientific runs: probing, ledger, submission,
//! delivery and the read models of the console, each stated by contract.
pub mod autostart;
pub mod codex;
pub mod command;
pub mod config;
pub mod console;
pub mod dispatch;
pub mod encoding;
pub mod ipc;
pub mod live;
pub mod local_process;
pub mod operations;
pub mod paths;
pub mod polling;
pub mod probe;
pub mod seqs;
pub mod store;
pub mod submission;
pub mod supervisor;
pub mod text;
pub mod time;
pub mod types;
