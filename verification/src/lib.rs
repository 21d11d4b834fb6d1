pub mod text;
pub mod breakpoint;
pub mod error;
pub mod retry;
pub mod chars;
pub mod http;
pub mod network;
pub mod address;
pub mod rpc;
pub mod spec_decoder;
pub mod paint;
pub mod render;
pub mod report;
pub mod bridge;
pub mod trace;
pub mod output;
pub mod cli;
pub mod decode;
pub mod contract_xdr;
