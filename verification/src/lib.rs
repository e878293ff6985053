//! `dank-pinentry`: the protocol layer and decision logic of a pinentry with
//! a terminal frontend and a DankMaterialShell plugin frontend.
pub mod askpass;
pub mod assuan;
pub mod backend;
pub mod cli;
pub mod config;
pub mod owner;
pub mod secret;
pub mod text;
