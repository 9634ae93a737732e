//! Running a program on another machine.
//!
//! A client uploads an executable, the server runs it, and the client prints
//! what the program writes to its standard streams. The modules hold the rules
//! of that exchange: which messages there are (`message`), how they are framed
//! on the wire (`frame`), what the server does next (`server`) and what the
//! client does next (`client`).

pub mod client;
pub mod frame;
pub mod message;
pub mod server;
