//! Verified core of the MASQ command-line and automap tools: command-argument
//! validation, the router-probing state machines of automap, and the data of
//! the stream-handler messages.

pub mod automap;
pub mod decimal;
pub mod net;
pub mod set_configuration;
pub mod stream_handler_pool;
pub mod timer;
pub mod utils;
