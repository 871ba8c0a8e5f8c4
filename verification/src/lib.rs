//! A verified core for a chat weather bot: unit conversions, great-circle
//! distance, random city selection, completion extraction, and the exact
//! reply text of every command, with the surrounding I/O kept outside.

pub mod numfmt;
pub mod units;
pub mod weather;
pub mod render;
pub mod chatbot;
pub mod cities;
pub mod geo;
pub mod localtime;
pub mod dispatch;
