//! A chat bot's message-handling core: channel filters and cooldowns,
//! message triggers, the handler kinds, and the dispatcher that runs an
//! ordered chain of handlers over one inbound message.
pub mod ack_message_handler;
pub mod autoresponder;
pub mod command;
pub mod config;
pub mod counter;
pub mod dispatch;
pub mod emoji;
pub mod filter;
pub mod handler;
pub mod message;
pub mod pattern;
pub mod role_wizard;
pub mod text;
pub mod trigger;
pub mod verbal_morality;
pub mod word_watcher;
