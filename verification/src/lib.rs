//! Adaptive message rendering and delivery decisions for a chat client.
//!
//! A [`message::MessageCreator`] describes an outgoing message. The renderers
//! in [`render`] turn it into a [`render::Payload`], either plain text or a
//! rich embed, with the glyph that [`emote`] resolves for its mode.
//! [`delivery`], [`pagination`] and [`autodelete`] hold the decisions that a
//! transport loop acts on: which renderer to use, which page to show, when
//! to delete.
//!
//! Around that engine stand the rules of the client that uses it: the
//! notices for commands that could not run ([`notices`]), the automations
//! that watch ordinary messages ([`triggers`]), the first-run set-up
//! ([`wizard`]), the command reference ([`docs`]) and the account record
//! ([`user`]).

pub mod autodelete;
pub mod delivery;
pub mod docs;
pub mod emote;
pub mod message;
pub mod notices;
pub mod number;
pub mod pagination;
pub mod render;
pub mod text;
pub mod triggers;
pub mod user;
pub mod wizard;
