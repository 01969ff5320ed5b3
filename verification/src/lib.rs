//! Verified command logic of a QQ group bot: reading incoming events,
//! routing them to the first handler that takes them, and what each
//! handler decides and replies — the "plus one" repeater, tic-tac-toe,
//! game-center management and head-count reports, stickers and picture
//! edits, help texts and notices.

pub mod clock;
pub mod config;
pub mod dash;
pub mod emoji;
pub mod gc_name;
pub mod gcm;
pub mod gcqr;
pub mod handler;
pub mod image;
pub mod misc;
pub mod msg;
pub mod notice;
pub mod photo;
pub mod plusone;
pub mod regin;
pub mod reply;
pub mod store;
pub mod text;
pub mod ttt;
