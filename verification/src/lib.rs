//! Scripted pointer automation: a table of timed mouse actions is decoded
//! into typed records, each record is resolved into the pointer operations
//! it stands for, and a playback cursor hands those operations out in order.

pub mod action;
pub mod number;
pub mod playback;
pub mod record;
pub mod resolver;
pub mod table;
pub mod text;
