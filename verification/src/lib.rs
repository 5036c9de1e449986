//! A verified message-to-artifact pipeline for re-posting linked social-media
//! posts into a chat channel.
//!
//! The pipeline scans an incoming chat message for a supported post link,
//! plans a lookup of the normalized post record behind it, and turns that
//! record into a display message plus an ordered list of media attachments.
//! The surrounding gateway performs the network calls and hands their
//! outcomes back; every decision between those calls is made here, under a
//! contract.

pub mod dispatcher;
pub mod formatter;
pub mod matcher;
pub mod record;
