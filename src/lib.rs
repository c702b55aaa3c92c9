//! Decision logic of a chat bot that fetches short video clips and streams
//! audio into voice channels. Everything that talks to the outside world
//! (the media downloader, the file system, the chat gateway, the voice
//! manager) is performed by the caller; this library decides what to do.
pub mod filename;
pub mod play;
pub mod video;
