//! Core of a small streaming-audio player: choosing which offered encoding
//! of a track to fetch, and addressing a decrypted stream past its fixed
//! leading header.

pub mod file_format;
pub mod subfile;
