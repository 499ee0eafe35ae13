//! The decisions of a small file server for one directory.
//!
//! The server answers a request for a directory with a listing, or with the
//! index file that the directory holds, and a request for a file with the
//! file.  At start-up it prints its address beside a QR symbol of it.  This
//! library holds what is decided on the way: where a request leads and
//! whether that lies in the served directory (`path`, `router`), how a
//! directory is listed (`listing`, `media`, `size`, `time`), how a file is
//! answered and what stands in for a missing one (`files`), what a failure
//! means to the client (`error`, `reply`), how the banner is laid out
//! (`qr`, `banner`), and where the server listens and what opens a browser
//! on it (`startup`, `open_explorer`).
//!
//! Nothing here touches the file system, the network or the terminal.  The
//! caller reads and sends; the library takes what was read as plain values
//! and says what is to be sent.

pub mod banner;
pub mod error;
pub mod files;
pub mod listing;
pub mod media;
pub mod open_explorer;
pub mod path;
pub mod qr;
pub mod reply;
pub mod router;
pub mod size;
pub mod startup;
pub mod text;
pub mod time;
