//! Saves the image held on the clipboard under a short, content-derived name.
//!
//! The library holds the decisions: how the name is derived from the image's
//! canonical bytes, where the file goes, which bytes it receives, how the
//! progress indicator advances and stops, and how messages are styled. The
//! program around it reads the clipboard, writes the file and draws on the
//! terminal.
pub mod capture;
pub mod file_manager;
pub mod fingerprint;
pub mod indicator;
pub mod location;
pub mod style;

pub use capture::{
    capture_clipboard_image, reencode_lossy, save_plan, CaptureError, ClipboardFailure, SavePlan,
    LOSSY_QUALITY,
};
pub use file_manager::{open_in_finder, reveal_failure, RevealCommand};
pub use fingerprint::{hash_bytes_short_sha256_hex5, short_hex, FINGERPRINT_LEN};
pub use indicator::{render_frame, Spinner, SpinnerAction, FRAME_COUNT, TICK_MILLIS};
pub use location::{downloads_dir, file_name, join_path};
pub use style::{
    bold, c, clear_line, cyan, error_line, green, path, red, success_line, warn_line, yellow,
};
