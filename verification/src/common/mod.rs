//! What the elements and the helper process have in common.

pub mod credentials;
pub mod error;
pub mod format;
pub mod ipc;
pub mod json;
pub mod log;
pub mod url;
pub mod url_counts;

pub use self::credentials::Credentials;
pub use self::error::Error;
pub use self::format::caps;
pub use self::format::gst_from_otc_format;
pub use self::format::otc_format_from_gst_format;
pub use self::ipc::IpcMessage;
pub use self::ipc::StreamMessage;
pub use self::ipc::StreamMessageData;
pub use self::log::pipe_opentok_to_gst_log;
