//! Files and directories as callers see them.

pub mod options;
pub mod uri_status;
pub mod write_type;

pub use options::{
    CreateFileOptions, DeleteOptions, GetStatusOptions, InStreamOptions, ListStatusOptions,
    OpenFileOptions, ReadType,
};
pub use uri_status::URIStatus;
pub use write_type::WriteTypeXAttr;
