//! Errors of the folder customization operations.
//!
//! Failures reported by outside components (the icon system, image codecs,
//! the file system) are carried as their message text.

use vstd::prelude::*;
use crate::error::RenderError;

verus! {

/// Errors that can occur while customizing folders.
#[derive(Debug)]
pub enum Error {
    /// The application data directory could not be determined.
    AppDataDir { message: String },
    /// The icon system reported an error.
    IconSys { message: String },
    /// The icon cache is unusable.
    Cache { message: String },
    /// An I/O operation failed.
    Io { message: String },
    /// A folder could not be customized.
    FolderCustomization { path: String, message: String },
    /// A folder could not be reset to the default icon.
    FolderReset { path: String, message: String },
    /// An image could not be decoded or encoded.
    Image { message: String },
    /// The context was used before it was initialized.
    NotInitialized { message: String },
    /// Data could not be serialized or deserialized.
    Serialization { message: String },
    /// The folder settings provider reported an error.
    FolderSettings { message: String },
    /// Rendering the icons failed.
    Render(RenderError),
}

} // verus!
