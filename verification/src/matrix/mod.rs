//! The channel over a Matrix room.

pub mod error;
pub mod matrix_channel;
pub mod matrix_stream;

pub use error::MatrixError;
pub use matrix_channel::{MatrixChannel, MatrixChannelSettings, ProvisioningError, Session};
pub use matrix_stream::{MatrixStream, Page};
