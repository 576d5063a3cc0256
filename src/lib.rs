//! Thumbnail submission, moderation and cache-invalidation logic for numbered
//! levels. Everything here decides; the server around it performs the file,
//! database and network work that the decisions call for.
pub mod auth;
pub mod cookie;
pub mod gate;
pub mod invalidation;
pub mod media;
pub mod model;
pub mod moderation;
pub mod query;
pub mod storage;
pub mod text;
pub mod thumbnail;

pub use model::{Role, Settings, UpdateSettingsPayload, UploadInfo, User, UserSession, UserStats};
