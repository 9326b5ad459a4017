pub mod bytebeats;
pub mod engine;
pub mod export;
pub mod format;
pub mod output;
pub mod params;
pub mod router;
pub mod stream;
