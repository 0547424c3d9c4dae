//! Verification of disk erasure: statistical zero-fill sampling of block
//! devices, and classification of vendor secure-erase status output.

pub mod erase;
pub mod level;
pub mod sampler;

pub use erase::CollaboratorError;
pub use erase::DeviceFamily;
pub use erase::EraseVerdict;
pub use level::CheckLevel;
pub use sampler::SampleError;
pub use sampler::SamplingResult;
pub use sampler::SamplingRun;
