//! Audio I/O: the sample codec, the sample views and the double-buffered
//! engine.

pub mod codec;
pub mod engine;
pub mod laws;
pub mod sample;
pub mod startup;
pub mod views;

pub use self::engine::Audio;
pub use self::engine::AudioBuffer;
pub use self::engine::AudioState;
pub use self::engine::CapacityError;
pub use self::engine::DmaBuffer;
pub use self::engine::Input;
pub use self::engine::Output;
pub use self::engine::BLOCK_SIZE_MAX;
pub use self::engine::DMA_BUFFER_SIZE;
pub use self::engine::MAX_TRANSFER_SIZE;
pub use self::sample::Sample;
pub use self::views::MonoIterator;
pub use self::views::StereoIterator;
