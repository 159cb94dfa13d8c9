pub mod chunk;
pub mod prelude;
pub mod settings;

pub use chunk::BufferChunk;
pub use chunk::DocumentChunk;
pub use chunk::DocumentManifest;
pub use chunk::MutableBufferChunk;
pub use prelude::BufferAnalytics;
pub use prelude::ChunkType;
pub use prelude::ManuscriptError;
pub use prelude::ManuscriptResult;
pub use prelude::RgbaBits;
pub use prelude::TagMark;
pub use settings::DocumentSettings;
pub use settings::TextMetricSize;
pub mod document;

pub use chunk::Chapter;
pub use chunk::CharacterSheet;
pub use chunk::Chunk;
pub use chunk::Gender;
pub use chunk::Note;
pub use document::Document;
