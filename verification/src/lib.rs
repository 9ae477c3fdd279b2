//! A format-neutral view of audio metadata, with an adapter for Vorbis
//! comment headers.

pub mod comments;
pub mod config;
pub mod convert;
pub mod decimal;
pub mod edit;
pub mod error;
pub mod fields;
pub mod packed;
pub mod record;
pub mod tag;
pub mod tag_type;
pub mod text;
pub mod vorbis_keys;
pub mod vorbis_tag;

pub use config::Config;
pub use edit::AudioTagEdit;
pub use error::Error;
pub use fields::{Field, MimeType};
pub use record::{AnyTag, Picture};
pub use tag::Tag;
pub use tag_type::TagType;
pub use vorbis_tag::{VorbisInnerTag, VorbisTag};
