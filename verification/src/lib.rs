//! Restores images from XOR-masked media-cache containers.
//!
//! A container is an image whose every byte was combined with one key byte
//! and whose file extension was discarded. The library recovers the key and
//! the image format from the first two bytes, unmasks the payload and maps
//! the container's path into a mirrored output tree.
//!
//! - [`signature`]: the table of known signatures and the key detector.
//! - [`decoder`]: the byte-wise XOR.
//! - [`path_text`]: the path operations of the standard library, on trust.
//! - [`path_mapper`]: from a container's path to its image's path.
//! - [`pipeline`]: what happens to one container, and the counts of a run.
//! - [`setup`]: the validation of the two roots, and where to look.
//! - [`report`]: the texts shown to the user.
//!
//! The library reads and writes nothing: its caller reads the containers,
//! creates the directories and writes the images.

pub mod decoder;
pub mod path_mapper;
pub mod path_text;
pub mod pipeline;
pub mod report;
pub mod setup;
pub mod signature;
