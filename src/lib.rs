//! Object-graph schema, node identity, path and sharding model for a
//! repository consistency walker.
pub mod bookmarks;
pub mod compiler;
pub mod data;
pub mod hash;
pub mod ids;
pub mod node;
pub mod path;
pub mod schema;
pub mod shard;
pub mod walk;
