//! Classification and indexing of a turn-based game's live object graph.
//!
//! Entities (spirits, bases, outposts, stars) arrive from the host
//! environment as loosely typed records.  This crate classifies a single
//! record into a lattice of overlapping subtypes (alive/dead,
//! friendly/enemy, structure kind, shape kind) by structural probes alone,
//! narrows records into more specific views without ever losing the
//! original value when an attempt fails, and indexes per-kind collections
//! of records by typed identifiers.
//!
//! The host alone advances game state; this crate only classifies and
//! indexes a snapshot of it once per turn.  Raw drawing and logging calls,
//! the persistent key-value store and the host's action methods are outside
//! collaborators and are not interpreted here.

pub mod collection;
pub mod context;
pub mod ids;
pub mod iter;
pub mod lattice;
pub mod narrow;
pub mod record;

pub use collection::Collection;
pub use collection::EnumerateByID;
pub use collection::GetByID;
pub use collection::TryGetByID;
pub use context::TurnContext;
pub use ids::TypedId;
pub use iter::ArrayTypedIter;
pub use lattice::Caps;
pub use lattice::TypeTag;
pub use narrow::Typed;
pub use record::EntityRecord;
pub use record::PlayerId;
pub use record::Shape;
pub use record::StructureType;
