//! APA-style reference rendering for bibliographic records.
//!
//! An [`Entry`](types::Entry) is one bibliographic record together with the
//! chain of records that contain or publish it.  The classifier in
//! [`classify`] decides which source shape the record has, and the
//! generator in [`apa`] renders the author, date, title and source
//! segments of the reference line from that shape.

pub mod apa;
pub mod classify;
pub mod names;
pub mod text;
pub mod types;

pub use apa::ApaBibliographyGenerator;
pub use classify::SourceType;
pub use types::Entry;
pub use types::EntryType;
pub use types::Person;
