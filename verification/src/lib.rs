//! A small personal library of books and their chapters, persisted in a
//! file-backed SQLite store.
//!
//! The store keeps two tables, one of book rows and one of chapter rows.
//! Their contents are modelled as sequences of plain rows (`model`); every
//! statement the store issues is wrapped once at the trusted boundary
//! (`sqlite`), and the repository operations (`store`) are verified against
//! those contracts. `laws` states and proves the properties the surface
//! promises as a whole.

pub mod clock;
pub mod envelope;
pub mod laws;
pub mod model;
pub mod sqlite;
pub mod store;
pub mod text;
