//! A minimal typed schema system: schemas declare named, typed properties,
//! and candidate entities are validated against a schema by computing which
//! declared property names are absent from the entity's property list.
//!
//! A `Schema` is built incrementally with `SchemaBuilder` and is immutable
//! once built. `Schema::find_missing_keys` is the validation core: a set
//! difference over property names alone. `Schema::create_entity` is
//! report-only: it always succeeds, and the missing-keys report is obtained
//! separately (see the documentation on `create_entity`).

pub mod missing;
pub mod property;
pub mod schema;
