//! Class and job catalog with a persisted theme preference: loading, grouping
//! by class, selection state and the derived view model.

pub mod class;
pub mod text;
pub mod theme;
pub mod yaml;
pub mod catalog;
pub mod index;
pub mod state;
pub mod view;
