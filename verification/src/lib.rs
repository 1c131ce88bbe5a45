pub mod text;
pub mod adapters;
pub mod drill_engine;
pub mod analysis;
pub mod icon_catalog;
pub mod window;
pub mod application;
