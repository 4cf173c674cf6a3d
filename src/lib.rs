//! Interaction state machine and persistence model of a terminal HTTP request
//! workbench: projects hold named requests and environments, a field editor
//! and a request form turn key presses into edits, and a relational row
//! layout stores projects losslessly.

pub mod config;
pub mod editor;
pub mod footer;
pub mod header;
pub mod input;
pub mod modal;
pub mod model;
pub mod router;
pub mod rows;
pub mod sidebar;
pub mod text;
pub mod theme;
