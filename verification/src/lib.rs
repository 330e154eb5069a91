pub mod text;
pub mod types;
pub mod cli;
pub mod forge;
pub mod backend;
pub mod action;
pub mod effect;
pub mod modal;
pub mod app;
pub mod fuzzy;
pub mod dispatch;
pub mod input;
pub mod omnibar;
pub mod mouse;
pub mod panels;
pub mod layout;
pub mod editor;
pub mod session;
pub mod laws;
pub mod widgets;
