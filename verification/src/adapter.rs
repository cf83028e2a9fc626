//! Adapter layer: the terminal screens and the routing between them.

pub mod components;
pub mod controller;
pub mod error;
pub mod error_handler;
pub mod input_mode;
pub mod layouts;
pub mod page_navigator;
pub mod page_states;
pub mod pages;
pub mod presenter;
pub mod route;
pub mod view_router;
