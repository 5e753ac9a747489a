//! Memory-mapped control of a GPIO peripheral: the register layout arithmetic,
//! pin operations over a register page, and the lifecycle of the mapped window.
pub mod controller;
pub mod layout;
pub mod page;
pub mod pin;
pub mod window;
