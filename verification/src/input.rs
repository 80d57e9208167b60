//! Input state: the latched key and button maps and the manager that
//! feeds them from the event stream.

pub mod input_manager;
pub mod keyboard;
pub mod mouse;
