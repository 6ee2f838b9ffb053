//! The payload types of the resource tree: the service root, the
//! collection of computer systems, and the computer system itself.

pub mod computer_system;
pub mod computer_system_collection;
pub mod person;
pub mod service_root;
