pub mod layout;
pub mod tree;
