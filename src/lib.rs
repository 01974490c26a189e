//! A directory lister: for each entry of a directory it renders one line with
//! the entry's size, permission bits, owner and group, after a header line that
//! names the directory.
pub mod cli;
pub mod entry;
pub mod listing;
pub mod owner;
pub mod perms;
pub mod size;
pub mod text;
