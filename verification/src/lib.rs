use vstd::prelude::*;

pub mod app;
pub mod bookmark;
pub mod config;
pub mod mount;
pub mod path;
pub mod text;
pub mod ui;

verus! {
}
