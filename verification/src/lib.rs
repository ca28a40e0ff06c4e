//! Hiding extra menu bar icons: the decisions of a menu bar app that pushes
//! the icons left of its spacer off the screen and brings them back.

use vstd::prelude::*;

pub mod controller;
pub mod laws;
pub mod login;
pub mod menu;
pub mod status_bar;
pub mod strings;
