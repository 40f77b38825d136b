//! The decision logic of a dock for the Hyprland compositor: which pinned
//! applications are running, which windows are not pinned, what each dock
//! button and its menu offer, when the dock hides, and when it must be
//! rebuilt. The widgets, the files and the `hyprctl` processes live around it.

pub mod text;


pub mod model;
pub mod matching;
pub mod actions;
pub mod pins;
pub mod plan;
pub mod autohide;
pub mod icons;
pub mod refresh;
pub mod laws;
