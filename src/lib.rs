//! State and rules of an interactive slide-based tutorial: the ordered
//! screens, navigation with its slide-in transition, a bouncing-circle
//! simulation, and the small models behind the interactive slides.

pub mod screen;
pub mod sliding;
pub mod navigation;
pub mod chaos;
pub mod quiz;
pub mod demo;
pub mod theming;
pub mod page_poker;
pub mod tutorial;
