//! People with a place in the world, the greetings that describe them, and
//! the bookkeeping that reports how those greetings change from tick to tick.
pub mod greeting;
pub mod greeting_set;
pub mod person;
pub mod text;
pub mod timer;
pub mod tracker;
pub mod world;
