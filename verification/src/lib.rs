//! A one-shot shutdown timer: resolving a wall-clock "HH:MM" target into a
//! future instant (with day rollover), and a scheduler that arms a single
//! cancellable countdown and gates manual shutdown behind a confirmation
//! counter.

mod clock;
pub mod resolver;
pub mod scheduler;
pub mod stamp;
