//! A snake game without its window, and a handful of small building blocks.
//!
//! The game lives in [`snake`] and [`game`]: a snake that moves over a walled
//! grid, eats and grows, and a game that ends when the snake runs into a wall
//! or into itself and starts again a little later. It takes key presses and
//! elapsed time and hands out frames to paint; [`draw`] turns grid cells into
//! pixels.
//!
//! [`minigrep`] finds the lines of a text that hold a query. The other
//! modules are short studies of one idea each: closures that cache
//! ([`anonymous_function`]), generic types ([`generics`]), the state monad
//! ([`gof`]), iteration ([`iterator`]), borrowed strings ([`lifetimes`]),
//! components behind a trait ([`oo`]), branching ([`process_control`]),
//! owning pointers ([`smart_pointer`]) and traits ([`traits`]).

pub mod anonymous_function;
pub mod draw;
pub mod game;
pub mod generics;
pub mod gof;
pub mod iterator;
pub mod lifetimes;
pub mod minigrep;
pub mod oo;
pub mod process_control;
pub mod smart_pointer;
pub mod snake;
pub mod traits;
