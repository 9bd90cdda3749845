//! A toroidal Game of Life engine whose behaviour is stated and proved with Verus,
//! together with a named dog and a string helper.
mod dog;
mod strings;
pub mod laws;
pub mod patterns;
pub mod universe;

pub use dog::Pug;
pub use strings::some_fn;
pub use universe::Cell;
pub use universe::Universe;
