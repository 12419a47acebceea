pub mod coin;
pub mod operation;
pub mod ownership;
pub mod rect;
pub mod user;

pub use coin::{value_in_cents, Coin};
pub use operation::{EvalError, Operation};
pub use ownership::gives_ownership;
pub use rect::Rect;
pub use user::{build_user, User};
