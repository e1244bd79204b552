pub mod bindings;
pub mod expr;
pub mod laws;
pub mod matching;
pub mod render;
pub mod rule;
pub mod subst;

pub use bindings::Bindings;
pub use expr::{Expr, ExprModel, clone_expr, eq_expr};
pub use matching::Pattern;
pub use rule::Rule;
pub use subst::replace;
