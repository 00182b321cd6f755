//! Declarative view building blocks whose behaviour does not depend on the layout context.
pub mod either;
pub mod event;
pub mod focus;
pub mod keyed;
pub mod layer;
pub mod lens;
pub mod memo;
pub mod overlay;
pub mod presence;
pub mod router;
pub mod sequence;
pub mod style;
pub mod transition;
pub mod widgets;
