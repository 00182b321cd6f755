//! Separator lines and layout spacers.
use std::marker::PhantomData;

use vstd::prelude::*;

use crate::colors::Color;

verus! {

/// A visual separator line, horizontal or vertical.
pub struct Divider<Msg> {
    pub(crate) is_vertical: bool,
    pub(crate) color: Color,
    _marker: PhantomData<Msg>,
}

impl<Msg> Divider<Msg> {
    /// Whether the line runs vertically.
    pub closed spec fn vertical(&self) -> bool {
        self.is_vertical
    }

    /// The line's color.
    pub closed spec fn line_color(&self) -> Color {
        self.color
    }
}

/// Creates a horizontal divider in a light slate.
pub fn divider<Msg>() -> (r: Divider<Msg>)
    ensures
        !r.vertical(),
        r.line_color() == (Color { r: 226, g: 232, b: 240, a: 255 }),
{
    Divider { is_vertical: false, color: Color::new(226, 232, 240, 255), _marker: PhantomData }
}

/// Creates a vertical divider in a light slate.
pub fn v_divider<Msg>() -> (r: Divider<Msg>)
    ensures
        r.vertical(),
        r.line_color() == (Color { r: 226, g: 232, b: 240, a: 255 }),
{
    Divider { is_vertical: true, color: Color::new(226, 232, 240, 255), _marker: PhantomData }
}

impl<Msg> Divider<Msg> {
    /// Sets the line's color.
    pub fn color(self, color: Color) -> (r: Self)
        ensures
            r.vertical() == self.vertical(),
            r.line_color() == color,
    {
        Divider { color, ..self }
    }
}

/// A flexible layout spacer that expands to fill available space.
pub struct Spacer<Msg> {
    _marker: PhantomData<Msg>,
}

/// Creates a flexible layout spacer.
pub fn spacer<Msg>() -> (r: Spacer<Msg>) {
    Spacer { _marker: PhantomData }
}

} // verus!
