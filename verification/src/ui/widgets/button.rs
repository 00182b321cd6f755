//! A clickable button widget with hover, focus and press feedback.
use std::marker::PhantomData;

use vstd::prelude::*;

use crate::colors::Color;
use crate::ui::widgets::label_string;
use crate::ui::widgets::utf8::same_text;

verus! {

/// A clickable button widget with built-in hover, focus, and press feedback.
pub struct Button<Msg> {
    pub(crate) label: String,
    pub(crate) on_click: Option<Msg>,
    pub(crate) disabled: bool,
    _marker: PhantomData<Msg>,
}

impl<Msg> Button<Msg> {
    /// The button's label.
    pub closed spec fn label_text(&self) -> Seq<char> {
        self.label@
    }

    /// The message emitted on click, if any.
    pub closed spec fn click_message(&self) -> Option<Msg> {
        self.on_click
    }

    /// Whether the button ignores clicks.
    pub closed spec fn is_disabled(&self) -> bool {
        self.disabled
    }
}

/// Creates a new enabled `Button` with the provided text label and no click message.
pub fn button<S: ToString, Msg>(label: S) -> (r: Button<Msg>)
    ensures
        r.click_message() is None,
        !r.is_disabled(),
{
    Button { label: label_string(label), on_click: None, disabled: false, _marker: PhantomData }
}

impl<Msg: Clone> Button<Msg> {
    /// Sets the message to emit when the button is clicked.
    pub fn on_click(self, msg: Msg) -> (r: Self)
        ensures
            r.click_message() == Some(msg),
            r.label_text() == self.label_text(),
            r.is_disabled() == self.is_disabled(),
    {
        let mut s = self;
        s.on_click = Some(msg);
        s
    }

    /// Disables or enables the button. Disabled buttons ignore click events.
    pub fn disabled(self, disabled: bool) -> (r: Self)
        ensures
            r.is_disabled() == disabled,
            r.click_message() == self.click_message(),
            r.label_text() == self.label_text(),
    {
        let mut s = self;
        s.disabled = disabled;
        s
    }
}

/// The default colors of a button: its label, background and border.
#[derive(Clone, Copy, Debug, PartialEq, Eq, Structural)]
pub struct ButtonPalette {
    pub text: Color,
    pub background: Color,
    pub border: Color,
}

/// The default colors of an enabled or a disabled button.
pub open spec fn palette_for(disabled: bool) -> ButtonPalette {
    if disabled {
        ButtonPalette {
            text: Color { r: 148, g: 163, b: 184, a: 255 },
            background: Color { r: 226, g: 232, b: 240, a: 255 },
            border: Color { r: 203, g: 213, b: 225, a: 255 },
        }
    } else {
        ButtonPalette {
            text: Color { r: 255, g: 255, b: 255, a: 255 },
            background: Color { r: 59, g: 130, b: 246, a: 255 },
            border: Color { r: 37, g: 99, b: 235, a: 255 },
        }
    }
}

/// What a rebuild does to a button's node.
#[derive(Clone, Copy, Debug, PartialEq, Eq, Structural)]
pub enum ButtonRefresh {
    /// Nothing changed that shows.
    Keep,
    /// The enabled state or the custom style changed: the whole style is applied again.
    Restyle,
    /// Only the label changed: the text is replaced, keeping its style.
    Relabel,
}

impl<Msg> Button<Msg> {
    /// The button's default colors, which depend on whether it is disabled.
    pub fn palette(&self) -> (r: ButtonPalette)
        ensures
            r == palette_for(self.is_disabled()),
    {
        if self.disabled {
            ButtonPalette {
                text: Color::new(148, 163, 184, 255),
                background: Color::new(226, 232, 240, 255),
                border: Color::new(203, 213, 225, 255),
            }
        } else {
            ButtonPalette {
                text: Color::new(255, 255, 255, 255),
                background: Color::new(59, 130, 246, 255),
                border: Color::new(37, 99, 235, 255),
            }
        }
    }

    /// What rebuilding from the previous button `prev` does: the style is applied again
    /// when the enabled state or the custom style changed (`style_changed`), else the
    /// text is replaced when the label changed.
    pub fn refresh(&self, prev: &Self, style_changed: bool) -> (r: ButtonRefresh)
        ensures
            r == if self.is_disabled() != prev.is_disabled() || style_changed {
                ButtonRefresh::Restyle
            } else if self.label_text() != prev.label_text() {
                ButtonRefresh::Relabel
            } else {
                ButtonRefresh::Keep
            },
    {
        if self.disabled != prev.disabled || style_changed {
            ButtonRefresh::Restyle
        } else if !same_text(self.label.as_str(), prev.label.as_str()) {
            ButtonRefresh::Relabel
        } else {
            ButtonRefresh::Keep
        }
    }
}

/// The background of a button without a custom style, as the cursor enters or leaves it:
/// a darker blue while hovered.
pub fn hover_background(hovered: bool) -> (r: Color)
    ensures
        r == if hovered {
            Color { r: 37, g: 99, b: 235, a: 255 }
        } else {
            Color { r: 59, g: 130, b: 246, a: 255 }
        },
{
    if hovered {
        Color::new(37, 99, 235, 255)
    } else {
        Color::new(59, 130, 246, 255)
    }
}

} // verus!
