//! Status badges and tag chips.
use std::marker::PhantomData;

use vstd::prelude::*;

use crate::colors::Color;
use crate::ui::widgets::utf8::same_text;
use crate::ui::widgets::{into_string, NoCallback};

verus! {

/// A compact status indicator or pill badge.
pub struct Badge<Msg> {
    pub(crate) text: String,
    pub(crate) bg_color: Color,
    pub(crate) text_color: Color,
    _marker: PhantomData<Msg>,
}

impl<Msg> Badge<Msg> {
    /// The badge's text.
    pub closed spec fn label_text(&self) -> Seq<char> {
        self.text@
    }

    /// The background color.
    pub closed spec fn background(&self) -> Color {
        self.bg_color
    }

    /// The text color.
    pub closed spec fn foreground(&self) -> Color {
        self.text_color
    }
}

/// Creates a new neutral (slate) `Badge` with the given text.
pub fn badge<Msg, S: Into<String>>(text: S) -> (r: Badge<Msg>)
    ensures
        exists|p: String| call_ensures(S::into, (text,), p) && r.label_text() == p@,
        r.background() == (Color { r: 241, g: 245, b: 249, a: 255 }),
        r.foreground() == (Color { r: 71, g: 85, b: 105, a: 255 }),
{
    let p = into_string(text);
    let r = Badge {
        text: p,
        bg_color: Color::new(241, 245, 249, 255),
        text_color: Color::new(71, 85, 105, 255),
        _marker: PhantomData,
    };
    assert(call_ensures(S::into, (text,), p) && r.label_text() == p@);
    r
}

impl<Msg> Badge<Msg> {
    /// Sets the badge to a success green appearance.
    pub fn success(self) -> (r: Self)
        ensures
            r.label_text() == self.label_text(),
            r.background() == (Color { r: 220, g: 252, b: 231, a: 255 }),
            r.foreground() == (Color { r: 22, g: 101, b: 52, a: 255 }),
    {
        self.custom(Color::new(220, 252, 231, 255), Color::new(22, 101, 52, 255))
    }

    /// Sets the badge to a warning yellow/orange appearance.
    pub fn warning(self) -> (r: Self)
        ensures
            r.label_text() == self.label_text(),
            r.background() == (Color { r: 254, g: 243, b: 199, a: 255 }),
            r.foreground() == (Color { r: 146, g: 64, b: 14, a: 255 }),
    {
        self.custom(Color::new(254, 243, 199, 255), Color::new(146, 64, 14, 255))
    }

    /// Sets the badge to an error red appearance.
    pub fn error(self) -> (r: Self)
        ensures
            r.label_text() == self.label_text(),
            r.background() == (Color { r: 254, g: 226, b: 226, a: 255 }),
            r.foreground() == (Color { r: 153, g: 27, b: 27, a: 255 }),
    {
        self.custom(Color::new(254, 226, 226, 255), Color::new(153, 27, 27, 255))
    }

    /// Sets the badge to an informative blue appearance.
    pub fn info(self) -> (r: Self)
        ensures
            r.label_text() == self.label_text(),
            r.background() == (Color { r: 219, g: 234, b: 254, a: 255 }),
            r.foreground() == (Color { r: 30, g: 64, b: 175, a: 255 }),
    {
        self.custom(Color::new(219, 234, 254, 255), Color::new(30, 64, 175, 255))
    }

    /// Sets custom background and text colors.
    pub fn custom(self, bg: Color, text: Color) -> (r: Self)
        ensures
            r.label_text() == self.label_text(),
            r.background() == bg,
            r.foreground() == text,
    {
        let mut s = self;
        s.bg_color = bg;
        s.text_color = text;
        s
    }
}

/// What a rebuild updates in a badge or a chip.
#[derive(Clone, Copy, Debug, PartialEq, Eq, Structural)]
pub struct PillRefresh {
    /// The text (and a chip's delete mark) is set again, with the text color.
    pub retext: bool,
    /// The background is painted again.
    pub repaint: bool,
}

impl<Msg> Badge<Msg> {
    /// What rebuilding from the previous badge `prev` updates: the text when it or its
    /// color changed, the background when its color changed.
    pub fn refresh(&self, prev: &Self) -> (r: PillRefresh)
        ensures
            r.retext == (self.label_text() != prev.label_text() || self.foreground() != prev.foreground()),
            r.repaint == (self.background() != prev.background()),
    {
        PillRefresh {
            retext: !same_text(self.text.as_str(), prev.text.as_str()) || self.text_color != prev.text_color,
            repaint: self.bg_color != prev.bg_color,
        }
    }
}

/// An interactive tag chip widget with an optional delete action.
pub struct Chip<Msg, F = NoCallback> {
    pub(crate) label: String,
    pub(crate) on_delete: Option<F>,
    pub(crate) bg_color: Color,
    pub(crate) text_color: Color,
    _marker: PhantomData<Msg>,
}

impl<Msg, F> Chip<Msg, F> {
    /// The chip's label.
    pub closed spec fn label_text(&self) -> Seq<char> {
        self.label@
    }

    /// The callback run when the delete button is clicked, if any.
    pub closed spec fn delete_callback(&self) -> Option<F> {
        self.on_delete
    }

    /// The background color.
    pub closed spec fn background(&self) -> Color {
        self.bg_color
    }

    /// The text color.
    pub closed spec fn foreground(&self) -> Color {
        self.text_color
    }
}

/// Creates a new slate `Chip` tag widget without a delete action.
pub fn chip<Msg, S: Into<String>>(label: S) -> (r: Chip<Msg, NoCallback>)
    ensures
        exists|p: String| call_ensures(S::into, (label,), p) && r.label_text() == p@,
        r.delete_callback() is None,
        r.background() == (Color { r: 241, g: 245, b: 249, a: 255 }),
        r.foreground() == (Color { r: 30, g: 41, b: 59, a: 255 }),
{
    let p = into_string(label);
    let r = Chip {
        label: p,
        on_delete: None,
        bg_color: Color::new(241, 245, 249, 255),
        text_color: Color::new(30, 41, 59, 255),
        _marker: PhantomData,
    };
    assert(call_ensures(S::into, (label,), p) && r.label_text() == p@);
    r
}

impl<Msg, F> Chip<Msg, F> {
    /// Sets the callback to emit when the user clicks the delete button.
    pub fn on_delete<NewF: Fn() -> Msg>(self, on_delete: NewF) -> (r: Chip<Msg, NewF>)
        ensures
            r.label_text() == self.label_text(),
            r.delete_callback() == Some(on_delete),
            r.background() == self.background(),
            r.foreground() == self.foreground(),
    {
        Chip {
            label: self.label,
            on_delete: Some(on_delete),
            bg_color: self.bg_color,
            text_color: self.text_color,
            _marker: PhantomData,
        }
    }

    /// Sets a custom background color.
    pub fn bg_color(self, color: Color) -> (r: Self)
        ensures
            r.label_text() == self.label_text(),
            r.delete_callback() == self.delete_callback(),
            r.background() == color,
            r.foreground() == self.foreground(),
    {
        let mut s = self;
        s.bg_color = color;
        s
    }

    /// Sets a custom text color.
    pub fn text_color(self, color: Color) -> (r: Self)
        ensures
            r.label_text() == self.label_text(),
            r.delete_callback() == self.delete_callback(),
            r.background() == self.background(),
            r.foreground() == color,
    {
        let mut s = self;
        s.text_color = color;
        s
    }
}

impl<Msg, F> Chip<Msg, F> {
    /// Whether the chip shows a delete button: exactly when a delete callback is set.
    pub fn shows_delete_button(&self) -> (r: bool)
        ensures
            r == self.delete_callback() is Some,
    {
        self.on_delete.is_some()
    }

    /// What rebuilding from the previous chip `prev` updates: the label and delete mark
    /// when the label or the text color changed, the background when its color changed.
    pub fn refresh<G>(&self, prev: &Chip<Msg, G>) -> (r: PillRefresh)
        ensures
            r.retext == (self.label_text() != prev.label_text() || self.foreground() != prev.foreground()),
            r.repaint == (self.background() != prev.background()),
    {
        PillRefresh {
            retext: !same_text(self.label.as_str(), prev.label.as_str()) || self.text_color != prev.text_color,
            repaint: self.bg_color != prev.bg_color,
        }
    }

    /// Whether a mouse press deletes the chip: the press lands on its delete button
    /// (`press_on_delete`) and a delete callback is set. The chip then emits the
    /// callback's message and the event is handled; otherwise it is ignored.
    pub fn deletes_on(&self, press_on_delete: bool) -> (r: bool)
        ensures
            r == (press_on_delete && self.delete_callback() is Some),
    {
        press_on_delete && self.on_delete.is_some()
    }
}

} // verus!
