//! Radio buttons and radio groups: their colors in each state, and which option of a
//! group is selected.
use std::marker::PhantomData;

use vstd::prelude::*;

use crate::colors::Color;
use crate::ui::widgets::{into_string, label_view, labels_differ, LayoutDirection, NoCallback, ToggleRefresh};

verus! {

/// The colors of a radio button in each of its states.
#[derive(Clone, Copy, Debug, PartialEq, Eq, Structural)]
pub struct RadioStyle {
    pub selected_border: Color,
    pub unselected_border: Color,
    pub selected_dot: Color,
    pub circle_bg: Color,
    pub disabled_border: Color,
    pub disabled_dot: Color,
}

/// The default radio colors: a blue ring and dot when selected, a slate ring when not, a
/// white circle, grey when disabled.
pub open spec fn default_radio_style() -> RadioStyle {
    RadioStyle {
        selected_border: Color { r: 37, g: 99, b: 235, a: 255 },
        unselected_border: Color { r: 148, g: 163, b: 184, a: 255 },
        selected_dot: Color { r: 37, g: 99, b: 235, a: 255 },
        circle_bg: Color { r: 255, g: 255, b: 255, a: 255 },
        disabled_border: Color { r: 203, g: 213, b: 225, a: 255 },
        disabled_dot: Color { r: 203, g: 213, b: 225, a: 255 },
    }
}

impl Default for RadioStyle {
    fn default() -> (r: Self)
        ensures
            r == default_radio_style(),
    {
        RadioStyle {
            selected_border: Color { r: 37, g: 99, b: 235, a: 255 },
            unselected_border: Color { r: 148, g: 163, b: 184, a: 255 },
            selected_dot: Color { r: 37, g: 99, b: 235, a: 255 },
            circle_bg: Color { r: 255, g: 255, b: 255, a: 255 },
            disabled_border: Color { r: 203, g: 213, b: 225, a: 255 },
            disabled_dot: Color { r: 203, g: 213, b: 225, a: 255 },
        }
    }
}

/// How a radio button's circle looks.
#[derive(Clone, Copy, Debug, PartialEq, Eq, Structural)]
pub struct RadioLook {
    pub border: Color,
    pub background: Color,
    pub dot: Color,
    /// The side of the inner dot in pixels: shown only when selected.
    pub dot_size: u32,
}

/// The side of the inner dot of a selected radio button.
pub const SELECTED_DOT_SIZE: u32 = 10;

/// The look of a radio button with colors `style`, selected or not, disabled or not: a
/// disabled button takes the disabled colors, and its circle the disabled border color.
pub open spec fn radio_look(style: RadioStyle, selected: bool, disabled: bool) -> RadioLook {
    RadioLook {
        border: if disabled {
            style.disabled_border
        } else if selected {
            style.selected_border
        } else {
            style.unselected_border
        },
        background: if disabled {
            style.disabled_border
        } else {
            style.circle_bg
        },
        dot: if disabled {
            style.disabled_dot
        } else {
            style.selected_dot
        },
        dot_size: if selected {
            SELECTED_DOT_SIZE
        } else {
            0
        },
    }
}

impl RadioStyle {
    /// The default radio colors.
    pub fn new() -> (r: Self)
        ensures
            r == default_radio_style(),
    {
        Self::default()
    }

    /// Sets the ring and dot of the selected button.
    pub fn active_color(self, color: Color) -> (r: Self)
        ensures
            r == (RadioStyle { selected_border: color, selected_dot: color, ..self }),
    {
        RadioStyle { selected_border: color, selected_dot: color, ..self }
    }

    /// Sets the ring of the selected button.
    pub fn selected_border(self, color: Color) -> (r: Self)
        ensures
            r == (RadioStyle { selected_border: color, ..self }),
    {
        RadioStyle { selected_border: color, ..self }
    }

    /// Sets the ring of an unselected button.
    pub fn unselected_border(self, color: Color) -> (r: Self)
        ensures
            r == (RadioStyle { unselected_border: color, ..self }),
    {
        RadioStyle { unselected_border: color, ..self }
    }

    /// Sets the inner dot.
    pub fn selected_dot(self, color: Color) -> (r: Self)
        ensures
            r == (RadioStyle { selected_dot: color, ..self }),
    {
        RadioStyle { selected_dot: color, ..self }
    }

    /// Sets the inner dot (another name for [`RadioStyle::selected_dot`]).
    pub fn dot_color(self, color: Color) -> (r: Self)
        ensures
            r == (RadioStyle { selected_dot: color, ..self }),
    {
        RadioStyle { selected_dot: color, ..self }
    }

    /// Sets the circle's background.
    pub fn circle_bg(self, color: Color) -> (r: Self)
        ensures
            r == (RadioStyle { circle_bg: color, ..self }),
    {
        RadioStyle { circle_bg: color, ..self }
    }

    /// The look of a button with these colors, selected or not, disabled or not.
    pub fn look(&self, selected: bool, disabled: bool) -> (r: RadioLook)
        ensures
            r == radio_look(*self, selected, disabled),
    {
        let border = if disabled {
            self.disabled_border
        } else if selected {
            self.selected_border
        } else {
            self.unselected_border
        };
        let background = if disabled {
            self.disabled_border
        } else {
            self.circle_bg
        };
        let dot = if disabled {
            self.disabled_dot
        } else {
            self.selected_dot
        };
        RadioLook { border, background, dot, dot_size: if selected { SELECTED_DOT_SIZE } else { 0 } }
    }
}

/// An accessible circular radio button widget.
pub struct Radio<Msg, F = NoCallback> {
    pub(crate) is_selected: bool,
    pub(crate) label: Option<String>,
    pub(crate) on_select: Option<F>,
    pub(crate) disabled: bool,
    pub(crate) style: RadioStyle,
    _marker: PhantomData<Msg>,
}

impl<Msg, F> Radio<Msg, F> {
    /// Whether the button is selected.
    pub closed spec fn selected(&self) -> bool {
        self.is_selected
    }

    /// Whether the button has a label.
    pub closed spec fn has_label(&self) -> bool {
        self.label is Some
    }

    /// The label's text, if it has one.
    pub closed spec fn label_text(&self) -> Option<Seq<char>> {
        label_view(self.label)
    }

    /// The callback run when the button is selected, if any.
    pub closed spec fn select_callback(&self) -> Option<F> {
        self.on_select
    }

    /// Whether the button ignores input.
    pub closed spec fn is_disabled(&self) -> bool {
        self.disabled
    }

    /// The button's colors.
    pub closed spec fn colors(&self) -> RadioStyle {
        self.style
    }
}

/// Creates an enabled radio button, selected or not, without label or callback, in the
/// default colors.
pub fn radio<Msg>(is_selected: bool) -> (r: Radio<Msg, NoCallback>)
    ensures
        r.selected() == is_selected,
        !r.has_label(),
        r.select_callback() is None,
        !r.is_disabled(),
        r.colors() == default_radio_style(),
{
    Radio {
        is_selected,
        label: None,
        on_select: None,
        disabled: false,
        style: RadioStyle::default(),
        _marker: PhantomData,
    }
}

impl<Msg, F> Radio<Msg, F> {
    /// Sets the text shown beside the button.
    pub fn label<S: Into<String>>(self, label: S) -> (r: Self)
        ensures
            exists|p: String| call_ensures(S::into, (label,), p) && r.label_text() == Some(p@),
            r.has_label(),
            r.selected() == self.selected(),
            r.select_callback() == self.select_callback(),
            r.is_disabled() == self.is_disabled(),
            r.colors() == self.colors(),
    {
        let p = into_string(label);
        let r = Radio { label: Some(p), ..self };
        assert(call_ensures(S::into, (label,), p) && r.label_text() == Some(p@));
        r
    }

    /// Sets the callback run when the button is selected.
    pub fn on_select<NewF: Fn() -> Msg>(self, on_select: NewF) -> (r: Radio<Msg, NewF>)
        ensures
            r.select_callback() == Some(on_select),
            r.selected() == self.selected(),
            r.has_label() == self.has_label(),
            r.is_disabled() == self.is_disabled(),
            r.colors() == self.colors(),
    {
        Radio {
            is_selected: self.is_selected,
            label: self.label,
            on_select: Some(on_select),
            disabled: self.disabled,
            style: self.style,
            _marker: PhantomData,
        }
    }

    /// Disables or enables the button.
    pub fn disabled(self, disabled: bool) -> (r: Self)
        ensures
            r.is_disabled() == disabled,
            r.selected() == self.selected(),
            r.has_label() == self.has_label(),
            r.select_callback() == self.select_callback(),
            r.colors() == self.colors(),
    {
        Radio { disabled, ..self }
    }

    /// Sets all the button's colors.
    pub fn style(self, style: RadioStyle) -> (r: Self)
        ensures
            r.colors() == style,
            r.selected() == self.selected(),
            r.has_label() == self.has_label(),
            r.select_callback() == self.select_callback(),
            r.is_disabled() == self.is_disabled(),
    {
        Radio { style, ..self }
    }

    /// Sets the ring and dot of the selected button.
    pub fn active_color(self, color: Color) -> (r: Self)
        ensures
            r.colors() == (RadioStyle { selected_border: color, selected_dot: color, ..self.colors() }),
            r.selected() == self.selected(),
            r.has_label() == self.has_label(),
            r.select_callback() == self.select_callback(),
            r.is_disabled() == self.is_disabled(),
    {
        let style = self.style.active_color(color);
        Radio { style, ..self }
    }

    /// Sets the inner dot.
    pub fn dot_color(self, color: Color) -> (r: Self)
        ensures
            r.colors() == (RadioStyle { selected_dot: color, ..self.colors() }),
            r.selected() == self.selected(),
            r.has_label() == self.has_label(),
            r.select_callback() == self.select_callback(),
            r.is_disabled() == self.is_disabled(),
    {
        let style = self.style.dot_color(color);
        Radio { style, ..self }
    }

    /// What rebuilding from the previous button `prev` updates, where
    /// `label_style_changed` and `gap_changed` tell whether the label's text style and the
    /// gap between circle and label changed: the circle and dot when the selection, the
    /// enabled state or any part of the style changed; the label when its text, its style
    /// or the enabled state changed; the accessibility description when the selection, the
    /// enabled state or the label changed.
    pub fn refresh<G>(&self, prev: &Radio<Msg, G>, label_style_changed: bool, gap_changed: bool) -> (r: ToggleRefresh)
        ensures
            r.restyle == (self.selected() != prev.selected() || self.is_disabled() != prev.is_disabled()
                || self.colors() != prev.colors() || label_style_changed || gap_changed),
            r.relabel == (self.label_text() != prev.label_text() || label_style_changed
                || self.is_disabled() != prev.is_disabled()),
            r.reannounce == (self.selected() != prev.selected() || self.is_disabled() != prev.is_disabled()
                || self.label_text() != prev.label_text()),
    {
        let label_changed = labels_differ(&self.label, &prev.label);
        let state_changed = self.is_selected != prev.is_selected || self.disabled != prev.disabled;
        ToggleRefresh {
            restyle: state_changed || self.style != prev.style || label_style_changed || gap_changed,
            relabel: label_changed || label_style_changed || self.disabled != prev.disabled,
            reannounce: state_changed || label_changed,
        }
    }

    /// How the button looks in its current state.
    pub fn look(&self) -> (r: RadioLook)
        ensures
            r == radio_look(self.colors(), self.selected(), self.is_disabled()),
    {
        self.style.look(self.is_selected, self.disabled)
    }
}

/// A group of radio buttons, one per option, of which one is selected.
pub struct RadioGroup<Msg, F> {
    pub(crate) selected_index: usize,
    pub(crate) options: Vec<String>,
    pub(crate) on_change: Option<F>,
    pub(crate) style: RadioStyle,
    pub(crate) direction: LayoutDirection,
    _marker: PhantomData<Msg>,
}

impl<Msg, F> RadioGroup<Msg, F> {
    /// The index of the selected option.
    pub closed spec fn selection(&self) -> usize {
        self.selected_index
    }

    /// The options' labels.
    pub closed spec fn labels(&self) -> Seq<Seq<char>> {
        self.options@.map_values(|o: String| o@)
    }

    /// The callback run with an option's index when it is selected, if any.
    pub closed spec fn change_callback(&self) -> Option<F> {
        self.on_change
    }

    /// The colors of the group's buttons.
    pub closed spec fn colors(&self) -> RadioStyle {
        self.style
    }

    /// The direction the options are laid out in.
    pub closed spec fn layout(&self) -> LayoutDirection {
        self.direction
    }
}

/// Creates a vertical group of radio buttons for `options`, of which the one at
/// `selected_index` is selected, calling `on_change` with the index of an option the user
/// selects.
pub fn radio_group<Msg, F: Fn(usize) -> Msg>(selected_index: usize, options: Vec<String>, on_change: F) -> (r: RadioGroup<Msg, F>)
    ensures
        r.selection() == selected_index,
        r.labels() == options@.map_values(|o: String| o@),
        r.change_callback() == Some(on_change),
        r.colors() == default_radio_style(),
        r.layout() == LayoutDirection::Column,
{
    RadioGroup {
        selected_index,
        options,
        on_change: Some(on_change),
        style: RadioStyle::default(),
        direction: LayoutDirection::Column,
        _marker: PhantomData,
    }
}

impl<Msg, F> RadioGroup<Msg, F> {
    /// Sets the colors of every button of the group.
    pub fn style(self, style: RadioStyle) -> (r: Self)
        ensures
            r.colors() == style,
            r.selection() == self.selection(),
            r.labels() == self.labels(),
            r.change_callback() == self.change_callback(),
            r.layout() == self.layout(),
    {
        RadioGroup { style, ..self }
    }

    /// Sets the ring and dot of the selected button.
    pub fn active_color(self, color: Color) -> (r: Self)
        ensures
            r.colors() == (RadioStyle { selected_border: color, selected_dot: color, ..self.colors() }),
            r.selection() == self.selection(),
            r.labels() == self.labels(),
            r.change_callback() == self.change_callback(),
            r.layout() == self.layout(),
    {
        let style = self.style.active_color(color);
        RadioGroup { style, ..self }
    }

    /// Sets the inner dot of the buttons.
    pub fn dot_color(self, color: Color) -> (r: Self)
        ensures
            r.colors() == (RadioStyle { selected_dot: color, ..self.colors() }),
            r.selection() == self.selection(),
            r.labels() == self.labels(),
            r.change_callback() == self.change_callback(),
            r.layout() == self.layout(),
    {
        let style = self.style.dot_color(color);
        RadioGroup { style, ..self }
    }

    /// Sets the direction the options are laid out in.
    pub fn direction(self, direction: LayoutDirection) -> (r: Self)
        ensures
            r.layout() == direction,
            r.colors() == self.colors(),
            r.selection() == self.selection(),
            r.labels() == self.labels(),
            r.change_callback() == self.change_callback(),
    {
        RadioGroup { direction, ..self }
    }

    /// Lays the options out in a row.
    pub fn horizontal(self) -> (r: Self)
        ensures
            r.layout() == LayoutDirection::Row,
            r.colors() == self.colors(),
            r.selection() == self.selection(),
            r.labels() == self.labels(),
            r.change_callback() == self.change_callback(),
    {
        RadioGroup { direction: LayoutDirection::Row, ..self }
    }

    /// Lays the options out in a column.
    pub fn vertical(self) -> (r: Self)
        ensures
            r.layout() == LayoutDirection::Column,
            r.colors() == self.colors(),
            r.selection() == self.selection(),
            r.labels() == self.labels(),
            r.change_callback() == self.change_callback(),
    {
        RadioGroup { direction: LayoutDirection::Column, ..self }
    }

    /// Whether the button of option `index` is selected: exactly the group's selected one.
    pub fn option_selected(&self, index: usize) -> (r: bool)
        ensures
            r == (index == self.selection()),
    {
        index == self.selected_index
    }
}

} // verus!
