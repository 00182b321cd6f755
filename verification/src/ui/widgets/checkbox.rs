//! Checkboxes: their colors in each state, and the value a toggle reports.
use std::marker::PhantomData;

use vstd::prelude::*;

use crate::colors::Color;
use crate::ui::widgets::{into_string, label_view, labels_differ, NoCallback, ToggleRefresh};

verus! {

/// The colors of a checkbox in each of its states.
#[derive(Clone, Copy, Debug, PartialEq, Eq, Structural)]
pub struct CheckboxStyle {
    pub checked_bg: Color,
    pub unchecked_bg: Color,
    pub checked_border: Color,
    pub unchecked_border: Color,
    pub disabled_bg: Color,
    pub disabled_border: Color,
    pub check_color: Color,
}

/// The default checkbox colors: a blue box when checked, a white one with a slate border
/// when not, grey when disabled, and a white check mark.
pub open spec fn default_checkbox_style() -> CheckboxStyle {
    CheckboxStyle {
        checked_bg: Color { r: 59, g: 130, b: 246, a: 255 },
        unchecked_bg: Color { r: 255, g: 255, b: 255, a: 255 },
        checked_border: Color { r: 37, g: 99, b: 235, a: 255 },
        unchecked_border: Color { r: 203, g: 213, b: 225, a: 255 },
        disabled_bg: Color { r: 226, g: 232, b: 240, a: 255 },
        disabled_border: Color { r: 203, g: 213, b: 225, a: 255 },
        check_color: Color { r: 255, g: 255, b: 255, a: 255 },
    }
}

impl Default for CheckboxStyle {
    fn default() -> (r: Self)
        ensures
            r == default_checkbox_style(),
    {
        CheckboxStyle {
            checked_bg: Color { r: 59, g: 130, b: 246, a: 255 },
            unchecked_bg: Color { r: 255, g: 255, b: 255, a: 255 },
            checked_border: Color { r: 37, g: 99, b: 235, a: 255 },
            unchecked_border: Color { r: 203, g: 213, b: 225, a: 255 },
            disabled_bg: Color { r: 226, g: 232, b: 240, a: 255 },
            disabled_border: Color { r: 203, g: 213, b: 225, a: 255 },
            check_color: Color { r: 255, g: 255, b: 255, a: 255 },
        }
    }
}

/// How a checkbox's box looks.
#[derive(Clone, Copy, Debug, PartialEq, Eq, Structural)]
pub struct CheckLook {
    pub background: Color,
    pub border: Color,
    /// The color of the check mark.
    pub mark: Color,
    /// The box shows the check mark.
    pub shows_mark: bool,
}

/// The look of a box with colors `style`, checked or not, disabled or not: a disabled box
/// takes the disabled colors whatever its state, and its mark takes the disabled border
/// color.
pub open spec fn check_look(style: CheckboxStyle, checked: bool, disabled: bool) -> CheckLook {
    CheckLook {
        background: if disabled {
            style.disabled_bg
        } else if checked {
            style.checked_bg
        } else {
            style.unchecked_bg
        },
        border: if disabled {
            style.disabled_border
        } else if checked {
            style.checked_border
        } else {
            style.unchecked_border
        },
        mark: if disabled {
            style.disabled_border
        } else {
            style.check_color
        },
        shows_mark: checked,
    }
}

impl CheckboxStyle {
    /// The default checkbox colors.
    pub fn new() -> (r: Self)
        ensures
            r == default_checkbox_style(),
    {
        Self::default()
    }

    /// Sets the background and border of the checked box.
    pub fn active_color(self, color: Color) -> (r: Self)
        ensures
            r == (CheckboxStyle { checked_bg: color, checked_border: color, ..self }),
    {
        CheckboxStyle { checked_bg: color, checked_border: color, ..self }
    }

    /// Sets the background of the checked box.
    pub fn checked_bg(self, color: Color) -> (r: Self)
        ensures
            r == (CheckboxStyle { checked_bg: color, ..self }),
    {
        CheckboxStyle { checked_bg: color, ..self }
    }

    /// Sets the background of the unchecked box.
    pub fn unchecked_bg(self, color: Color) -> (r: Self)
        ensures
            r == (CheckboxStyle { unchecked_bg: color, ..self }),
    {
        CheckboxStyle { unchecked_bg: color, ..self }
    }

    /// Sets the border of the checked box.
    pub fn checked_border(self, color: Color) -> (r: Self)
        ensures
            r == (CheckboxStyle { checked_border: color, ..self }),
    {
        CheckboxStyle { checked_border: color, ..self }
    }

    /// Sets the border of the unchecked box.
    pub fn unchecked_border(self, color: Color) -> (r: Self)
        ensures
            r == (CheckboxStyle { unchecked_border: color, ..self }),
    {
        CheckboxStyle { unchecked_border: color, ..self }
    }

    /// Sets the color of the check mark.
    pub fn check_color(self, color: Color) -> (r: Self)
        ensures
            r == (CheckboxStyle { check_color: color, ..self }),
    {
        CheckboxStyle { check_color: color, ..self }
    }

    /// The look of a box with these colors, checked or not, disabled or not.
    pub fn look(&self, checked: bool, disabled: bool) -> (r: CheckLook)
        ensures
            r == check_look(*self, checked, disabled),
    {
        let background = if disabled {
            self.disabled_bg
        } else if checked {
            self.checked_bg
        } else {
            self.unchecked_bg
        };
        let border = if disabled {
            self.disabled_border
        } else if checked {
            self.checked_border
        } else {
            self.unchecked_border
        };
        let mark = if disabled {
            self.disabled_border
        } else {
            self.check_color
        };
        CheckLook { background, border, mark, shows_mark: checked }
    }
}

/// An accessible checkbox toggle widget.
pub struct Checkbox<Msg, F = NoCallback> {
    pub(crate) checked: bool,
    pub(crate) label: Option<String>,
    pub(crate) on_toggle: Option<F>,
    pub(crate) disabled: bool,
    pub(crate) style: CheckboxStyle,
    _marker: PhantomData<Msg>,
}

impl<Msg, F> Checkbox<Msg, F> {
    /// Whether the box is checked.
    pub closed spec fn is_checked(&self) -> bool {
        self.checked
    }

    /// Whether the checkbox has a label.
    pub closed spec fn has_label(&self) -> bool {
        self.label is Some
    }

    /// The label's text, if it has one.
    pub closed spec fn label_text(&self) -> Option<Seq<char>> {
        label_view(self.label)
    }

    /// The callback run with the new value when the checkbox is toggled, if any.
    pub closed spec fn toggle_callback(&self) -> Option<F> {
        self.on_toggle
    }

    /// Whether the checkbox ignores input.
    pub closed spec fn is_disabled(&self) -> bool {
        self.disabled
    }

    /// The checkbox's colors.
    pub closed spec fn colors(&self) -> CheckboxStyle {
        self.style
    }
}

/// Creates an enabled checkbox in the given state, without label or callback, in the
/// default colors.
pub fn checkbox<Msg>(checked: bool) -> (r: Checkbox<Msg, NoCallback>)
    ensures
        r.is_checked() == checked,
        !r.has_label(),
        r.toggle_callback() is None,
        !r.is_disabled(),
        r.colors() == default_checkbox_style(),
{
    Checkbox {
        checked,
        label: None,
        on_toggle: None,
        disabled: false,
        style: CheckboxStyle::default(),
        _marker: PhantomData,
    }
}

impl<Msg, F> Checkbox<Msg, F> {
    /// Sets the text shown beside the box.
    pub fn label<S: Into<String>>(self, label: S) -> (r: Self)
        ensures
            exists|p: String| call_ensures(S::into, (label,), p) && r.label_text() == Some(p@),
            r.has_label(),
            r.is_checked() == self.is_checked(),
            r.toggle_callback() == self.toggle_callback(),
            r.is_disabled() == self.is_disabled(),
            r.colors() == self.colors(),
    {
        let p = into_string(label);
        let r = Checkbox { label: Some(p), ..self };
        assert(call_ensures(S::into, (label,), p) && r.label_text() == Some(p@));
        r
    }

    /// Sets the callback run with the new value when the checkbox is toggled.
    pub fn on_toggle<NewF: Fn(bool) -> Msg>(self, on_toggle: NewF) -> (r: Checkbox<Msg, NewF>)
        ensures
            r.toggle_callback() == Some(on_toggle),
            r.is_checked() == self.is_checked(),
            r.has_label() == self.has_label(),
            r.is_disabled() == self.is_disabled(),
            r.colors() == self.colors(),
    {
        Checkbox {
            checked: self.checked,
            label: self.label,
            on_toggle: Some(on_toggle),
            disabled: self.disabled,
            style: self.style,
            _marker: PhantomData,
        }
    }

    /// Disables or enables the checkbox.
    pub fn disabled(self, disabled: bool) -> (r: Self)
        ensures
            r.is_disabled() == disabled,
            r.is_checked() == self.is_checked(),
            r.has_label() == self.has_label(),
            r.toggle_callback() == self.toggle_callback(),
            r.colors() == self.colors(),
    {
        Checkbox { disabled, ..self }
    }

    /// Sets all the checkbox's colors.
    pub fn style(self, style: CheckboxStyle) -> (r: Self)
        ensures
            r.colors() == style,
            r.is_checked() == self.is_checked(),
            r.has_label() == self.has_label(),
            r.toggle_callback() == self.toggle_callback(),
            r.is_disabled() == self.is_disabled(),
    {
        Checkbox { style, ..self }
    }

    /// Sets the background and border of the checked box.
    pub fn active_color(self, color: Color) -> (r: Self)
        ensures
            r.colors() == (CheckboxStyle { checked_bg: color, checked_border: color, ..self.colors() }),
            r.is_checked() == self.is_checked(),
            r.has_label() == self.has_label(),
            r.toggle_callback() == self.toggle_callback(),
            r.is_disabled() == self.is_disabled(),
    {
        let style = self.style.active_color(color);
        Checkbox { style, ..self }
    }

    /// Sets the color of the check mark.
    pub fn check_color(self, color: Color) -> (r: Self)
        ensures
            r.colors() == (CheckboxStyle { check_color: color, ..self.colors() }),
            r.is_checked() == self.is_checked(),
            r.has_label() == self.has_label(),
            r.toggle_callback() == self.toggle_callback(),
            r.is_disabled() == self.is_disabled(),
    {
        let style = self.style.check_color(color);
        Checkbox { style, ..self }
    }

    /// The value a toggle reports: the opposite of the current state.
    pub fn toggled_value(&self) -> (r: bool)
        ensures
            r == !self.is_checked(),
    {
        !self.checked
    }

    /// What rebuilding from the previous checkbox `prev` updates, where
    /// `label_style_changed` and `gap_changed` tell whether the label's text style and the
    /// gap between box and label changed: the box when the state, the enabled state or any
    /// part of the style changed; the label when its text, its style or the enabled state
    /// changed; the accessibility description when the state, the enabled state or the
    /// label changed.
    pub fn refresh<G>(&self, prev: &Checkbox<Msg, G>, label_style_changed: bool, gap_changed: bool) -> (r: ToggleRefresh)
        ensures
            r.restyle == (self.is_checked() != prev.is_checked() || self.is_disabled() != prev.is_disabled()
                || self.colors() != prev.colors() || label_style_changed || gap_changed),
            r.relabel == (self.label_text() != prev.label_text() || label_style_changed
                || self.is_disabled() != prev.is_disabled()),
            r.reannounce == (self.is_checked() != prev.is_checked() || self.is_disabled() != prev.is_disabled()
                || self.label_text() != prev.label_text()),
    {
        let label_changed = labels_differ(&self.label, &prev.label);
        let state_changed = self.checked != prev.checked || self.disabled != prev.disabled;
        ToggleRefresh {
            restyle: state_changed || self.style != prev.style || label_style_changed || gap_changed,
            relabel: label_changed || label_style_changed || self.disabled != prev.disabled,
            reannounce: state_changed || label_changed,
        }
    }

    /// How the checkbox's box looks in its current state.
    pub fn look(&self) -> (r: CheckLook)
        ensures
            r == check_look(self.colors(), self.is_checked(), self.is_disabled()),
    {
        self.style.look(self.checked, self.disabled)
    }
}

} // verus!
