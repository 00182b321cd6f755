//! A pill-shaped toggle switch widget.
use std::marker::PhantomData;

use vstd::prelude::*;

use crate::ui::widgets::NoCallback;

verus! {

/// A pill-shaped toggle switch widget.
pub struct Switch<Msg, F = NoCallback> {
    pub(crate) is_on: bool,
    pub(crate) on_toggle: Option<F>,
    pub(crate) disabled: bool,
    _marker: PhantomData<Msg>,
}

impl<Msg, F> Switch<Msg, F> {
    /// Whether the switch shows the "on" state.
    pub closed spec fn state_on(&self) -> bool {
        self.is_on
    }

    /// The callback run when the switch is toggled, if any.
    pub closed spec fn toggle_callback(&self) -> Option<F> {
        self.on_toggle
    }

    /// Whether the switch ignores input.
    pub closed spec fn is_disabled(&self) -> bool {
        self.disabled
    }
}

/// Creates a new enabled `Switch` in the given state, without a toggle callback.
pub fn switch<Msg>(is_on: bool) -> (r: Switch<Msg, NoCallback>)
    ensures
        r.state_on() == is_on,
        r.toggle_callback() is None,
        !r.is_disabled(),
{
    Switch { is_on, on_toggle: None, disabled: false, _marker: PhantomData }
}

impl<Msg, F> Switch<Msg, F> {
    /// Sets the callback invoked when the switch is toggled.
    pub fn on_toggle<NewF: Fn(bool) -> Msg>(self, on_toggle: NewF) -> (r: Switch<Msg, NewF>)
        ensures
            r.state_on() == self.state_on(),
            r.toggle_callback() == Some(on_toggle),
            r.is_disabled() == self.is_disabled(),
    {
        Switch {
            is_on: self.is_on,
            on_toggle: Some(on_toggle),
            disabled: self.disabled,
            _marker: PhantomData,
        }
    }

    /// Disables or enables the switch.
    pub fn disabled(self, disabled: bool) -> (r: Self)
        ensures
            r.state_on() == self.state_on(),
            r.toggle_callback() == self.toggle_callback(),
            r.is_disabled() == disabled,
    {
        let mut s = self;
        s.disabled = disabled;
        s
    }

    /// The value a toggle reports: the opposite of the current state.
    pub fn toggled_value(&self) -> (r: bool)
        ensures
            r == !self.state_on(),
    {
        !self.is_on
    }
}

} // verus!
