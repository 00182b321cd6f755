//! A dropdown select menu widget.
use std::marker::PhantomData;

use vstd::prelude::*;

use crate::colors::Color;
use crate::ui::event::EventResult;
use crate::ui::widgets::utf8::same_text;
use crate::ui::widgets::{into_string, NoCallback};

verus! {

/// A dropdown select menu widget with keyboard navigation and focus support.
pub struct Dropdown<Msg, F = NoCallback> {
    pub(crate) selected_index: Option<usize>,
    pub(crate) options: Vec<String>,
    pub(crate) placeholder: String,
    pub(crate) on_select: Option<F>,
    pub(crate) disabled: bool,
    pub(crate) bg_color: Color,
    pub(crate) text_color: Color,
    pub(crate) border_color: Color,
    _marker: PhantomData<Msg>,
}

impl<Msg, F> Dropdown<Msg, F> {
    /// The index of the selected option, if any.
    pub closed spec fn selection(&self) -> Option<usize> {
        self.selected_index
    }

    /// The option labels.
    pub closed spec fn option_labels(&self) -> Seq<String> {
        self.options@
    }

    /// The text shown while no option is selected.
    pub closed spec fn placeholder_text(&self) -> Seq<char> {
        self.placeholder@
    }

    /// The callback run when an option is chosen, if any.
    pub closed spec fn select_callback(&self) -> Option<F> {
        self.on_select
    }

    /// Whether the dropdown ignores input.
    pub closed spec fn is_disabled(&self) -> bool {
        self.disabled
    }

    /// The background, text and border colors.
    pub closed spec fn colors(&self) -> (Color, Color, Color) {
        (self.bg_color, self.text_color, self.border_color)
    }
}

/// Creates a new enabled `Dropdown` with the given options and selection, a
/// "Select option..." placeholder, and no selection callback.
pub fn dropdown<Msg>(selected_index: Option<usize>, options: Vec<String>) -> (r: Dropdown<Msg, NoCallback>)
    ensures
        r.selection() == selected_index,
        r.option_labels() == options@,
        r.placeholder_text() == "Select option..."@,
        r.select_callback() is None,
        !r.is_disabled(),
        r.colors() == (
            Color { r: 255, g: 255, b: 255, a: 255 },
            Color { r: 15, g: 23, b: 42, a: 255 },
            Color { r: 203, g: 213, b: 225, a: 255 },
        ),
{
    Dropdown {
        selected_index,
        options,
        placeholder: "Select option...".to_owned(),
        on_select: None,
        disabled: false,
        bg_color: Color::new(255, 255, 255, 255),
        text_color: Color::new(15, 23, 42, 255),
        border_color: Color::new(203, 213, 225, 255),
        _marker: PhantomData,
    }
}

impl<Msg, F> Dropdown<Msg, F> {
    /// Sets the placeholder text shown when no option is selected.
    pub fn placeholder<S: Into<String>>(self, text: S) -> (r: Self)
        ensures
            exists|p: String| call_ensures(S::into, (text,), p) && r.placeholder_text() == p@,
            r.selection() == self.selection(),
            r.option_labels() == self.option_labels(),
            r.select_callback() == self.select_callback(),
            r.is_disabled() == self.is_disabled(),
            r.colors() == self.colors(),
    {
        let p = into_string(text);
        let mut s = self;
        s.placeholder = p;
        assert(call_ensures(S::into, (text,), p) && s.placeholder_text() == p@);
        s
    }

    /// Sets the callback triggered when an option is chosen.
    pub fn on_select<NewF: Fn(usize) -> Msg>(self, on_select: NewF) -> (r: Dropdown<Msg, NewF>)
        ensures
            r.selection() == self.selection(),
            r.option_labels() == self.option_labels(),
            r.placeholder_text() == self.placeholder_text(),
            r.select_callback() == Some(on_select),
            r.is_disabled() == self.is_disabled(),
            r.colors() == self.colors(),
    {
        Dropdown {
            selected_index: self.selected_index,
            options: self.options,
            placeholder: self.placeholder,
            on_select: Some(on_select),
            disabled: self.disabled,
            bg_color: self.bg_color,
            text_color: self.text_color,
            border_color: self.border_color,
            _marker: PhantomData,
        }
    }

    /// Sets a custom background color.
    pub fn bg_color(self, color: Color) -> (r: Self)
        ensures
            r.selection() == self.selection(),
            r.option_labels() == self.option_labels(),
            r.placeholder_text() == self.placeholder_text(),
            r.select_callback() == self.select_callback(),
            r.is_disabled() == self.is_disabled(),
            r.colors() == (color, self.colors().1, self.colors().2),
    {
        let mut s = self;
        s.bg_color = color;
        s
    }

    /// Sets a custom text color.
    pub fn text_color(self, color: Color) -> (r: Self)
        ensures
            r.selection() == self.selection(),
            r.option_labels() == self.option_labels(),
            r.placeholder_text() == self.placeholder_text(),
            r.select_callback() == self.select_callback(),
            r.is_disabled() == self.is_disabled(),
            r.colors() == (self.colors().0, color, self.colors().2),
    {
        let mut s = self;
        s.text_color = color;
        s
    }

    /// Sets a custom border color.
    pub fn border_color(self, color: Color) -> (r: Self)
        ensures
            r.selection() == self.selection(),
            r.option_labels() == self.option_labels(),
            r.placeholder_text() == self.placeholder_text(),
            r.select_callback() == self.select_callback(),
            r.is_disabled() == self.is_disabled(),
            r.colors() == (self.colors().0, self.colors().1, color),
    {
        let mut s = self;
        s.border_color = color;
        s
    }

    /// Disables or enables the dropdown.
    pub fn disabled(self, disabled: bool) -> (r: Self)
        ensures
            r.selection() == self.selection(),
            r.option_labels() == self.option_labels(),
            r.placeholder_text() == self.placeholder_text(),
            r.select_callback() == self.select_callback(),
            r.is_disabled() == disabled,
            r.colors() == self.colors(),
    {
        let mut s = self;
        s.disabled = disabled;
        s
    }
}

/// A key, as a dropdown tells keys apart.
#[derive(Clone, Copy, Debug, PartialEq, Eq, Structural)]
pub enum DropdownKey {
    Space,
    Enter,
    Escape,
    ArrowDown,
    ArrowUp,
    Other,
}

/// An event, as far as a dropdown goes.
#[derive(Clone, Copy, Debug, PartialEq, Eq, Structural)]
pub enum DropdownInput {
    /// The cursor moved.
    CursorMoved,
    /// A mouse button went down: on the trigger (`hit_trigger`), on the first option item
    /// under the cursor (`hit_item`), or elsewhere.
    MousePress { hit_trigger: bool, hit_item: Option<usize> },
    /// A key went down (`pressed`) or up while the dropdown has the focus or not.
    Key { focused: bool, pressed: bool, key: DropdownKey },
    /// Any other event.
    Other,
}

/// What a dropdown does with its menu.
#[derive(Clone, Copy, Debug, PartialEq, Eq, Structural)]
pub enum MenuChange {
    Keep,
    /// Show the menu and turn the arrow up.
    Open,
    /// Hide the menu and turn the arrow down.
    Close,
}

/// How a dropdown answers an event.
#[derive(Clone, Copy, Debug, PartialEq, Eq, Structural)]
pub struct DropdownOutcome {
    pub result: EventResult,
    /// The option chosen: the dropdown emits its select message for it, if set.
    pub select: Option<usize>,
    pub menu: MenuChange,
    pub request_focus: bool,
    /// The option items are recoloured for the cursor.
    pub restyle_items: bool,
}

/// An outcome with `result` and nothing else.
pub open spec fn quiet(result: EventResult) -> DropdownOutcome {
    DropdownOutcome { result, select: None, menu: MenuChange::Keep, request_focus: false, restyle_items: false }
}

/// The menu change that toggles a menu that is `open` or not.
pub open spec fn toggled(open: bool) -> MenuChange {
    if open {
        MenuChange::Close
    } else {
        MenuChange::Open
    }
}

/// The next openness of a dropdown whose menu is `open`, and its answer to `input`, when
/// `disabled` or not, with `selected` chosen among `n` options.
pub open spec fn dropdown_next(
    disabled: bool,
    open: bool,
    selected: Option<usize>,
    n: nat,
    input: DropdownInput,
) -> (bool, DropdownOutcome) {
    if disabled {
        (open, quiet(EventResult::Ignored))
    } else {
        match input {
            DropdownInput::CursorMoved => (open, DropdownOutcome { restyle_items: open, ..quiet(EventResult::Ignored) }),
            DropdownInput::MousePress { hit_trigger, hit_item } => if hit_trigger {
                (!open, DropdownOutcome { menu: toggled(open), request_focus: true, ..quiet(EventResult::Handled) })
            } else if open {
                (false, DropdownOutcome { menu: MenuChange::Close, select: hit_item, ..quiet(EventResult::Handled) })
            } else {
                (open, quiet(EventResult::Ignored))
            },
            DropdownInput::Key { focused, pressed, key } => if !(focused && pressed) {
                (open, quiet(EventResult::Ignored))
            } else {
                match key {
                    DropdownKey::Space | DropdownKey::Enter => (
                        !open,
                        DropdownOutcome { menu: toggled(open), ..quiet(EventResult::Handled) },
                    ),
                    DropdownKey::Escape => if open {
                        (false, DropdownOutcome { menu: MenuChange::Close, ..quiet(EventResult::Handled) })
                    } else {
                        (open, quiet(EventResult::Ignored))
                    },
                    DropdownKey::ArrowDown => if open {
                        (
                            open,
                            DropdownOutcome {
                                select: match selected {
                                    Some(i) => if i + 1 < n {
                                        Some((i + 1) as usize)
                                    } else {
                                        None
                                    },
                                    None => if n > 0 {
                                        Some(0usize)
                                    } else {
                                        None
                                    },
                                },
                                ..quiet(EventResult::Handled)
                            },
                        )
                    } else {
                        (open, quiet(EventResult::Ignored))
                    },
                    DropdownKey::ArrowUp => if open {
                        (
                            open,
                            DropdownOutcome {
                                select: match selected {
                                    Some(i) => if i > 0 {
                                        Some((i - 1) as usize)
                                    } else {
                                        None
                                    },
                                    None => None,
                                },
                                ..quiet(EventResult::Handled)
                            },
                        )
                    } else {
                        (open, quiet(EventResult::Ignored))
                    },
                    DropdownKey::Other => (open, quiet(EventResult::Ignored)),
                }
            },
            DropdownInput::Other => (open, quiet(EventResult::Ignored)),
        }
    }
}

/// How an option item is highlighted while the menu is open.
#[derive(Clone, Copy, Debug, PartialEq, Eq, Structural)]
pub enum ItemHighlight {
    Selected,
    Hovered,
    Plain,
}

impl<Msg, F> Dropdown<Msg, F> {
    /// Decides how this dropdown answers `input` while its menu is `open` or not, and
    /// whether the menu is open afterwards.
    pub fn menu_step(&self, open: bool, input: DropdownInput) -> (r: (bool, DropdownOutcome))
        ensures
            r == dropdown_next(self.is_disabled(), open, self.selection(), self.option_labels().len(), input),
    {
        let ignored = DropdownOutcome {
            result: EventResult::Ignored,
            select: None,
            menu: MenuChange::Keep,
            request_focus: false,
            restyle_items: false,
        };
        let handled = DropdownOutcome { result: EventResult::Handled, ..ignored };
        let toggle = if open {
            MenuChange::Close
        } else {
            MenuChange::Open
        };
        if self.disabled {
            return (open, ignored);
        }
        match input {
            DropdownInput::CursorMoved => (open, DropdownOutcome { restyle_items: open, ..ignored }),
            DropdownInput::MousePress { hit_trigger, hit_item } => {
                if hit_trigger {
                    (!open, DropdownOutcome { menu: toggle, request_focus: true, ..handled })
                } else if open {
                    (false, DropdownOutcome { menu: MenuChange::Close, select: hit_item, ..handled })
                } else {
                    (open, ignored)
                }
            },
            DropdownInput::Key { focused, pressed, key } => {
                if !(focused && pressed) {
                    return (open, ignored);
                }
                match key {
                    DropdownKey::Space | DropdownKey::Enter => (!open, DropdownOutcome { menu: toggle, ..handled }),
                    DropdownKey::Escape => {
                        if open {
                            (false, DropdownOutcome { menu: MenuChange::Close, ..handled })
                        } else {
                            (open, ignored)
                        }
                    },
                    DropdownKey::ArrowDown => {
                        if open {
                            let n = self.options.len();
                            let select = match self.selected_index {
                                Some(i) => if i < n && i + 1 < n {
                                    Some(i + 1)
                                } else {
                                    None
                                },
                                None => if n > 0 {
                                    Some(0)
                                } else {
                                    None
                                },
                            };
                            (open, DropdownOutcome { select, ..handled })
                        } else {
                            (open, ignored)
                        }
                    },
                    DropdownKey::ArrowUp => {
                        if open {
                            let select = match self.selected_index {
                                Some(i) => if i > 0 {
                                    Some(i - 1)
                                } else {
                                    None
                                },
                                None => None,
                            };
                            (open, DropdownOutcome { select, ..handled })
                        } else {
                            (open, ignored)
                        }
                    },
                    DropdownKey::Other => (open, ignored),
                }
            },
            DropdownInput::Other => (open, ignored),
        }
    }

    /// How option `i` is highlighted while the menu is open: the selected option stands
    /// out, then the option under the cursor (`hovered`).
    pub fn item_highlight(&self, i: usize, hovered: bool) -> (r: ItemHighlight)
        ensures
            r == if self.selection() == Some(i) {
                ItemHighlight::Selected
            } else if hovered {
                ItemHighlight::Hovered
            } else {
                ItemHighlight::Plain
            },
    {
        let selected = match self.selected_index {
            Some(s) => s == i,
            None => false,
        };
        if selected {
            ItemHighlight::Selected
        } else if hovered {
            ItemHighlight::Hovered
        } else {
            ItemHighlight::Plain
        }
    }

    /// Whether the dropdown's background is dark (each channel below 100), which picks the
    /// highlight colours of its items.
    pub fn has_dark_background(&self) -> (r: bool)
        ensures
            r == (self.colors().0.r < 100 && self.colors().0.g < 100 && self.colors().0.b < 100),
    {
        self.bg_color.r < 100 && self.bg_color.g < 100 && self.bg_color.b < 100
    }
}

/// The colors of the selected option in the open menu.
#[derive(Clone, Copy, Debug, PartialEq, Eq, Structural)]
pub struct SelectionColors {
    pub background: Color,
    pub text: Color,
}

impl<Msg, F> Dropdown<Msg, F> {
    /// The text the trigger shows: the selected option, or the placeholder while no
    /// option is selected or the selection is past the options.
    pub fn trigger_text(&self) -> (r: &str)
        ensures
            r@ == match self.selection() {
                Some(i) => if i < self.option_labels().len() {
                    self.option_labels()[i as int]@
                } else {
                    self.placeholder_text()
                },
                None => self.placeholder_text(),
            },
    {
        match self.selected_index {
            Some(i) => if i < self.options.len() {
                self.options[i].as_str()
            } else {
                self.placeholder.as_str()
            },
            None => self.placeholder.as_str(),
        }
    }

    /// The colors of the selected option in the open menu: a translucent blue on a dark
    /// background, a pale blue with darker text on a light one.
    pub fn selection_colors(&self) -> (r: SelectionColors)
        ensures
            r == if self.colors().0.r < 100 && self.colors().0.g < 100 && self.colors().0.b < 100 {
                SelectionColors {
                    background: Color { r: 59, g: 130, b: 246, a: 60 },
                    text: Color { r: 96, g: 165, b: 250, a: 255 },
                }
            } else {
                SelectionColors {
                    background: Color { r: 239, g: 246, b: 255, a: 255 },
                    text: Color { r: 37, g: 99, b: 235, a: 255 },
                }
            },
    {
        if self.has_dark_background() {
            SelectionColors { background: Color::new(59, 130, 246, 60), text: Color::new(96, 165, 250, 255) }
        } else {
            SelectionColors { background: Color::new(239, 246, 255, 255), text: Color::new(37, 99, 235, 255) }
        }
    }
}

/// The option lists `a` and `b` hold the same texts, in the same order.
pub open spec fn same_options(a: Seq<String>, b: Seq<String>) -> bool {
    a.len() == b.len() && forall|i: int| 0 <= i < a.len() ==> (#[trigger] a[i])@ == b[i]@
}

/// What a rebuild updates in a dropdown.
#[derive(Clone, Copy, Debug, PartialEq, Eq, Structural)]
pub struct DropdownRefresh {
    /// The trigger's and the menu's background and border are set again.
    pub frame: bool,
    /// The trigger's text and the items' texts and highlights are set again.
    pub texts: bool,
}

impl<Msg, F> Dropdown<Msg, F> {
    /// What rebuilding from the previous dropdown `prev` updates: the frame when the
    /// background or border color changed, the texts when the selection, the options or
    /// the text color changed.
    pub fn refresh<G>(&self, prev: &Dropdown<Msg, G>) -> (r: DropdownRefresh)
        ensures
            r.frame == (self.colors().0 != prev.colors().0 || self.colors().2 != prev.colors().2),
            r.texts == (self.selection() != prev.selection() || !same_options(
                self.option_labels(),
                prev.option_labels(),
            ) || self.colors().1 != prev.colors().1),
    {
        let frame = self.bg_color != prev.bg_color || self.border_color != prev.border_color;
        let texts = self.selected_index != prev.selected_index || !options_match(&self.options, &prev.options)
            || self.text_color != prev.text_color;
        DropdownRefresh { frame, texts }
    }
}

/// Whether two option lists hold the same texts in the same order.
fn options_match(a: &Vec<String>, b: &Vec<String>) -> (r: bool)
    ensures
        r == same_options(a@, b@),
{
    if a.len() != b.len() {
        return false;
    }
    let mut i: usize = 0;
    while i < a.len()
        invariant
            a@.len() == b@.len(),
            i <= a@.len(),
            forall|j: int| 0 <= j < i ==> (#[trigger] a@[j])@ == b@[j]@,
        decreases a@.len() - i,
    {
        if !same_text(a[i].as_str(), b[i].as_str()) {
            return false;
        }
        i += 1;
    }
    true
}

/// The arrow keys never choose an option outside the list: a chosen option is always one
/// of the `n` options, next to the selected one.
pub proof fn law_arrow_keys_stay_in_list(disabled: bool, selected: Option<usize>, n: nat, down: bool)
    requires
        n <= usize::MAX,
        selected matches Some(i) ==> i < n,
    ensures
        ({
            let key = if down {
                DropdownKey::ArrowDown
            } else {
                DropdownKey::ArrowUp
            };
            let (open, out) = dropdown_next(disabled, true, selected, n, DropdownInput::Key { focused: true, pressed: true, key });
            &&& open
            &&& out.select matches Some(j) ==> j < n && (selected matches Some(i) ==> (j == i + 1 || j + 1 == i))
        }),
{
}

/// Escape pressed on a focused, enabled dropdown whose menu is open closes the menu and
/// handles the event, whatever is selected and however many options there are; nothing
/// is chosen.
pub proof fn law_escape_closes_open_menu(selected: Option<usize>, n: nat)
    ensures
        ({
            let (open, out) = dropdown_next(
                false,
                true,
                selected,
                n,
                DropdownInput::Key { focused: true, pressed: true, key: DropdownKey::Escape },
            );
            &&& !open
            &&& out.menu == MenuChange::Close
            &&& out.result == EventResult::Handled
            &&& out.select is None
        }),
{
}

/// The menu change a dropdown reports agrees with whether its menu is open afterwards:
/// opening leaves it open, closing leaves it closed, and otherwise it stays as it was.
/// Any change of the menu is a handled event, and a disabled dropdown never changes it.
pub proof fn law_menu_change_matches_state(
    disabled: bool,
    open: bool,
    selected: Option<usize>,
    n: nat,
    input: DropdownInput,
)
    ensures
        ({
            let (after, out) = dropdown_next(disabled, open, selected, n, input);
            &&& out.menu == MenuChange::Open ==> after && !open
            &&& out.menu == MenuChange::Close ==> !after && open
            &&& out.menu == MenuChange::Keep ==> after == open
            &&& out.menu != MenuChange::Keep ==> out.result == EventResult::Handled
            &&& disabled ==> out.menu == MenuChange::Keep && after == open
        }),
{
}

} // verus!
