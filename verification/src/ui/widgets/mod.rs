//! Widgets and the headless state machines that drive them.
use std::marker::PhantomData;

use vstd::prelude::*;

pub mod async_image;
pub mod badge;
pub mod button;
pub mod canvas;
pub mod checkbox;
pub mod divider;
pub mod dropdown;
pub mod editor;
pub mod editor_laws;
pub mod input_text;
pub mod press;
pub mod radio;
pub mod rich_text;
pub mod scroll_view;
pub mod switch;
pub mod text_input;
pub mod utf8;

verus! {

/// Calls `ToString::to_string` on `label`; what the text is depends on the label's
/// `Display` implementation, which the contract does not describe.
#[verifier::external_body]
pub(crate) fn label_string<S: ToString>(label: S) -> String {
    label.to_string()
}

/// Calls `Into::<String>::into` on `text`: the result is what that conversion returns,
/// whose text the contract does not describe.
#[verifier::external_body]
pub(crate) fn into_string<S: Into<String>>(text: S) -> (r: String)
    ensures
        call_ensures(S::into, (text,), r),
{
    text.into()
}

/// The text of an optional label, as characters.
pub open spec fn label_view(label: Option<String>) -> Option<Seq<char>> {
    match label {
        Some(s) => Some(s@),
        None => None,
    }
}

/// Whether two optional labels differ: one is missing and the other not, or their texts
/// differ.
pub fn labels_differ(a: &Option<String>, b: &Option<String>) -> (r: bool)
    ensures
        r == (label_view(*a) != label_view(*b)),
{
    match (a, b) {
        (Some(x), Some(y)) => !utf8::same_text(x.as_str(), y.as_str()),
        (None, None) => false,
        _ => true,
    }
}

/// What a rebuild updates in a checkbox or a radio button.
#[derive(Clone, Copy, Debug, PartialEq, Eq, Structural)]
pub struct ToggleRefresh {
    /// The box or circle is restyled for its state and colors.
    pub restyle: bool,
    /// The label's text and style are set again.
    pub relabel: bool,
    /// The accessibility description (state, enabled, label) is published again.
    pub reannounce: bool,
}

/// The callback type of a widget whose callback has not been set.
#[derive(Clone, Copy, Debug, PartialEq, Eq)]
pub struct NoCallback;

/// A simple widget that displays a string of text.
pub struct Text<Msg> {
    pub(crate) label: String,
    _marker: PhantomData<Msg>,
}

impl<Msg> Text<Msg> {
    /// The displayed text.
    pub closed spec fn label_text(&self) -> Seq<char> {
        self.label@
    }
}

/// Creates a new `Text` widget displaying the provided label.
pub fn text<S: ToString, Msg>(label: S) -> (r: Text<Msg>) {
    Text { label: label_string(label), _marker: PhantomData }
}

/// The main axis along which a container lays out its children.
#[derive(Clone, Copy, Debug, PartialEq, Eq, Structural)]
pub enum LayoutDirection {
    /// Children stack horizontally, from left to right.
    Row,
    /// Children stack vertically, from top to bottom.
    Column,
}

/// A generic layout container that groups a sequence of children widgets. Without a
/// direction its layout is left to its style; `column` and `row` set one.
pub struct Container<Children> {
    pub(crate) children: Children,
    pub(crate) direction: Option<LayoutDirection>,
}

impl<Children> Container<Children> {
    /// The grouped children.
    pub closed spec fn members(&self) -> Children {
        self.children
    }

    /// The direction the container lays its children out in, if it sets one.
    pub closed spec fn layout(&self) -> Option<LayoutDirection> {
        self.direction
    }
}

/// Creates a new `Container` widget with the given children and no flex direction.
pub fn container<Children>(children: Children) -> (r: Container<Children>)
    ensures
        r.members() == children,
        r.layout() is None,
{
    Container { children, direction: None }
}

/// Creates a vertical layout container: its children stack from top to bottom.
pub fn column<Children>(children: Children) -> (r: Container<Children>)
    ensures
        r.members() == children,
        r.layout() == Some(LayoutDirection::Column),
{
    Container { children, direction: Some(LayoutDirection::Column) }
}

/// Creates a horizontal layout container: its children stack from left to right.
pub fn row<Children>(children: Children) -> (r: Container<Children>)
    ensures
        r.members() == children,
        r.layout() == Some(LayoutDirection::Row),
{
    Container { children, direction: Some(LayoutDirection::Row) }
}

} // verus!
