//! A toolkit-independent display tree: a column of text nodes and buttons.
use vstd::prelude::*;

use crate::message::Message;

verus! {

/// One node of a display tree.
#[derive(Clone, Debug, PartialEq, Eq)]
pub enum Widget {
    /// A static text node.
    Text(String),
    /// A button with its label and the message it emits when pressed.
    Button(String, Message),
}

/// The mathematical model of a `Widget`: its strings as character sequences.
pub enum WidgetModel {
    Text(Seq<char>),
    Button(Seq<char>, Message),
}

impl View for Widget {
    type V = WidgetModel;

    open spec fn view(&self) -> WidgetModel {
        match self {
            Widget::Text(s) => WidgetModel::Text(s@),
            Widget::Button(label, m) => WidgetModel::Button(label@, *m),
        }
    }
}

/// The number of buttons among `s`.
pub open spec fn button_count(s: Seq<WidgetModel>) -> nat
    decreases s.len(),
{
    if s.len() == 0 {
        0
    } else {
        button_count(s.drop_last()) + if s.last() is Button {
            1nat
        } else {
            0nat
        }
    }
}

impl Widget {
    /// A text node holding `s`.
    pub fn text(s: &str) -> (r: Widget)
        ensures
            r@ == WidgetModel::Text(s@),
    {
        Widget::Text(s.to_owned())
    }

    /// A button labelled `label` that emits `on_press`.
    pub fn button(label: &str, on_press: Message) -> (r: Widget)
        ensures
            r@ == WidgetModel::Button(label@, on_press),
    {
        Widget::Button(label.to_owned(), on_press)
    }

    pub fn is_button(&self) -> (r: bool)
        ensures
            r == (self@ is Button),
    {
        match self {
            Widget::Button(_, _) => true,
            Widget::Text(_) => false,
        }
    }
}

/// A display tree: widgets laid out top to bottom.
#[derive(Clone, Debug, PartialEq, Eq)]
pub struct DisplayTree {
    pub children: Vec<Widget>,
}

impl View for DisplayTree {
    type V = Seq<WidgetModel>;

    open spec fn view(&self) -> Seq<WidgetModel> {
        self.children@.map_values(|w: Widget| w@)
    }
}

impl DisplayTree {
    /// The number of buttons in the tree.
    pub fn button_count(&self) -> (r: usize)
        ensures
            r == button_count(self@),
    {
        let mut count: usize = 0;
        let mut i: usize = 0;
        while i < self.children.len()
            invariant
                i <= self.children@.len(),
                count <= i,
                count == button_count(self@.take(i as int)),
            decreases self.children@.len() - i,
        {
            assert(self@.take(i + 1).drop_last() == self@.take(i as int));
            if self.children[i].is_button() {
                count = count + 1;
            }
            i = i + 1;
        }
        assert(self@.take(i as int) == self@);
        count
    }
}

} // verus!
