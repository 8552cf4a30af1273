//! Value bundles that carry multi-field callback and setter arguments
//! through a stream.

use vstd::pervasive::cloned;
use vstd::prelude::*;

verus! {

/// Box packing arguments.
#[derive(Debug, PartialEq)]
pub struct PackArgs<W> {
    pub child: W,
    pub expand: bool,
    pub fill: bool,
    pub padding: u32,
}

impl<W: Clone> Clone for PackArgs<W> {
    /// A copy with a clone of the child and the same flags and padding.
    fn clone(&self) -> (copy: Self)
        ensures
            cloned(self.child, copy.child),
            copy.expand == self.expand,
            copy.fill == self.fill,
            copy.padding == self.padding,
    {
        PackArgs {
            child: self.child.clone(),
            expand: self.expand,
            fill: self.fill,
            padding: self.padding,
        }
    }
}

/// State of a toggleable item.
#[derive(Debug, Clone, Copy, PartialEq, Eq, Structural, Hash)]
pub struct ToggleState {
    pub active: bool,
    pub inconsistent: bool,
}

impl Default for ToggleState {
    /// Neither active nor inconsistent.
    fn default() -> (state: Self)
        ensures
            state == (ToggleState { active: false, inconsistent: false }),
    {
        ToggleState { active: false, inconsistent: false }
    }
}

/// Child widget and cell placement inside a grid.
#[derive(Debug, PartialEq)]
pub struct GridArgs<W> {
    pub child: W,
    pub left: i32,
    pub top: i32,
    pub width: i32,
    pub height: i32,
}

impl<W: Clone> Clone for GridArgs<W> {
    /// A copy with a clone of the child and the same placement.
    fn clone(&self) -> (copy: Self)
        ensures
            cloned(self.child, copy.child),
            copy.left == self.left,
            copy.top == self.top,
            copy.width == self.width,
            copy.height == self.height,
    {
        GridArgs {
            child: self.child.clone(),
            left: self.left,
            top: self.top,
            width: self.width,
            height: self.height,
        }
    }
}

/// Notebook child widget and page number.
#[derive(Debug, PartialEq)]
pub struct NotebookPage<W> {
    pub child: W,
    pub page_num: u32,
}

impl<W: Clone> Clone for NotebookPage<W> {
    /// A copy with a clone of the child and the same page number.
    fn clone(&self) -> (copy: Self)
        ensures
            cloned(self.child, copy.child),
            copy.page_num == self.page_num,
    {
        NotebookPage { child: self.child.clone(), page_num: self.page_num }
    }
}

/// Value of a range widget: the kind of scroll that changed it, and the
/// new value.
#[derive(Debug, Copy, PartialEq)]
pub struct RangeValue<S, V> {
    pub scroll: S,
    pub value: V,
}

impl<S: Clone, V: Clone> Clone for RangeValue<S, V> {
    /// A copy with clones of both fields.
    fn clone(&self) -> (copy: Self)
        ensures
            cloned(self.scroll, copy.scroll),
            cloned(self.value, copy.value),
    {
        RangeValue { scroll: self.scroll.clone(), value: self.value.clone() }
    }
}

} // verus!
