//! The box inside a box: the core list of the cpu box and the statistics
//! of the network box.
use vstd::prelude::*;

verus! {

/// What an inner box holds, as plain values.
pub struct SubView {
    pub box_columns: u32,
    pub column_size: u32,
    pub box_width: u32,
    pub box_height: u32,
    pub box_x: u32,
    pub box_y: u32,
}

/// An inner box: its place and size, and for the core list its number of
/// columns and the size class of a column.
pub struct SubBox {
    box_columns: u32,
    column_size: u32,
    box_width: u32,
    box_height: u32,
    box_x: u32,
    box_y: u32,
}

impl View for SubBox {
    type V = SubView;

    closed spec fn view(&self) -> SubView {
        SubView {
            box_columns: self.box_columns,
            column_size: self.column_size,
            box_width: self.box_width,
            box_height: self.box_height,
            box_x: self.box_x,
            box_y: self.box_y,
        }
    }
}

impl SubBox {
    /// The view of a fresh inner box.
    pub open spec fn new_view() -> SubView {
        SubView { box_columns: 0, column_size: 0, box_width: 0, box_height: 0, box_x: 0, box_y: 0 }
    }

    /// An inner box with every size and place zero.
    pub fn new() -> (b: Self)
        ensures
            b@ == (SubView { box_columns: 0, column_size: 0, box_width: 0, box_height: 0, box_x: 0, box_y: 0 }),
    {
        SubBox { box_columns: 0, column_size: 0, box_width: 0, box_height: 0, box_x: 0, box_y: 0 }
    }

    /// A copy of the inner box.
    pub fn dup(&self) -> (b: Self)
        ensures
            b@ == self@,
    {
        SubBox {
            box_columns: self.box_columns,
            column_size: self.column_size,
            box_width: self.box_width,
            box_height: self.box_height,
            box_x: self.box_x,
            box_y: self.box_y,
        }
    }

    pub fn get_box_columns(&self) -> (r: u32)
        ensures
            r == self@.box_columns,
    {
        self.box_columns
    }

    pub fn set_box_columns(&mut self, box_columns: u32)
        ensures
            final(self)@ == (SubView { box_columns: box_columns, ..old(self)@ }),
    {
        self.box_columns = box_columns;
    }

    pub fn get_column_size(&self) -> (r: u32)
        ensures
            r == self@.column_size,
    {
        self.column_size
    }

    pub fn set_column_size(&mut self, column_size: u32)
        ensures
            final(self)@ == (SubView { column_size: column_size, ..old(self)@ }),
    {
        self.column_size = column_size;
    }

    pub fn get_box_width(&self) -> (r: u32)
        ensures
            r == self@.box_width,
    {
        self.box_width
    }

    pub fn set_box_width(&mut self, box_width: u32)
        ensures
            final(self)@ == (SubView { box_width: box_width, ..old(self)@ }),
    {
        self.box_width = box_width;
    }

    pub fn get_box_height(&self) -> (r: u32)
        ensures
            r == self@.box_height,
    {
        self.box_height
    }

    pub fn set_box_height(&mut self, box_height: u32)
        ensures
            final(self)@ == (SubView { box_height: box_height, ..old(self)@ }),
    {
        self.box_height = box_height;
    }

    pub fn get_box_x(&self) -> (r: u32)
        ensures
            r == self@.box_x,
    {
        self.box_x
    }

    pub fn set_box_x(&mut self, box_x: u32)
        ensures
            final(self)@ == (SubView { box_x: box_x, ..old(self)@ }),
    {
        self.box_x = box_x;
    }

    pub fn get_box_y(&self) -> (r: u32)
        ensures
            r == self@.box_y,
    {
        self.box_y
    }

    pub fn set_box_y(&mut self, box_y: u32)
        ensures
            final(self)@ == (SubView { box_y: box_y, ..old(self)@ }),
    {
        self.box_y = box_y;
    }
}

} // verus!
