use vstd::prelude::*;

verus! {

/// The order in which a matrix buffer stores its elements.
///
/// Every LAPACKE routine takes the layout as its first argument, as an integer:
/// `RowMajor` is 101 and `ColumnMajor` is 102. No other integer is a layout.
#[derive(Clone, Copy, Debug, PartialEq, Eq, Structural)]
pub enum Layout {
    RowMajor,
    ColumnMajor,
}

/// The integer by which LAPACKE knows a layout.
pub open spec fn layout_code(l: Layout) -> i32 {
    match l {
        Layout::RowMajor => 101,
        Layout::ColumnMajor => 102,
    }
}

/// The layout that LAPACKE knows by `code`, if there is one.
pub open spec fn layout_of_code(code: i32) -> Option<Layout> {
    if code == 101 {
        Some(Layout::RowMajor)
    } else if code == 102 {
        Some(Layout::ColumnMajor)
    } else {
        None
    }
}

impl Layout {
    /// Decodes an integer that LAPACKE uses for a layout; any other value has no layout.
    pub fn from_code(code: i32) -> (r: Option<Layout>)
        ensures
            r == layout_of_code(code),
    {
        if code == 101 {
            Some(Layout::RowMajor)
        } else if code == 102 {
            Some(Layout::ColumnMajor)
        } else {
            None
        }
    }
}

impl From<Layout> for i32 {
    fn from(value: Layout) -> (r: i32)
        ensures
            r == layout_code(value),
    {
        match value {
            Layout::RowMajor => 101,
            Layout::ColumnMajor => 102,
        }
    }
}

impl vstd::std_specs::convert::FromSpecImpl<Layout> for i32 {
    open spec fn obeys_from_spec() -> bool {
        true
    }

    open spec fn from_spec(v: Layout) -> i32 {
        layout_code(v)
    }
}

/// Every layout is encoded as 101 or 102, row-major as 101 and column-major as 102,
/// so the two layouts never share a code.
pub proof fn lemma_layout_codes(l: Layout, m: Layout)
    ensures
        layout_code(l) == 101 || layout_code(l) == 102,
        layout_code(l) == 101 <==> l == Layout::RowMajor,
        layout_code(l) == 102 <==> l == Layout::ColumnMajor,
        layout_code(l) == layout_code(m) <==> l == m,
{
}

/// Decoding the code of a layout gives back that layout, and a code that decodes
/// to a layout is that layout's code.
pub proof fn lemma_layout_round_trip(l: Layout, code: i32)
    ensures
        layout_of_code(layout_code(l)) == Some(l),
        layout_of_code(code) == Some(l) <==> layout_code(l) == code,
        layout_of_code(code) is None <==> code != 101 && code != 102,
{
}

} // verus!
