use vstd::prelude::*;

verus! {

/// The number of terminal columns that `text` takes up when it is shown,
/// escape sequences left out.
pub uninterp spec fn display_width(text: Seq<char>) -> nat;

/// Measures `text` with `console::measure_text_width`. The result is the
/// display width of the text, a function of the text alone.
#[verifier::external_body]
pub(crate) fn text_width(text: &str) -> (width: usize)
    ensures
        width == display_width(text@),
{
    console::measure_text_width(text)
}

/// The columns of the terminal at the time of rendering, where they are
/// known.
#[derive(Debug, Clone, Copy, PartialEq, Eq)]
pub struct RenderBudget {
    pub columns: Option<usize>,
}

impl RenderBudget {
    /// The columns left for a value after `reserve` columns are taken by
    /// what stands before it; unknown where the terminal's width is.
    pub open spec fn spec_remaining(self, reserve: nat) -> Option<usize> {
        match self.columns {
            Some(columns) => Some(
                if columns >= reserve {
                    (columns - reserve) as usize
                } else {
                    0usize
                },
            ),
            None => None,
        }
    }

    /// The budget of a terminal that is `columns` wide.
    pub fn known(columns: usize) -> (out: RenderBudget)
        ensures
            out.columns == Some(columns),
    {
        RenderBudget { columns: Some(columns) }
    }

    /// The budget of an output whose width cannot be determined.
    pub fn unknown() -> (out: RenderBudget)
        ensures
            out.columns.is_none(),
    {
        RenderBudget { columns: None }
    }

    /// The columns left for a value after `reserve` columns are taken by
    /// what stands before it; unknown where the terminal's width is.
    pub fn remaining(&self, reserve: usize) -> (out: Option<usize>)
        ensures
            out == self.spec_remaining(reserve as nat),
    {
        match self.columns {
            Some(columns) => Some(
                if columns >= reserve {
                    columns - reserve
                } else {
                    0
                },
            ),
            None => None,
        }
    }
}

} // verus!
