//! Execution traces: columns of field elements with the shape that the STARK prover accepts
//! (one to 255 columns of equal length, the length a power of two between 8 and 2^32).

use vstd::prelude::*;
use crate::field::is_felt;
use crate::fib::is_power_of_two;

verus! {

/// Largest number of columns of a trace.
pub const MAX_TRACE_WIDTH: usize = 255;

/// Smallest number of rows of a trace.
pub const MIN_TRACE_LENGTH: usize = 8;

/// Largest number of rows of a trace: the two-adicity of the field bounds it by 2^32.
pub const MAX_TRACE_LENGTH: u64 = 0x1_0000_0000u64;

/// The columns form a valid execution trace.
pub open spec fn is_valid_trace(cols: Seq<Seq<u64>>) -> bool {
    &&& 1 <= cols.len() <= MAX_TRACE_WIDTH
    &&& MIN_TRACE_LENGTH <= cols[0].len() <= MAX_TRACE_LENGTH
    &&& is_power_of_two(cols[0].len())
    &&& forall|c: int| 0 <= c < cols.len() ==> #[trigger] cols[c].len() == cols[0].len()
    &&& forall|c: int, s: int|
        0 <= c < cols.len() && 0 <= s < cols[c].len() ==> is_felt(#[trigger] cols[c][s])
}

/// The mathematical columns held by a vector of column vectors.
pub open spec fn columns_view(columns: Seq<Vec<u64>>) -> Seq<Seq<u64>> {
    columns.map_values(|c: Vec<u64>| c@)
}

/// Tells whether `n` is a power of two.
pub fn usize_is_power_of_two(n: usize) -> (r: bool)
    ensures
        r == is_power_of_two(n as nat),
{
    if n == 0 {
        return false;
    }
    let mut m: usize = n;
    while m > 1
        invariant
            m >= 1,
            is_power_of_two(n as nat) == is_power_of_two(m as nat),
        decreases m,
    {
        if m % 2 != 0 {
            return false;
        }
        m = m / 2;
    }
    true
}

/// An execution trace: a list of columns of canonical field elements.
pub struct ExecutionTrace {
    columns: Vec<Vec<u64>>,
}

impl View for ExecutionTrace {
    type V = Seq<Seq<u64>>;

    closed spec fn view(&self) -> Seq<Seq<u64>> {
        columns_view(self.columns@)
    }
}

impl ExecutionTrace {
    #[verifier::type_invariant]
    spec fn well_formed(self) -> bool {
        is_valid_trace(columns_view(self.columns@))
    }

    /// Builds a trace from its columns; `None` when they do not form a valid trace.
    pub fn from_columns(columns: Vec<Vec<u64>>) -> (r: Option<ExecutionTrace>)
        ensures
            r is Some <==> is_valid_trace(columns_view(columns@)),
            r matches Some(t) ==> t@ == columns_view(columns@),
    {
        let ghost cols = columns_view(columns@);
        let width: usize = columns.len();
        if width == 0 || width > MAX_TRACE_WIDTH {
            return None;
        }
        let length: usize = columns[0].len();
        if length < MIN_TRACE_LENGTH || length as u64 > MAX_TRACE_LENGTH || !usize_is_power_of_two(length) {
            return None;
        }
        let mut c: usize = 0;
        while c < width
            invariant
                width == columns@.len(),
                cols == columns_view(columns@),
                length == cols[0].len(),
                c <= width,
                forall|k: int| 0 <= k < c ==> #[trigger] cols[k].len() == length,
                forall|k: int, s: int|
                    0 <= k < c && 0 <= s < cols[k].len() ==> is_felt(#[trigger] cols[k][s]),
            decreases width - c,
        {
            let column: &Vec<u64> = &columns[c];
            if column.len() != length {
                assert(cols[c as int].len() != cols[0].len());
                return None;
            }
            let mut s: usize = 0;
            while s < length
                invariant
                    cols == columns_view(columns@),
                    c < width,
                    width == columns@.len(),
                    column@ == cols[c as int],
                    column@.len() == length,
                    s <= length,
                    forall|t: int| 0 <= t < s ==> is_felt(#[trigger] cols[c as int][t]),
                decreases length - s,
            {
                if !(column[s] < crate::field::MODULUS) {
                    assert(!is_felt(cols[c as int][s as int]));
                    return None;
                }
                s = s + 1;
            }
            c = c + 1;
        }
        Some(ExecutionTrace { columns })
    }

    /// Number of columns.
    pub fn width(&self) -> (r: usize)
        ensures
            r == self@.len(),
            is_valid_trace(self@),
    {
        proof {
            use_type_invariant(self);
        }
        self.columns.len()
    }

    /// Number of rows.
    pub fn length(&self) -> (r: usize)
        ensures
            r == self@[0].len(),
            is_valid_trace(self@),
    {
        proof {
            use_type_invariant(self);
        }
        self.columns[0].len()
    }

    /// The value in the given column at the given step.
    pub fn get(&self, column: usize, step: usize) -> (r: u64)
        requires
            column < self@.len(),
            step < self@[column as int].len(),
        ensures
            r == self@[column as int][step as int],
    {
        self.columns[column][step]
    }

    /// Hands out the columns.
    pub fn into_columns(self) -> (r: Vec<Vec<u64>>)
        ensures
            columns_view(r@) == self@,
            is_valid_trace(self@),
    {
        proof {
            use_type_invariant(&self);
        }
        self.columns
    }
}

} // verus!
