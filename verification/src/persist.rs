//! The layout of a saved model: a list of named tensors, each with its
//! number of rows and columns and its data.
//!
//! What is decided here is which parameter of a model a named tensor is, and
//! whether an entry of the list is complete.  Reading the file and building
//! the tensors is left to the caller.

use vstd::prelude::*;
use vstd::string::*;
use crate::text::str_eq;

verus! {

/// A parameter of a linear model.
#[derive(Clone, Copy, Debug, PartialEq, Eq, Structural)]
pub enum TensorSlot {
    Weights,
    Bias,
}

/// The parameter that a tensor of this name is, if any.  Names are matched
/// exactly.
pub open spec fn slot_of(name: Seq<char>) -> Option<TensorSlot> {
    if name == "weights"@ {
        Some(TensorSlot::Weights)
    } else if name == "bias"@ {
        Some(TensorSlot::Bias)
    } else {
        None
    }
}

impl TensorSlot {
    /// The name under which the parameter is saved.
    pub open spec fn spec_name(self) -> Seq<char> {
        match self {
            TensorSlot::Weights => "weights"@,
            TensorSlot::Bias => "bias"@,
        }
    }

    /// The name under which the parameter is saved.
    pub fn name(&self) -> (r: &'static str)
        ensures
            r@ == self.spec_name(),
    {
        match self {
            TensorSlot::Weights => "weights",
            TensorSlot::Bias => "bias",
        }
    }

    /// The parameter that a tensor of this name is, if any.
    pub fn named(name: &str) -> (r: Option<TensorSlot>)
        ensures
            r == slot_of(name@),
    {
        if str_eq(name, "weights") {
            Some(TensorSlot::Weights)
        } else if str_eq(name, "bias") {
            Some(TensorSlot::Bias)
        } else {
            None
        }
    }
}

/// A parameter is found again under the name it is saved under.
pub proof fn law_slot_found_by_its_name(slot: TensorSlot)
    ensures
        slot_of(slot.spec_name()) == Some(slot),
{
    reveal_strlit("weights");
    reveal_strlit("bias");
    assert("weights"@.len() == 7);
    assert("bias"@.len() == 4);
}

/// What an entry of a saved model says of its tensor, each part being absent
/// when the entry lacks it or holds it in another form.
#[derive(Clone, Debug)]
pub struct TensorHeader {
    pub name: Option<String>,
    pub rows: Option<u64>,
    pub cols: Option<u64>,
    pub has_data: bool,
}

/// The part that an entry of a saved model lacks.
#[derive(Clone, Copy, Debug, PartialEq, Eq, Structural)]
pub enum HeaderError {
    MissingName,
    MissingRows,
    MissingCols,
    MissingData,
}

impl HeaderError {
    /// The message of the failure.
    pub fn message(&self) -> (r: &'static str)
        ensures
            r@ == match self {
                HeaderError::MissingName => "missing name"@,
                HeaderError::MissingRows => "missing rows"@,
                HeaderError::MissingCols => "missing cols"@,
                HeaderError::MissingData => "missing data"@,
            },
    {
        match self {
            HeaderError::MissingName => "missing name",
            HeaderError::MissingRows => "missing rows",
            HeaderError::MissingCols => "missing cols",
            HeaderError::MissingData => "missing data",
        }
    }
}

/// The rows and columns of an entry, or the first part that it lacks, asked
/// for in the order name, rows, columns, data.
pub open spec fn header_shape(header: TensorHeader) -> Result<(u64, u64), HeaderError> {
    if header.name is None {
        Err(HeaderError::MissingName)
    } else if header.rows is None {
        Err(HeaderError::MissingRows)
    } else if header.cols is None {
        Err(HeaderError::MissingCols)
    } else if !header.has_data {
        Err(HeaderError::MissingData)
    } else {
        Ok((header.rows->Some_0, header.cols->Some_0))
    }
}

/// Checks that an entry is complete and gives its rows and columns.
pub fn check_header(header: &TensorHeader) -> (r: Result<(u64, u64), HeaderError>)
    ensures
        r == header_shape(*header),
{
    if header.name.is_none() {
        return Err(HeaderError::MissingName);
    }
    let rows = match header.rows {
        Some(rows) => rows,
        None => {
            return Err(HeaderError::MissingRows);
        },
    };
    let cols = match header.cols {
        Some(cols) => cols,
        None => {
            return Err(HeaderError::MissingCols);
        },
    };
    if !header.has_data {
        return Err(HeaderError::MissingData);
    }
    Ok((rows, cols))
}

} // verus!
