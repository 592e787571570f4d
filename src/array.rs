use vstd::prelude::*;

verus! {

/// The logical type of a node's output.
#[derive(Clone, Copy, Debug, PartialEq, Eq, Structural)]
pub enum DataType {
    Utf8,
    Int32,
    Boolean,
}

/// A materialized column: one optional value per row, `None` being null.
#[derive(Clone, Debug, PartialEq, Eq)]
pub enum Array {
    Utf8(Vec<Option<String>>),
    Int32(Vec<Option<i32>>),
    Boolean(Vec<Option<bool>>),
}

/// The mathematical model of an [`Array`].
pub enum Column {
    Utf8(Seq<Option<Seq<char>>>),
    Int32(Seq<Option<i32>>),
    Boolean(Seq<Option<bool>>),
}

pub open spec fn opt_chars(v: Option<String>) -> Option<Seq<char>> {
    match v {
        Some(s) => Some(s@),
        None => None,
    }
}

impl View for Array {
    type V = Column;

    open spec fn view(&self) -> Column {
        match self {
            Array::Utf8(v) => Column::Utf8(v@.map_values(|o: Option<String>| opt_chars(o))),
            Array::Int32(v) => Column::Int32(v@),
            Array::Boolean(v) => Column::Boolean(v@),
        }
    }
}

impl Column {
    pub open spec fn data_type(self) -> DataType {
        match self {
            Column::Utf8(_) => DataType::Utf8,
            Column::Int32(_) => DataType::Int32,
            Column::Boolean(_) => DataType::Boolean,
        }
    }

    pub open spec fn len(self) -> nat {
        match self {
            Column::Utf8(v) => v.len(),
            Column::Int32(v) => v.len(),
            Column::Boolean(v) => v.len(),
        }
    }
}

impl Array {
    pub fn data_type(&self) -> (r: DataType)
        ensures
            r == self@.data_type(),
    {
        match self {
            Array::Utf8(_) => DataType::Utf8,
            Array::Int32(_) => DataType::Int32,
            Array::Boolean(_) => DataType::Boolean,
        }
    }

    pub fn len(&self) -> (r: usize)
        ensures
            r == self@.len(),
    {
        match self {
            Array::Utf8(v) => v.len(),
            Array::Int32(v) => v.len(),
            Array::Boolean(v) => v.len(),
        }
    }
}

} // verus!
