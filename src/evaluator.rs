use vstd::prelude::*;
use vstd::utf8::encode_utf8;

use arrow_array::cast::AsArray;

use crate::array::{opt_chars, Array, Column, DataType};
use crate::error::{result_model, Error, ErrorModel, EvalFailure, Operation};
use crate::handle::{StringValue, ValueRef};
use crate::static_info::StaticInfo;
use crate::work_area::WorkArea;

verus! {

/// The number of bytes of the UTF-8 encoding of `s`.
pub open spec fn byte_len(s: Seq<char>) -> nat {
    encode_utf8(s).len()
}

/// The number of bytes of all non-null strings of a column.
pub open spec fn total_bytes(v: Seq<Option<Seq<char>>>) -> nat
    decreases v.len(),
{
    if v.len() == 0 {
        0
    } else {
        total_bytes(v.drop_last()) + match v.last() {
            Some(s) => byte_len(s),
            None => 0,
        }
    }
}

/// The length in bytes of each string, null where the string is null.
pub open spec fn byte_lengths(v: Seq<Option<Seq<char>>>) -> Seq<Option<i32>> {
    v.map_values(
        |o: Option<Seq<char>>|
            match o {
                Some(s) => Some(byte_len(s) as i32),
                None => None,
            },
    )
}

pub proof fn lemma_total_bytes_prefix(v: Seq<Option<Seq<char>>>, i: int)
    requires
        0 <= i <= v.len(),
    ensures
        total_bytes(v.take(i)) <= total_bytes(v),
    decreases v.len(),
{
    if i < v.len() {
        assert(v.drop_last().take(i) =~= v.take(i));
        lemma_total_bytes_prefix(v.drop_last(), i);
    } else {
        assert(v.take(i) =~= v);
    }
}

/// Relies on `arrow_string::length::length`, which for a `Utf8` array returns
/// `Ok` of an `Int32` array holding, for each row, the difference of its two
/// offsets (its length in bytes) and the input's null buffer. The argument is
/// converted by `StringArray::from(Vec<Option<String>>)`, which panics when
/// the bytes exceed 32-bit offsets. `None` would stand for an `Err`, which
/// `length` does not return for `Utf8`.
#[verifier::external_body]
fn arrow_lengths(values: &Vec<Option<String>>) -> (r: Option<Vec<Option<i32>>>)
    requires
        total_bytes(values@.map_values(|o: Option<String>| opt_chars(o))) <= i32::MAX,
    ensures
        r is Some,
        r.unwrap()@ == byte_lengths(values@.map_values(|o: Option<String>| opt_chars(o))),
{
    let array = arrow_array::StringArray::from(values.clone());
    match arrow_string::length::length(&array) {
        Ok(lengths) => Some(lengths.as_primitive::<arrow_array::types::Int32Type>().iter().collect()),
        Err(_) => None,
    }
}

/// Whether the strings of a column fit 32-bit offsets.
fn fits_i32_offsets(values: &Vec<Option<String>>) -> (r: bool)
    ensures
        r == (total_bytes(values@.map_values(|o: Option<String>| opt_chars(o))) <= i32::MAX),
{
    let ghost m = values@.map_values(|o: Option<String>| opt_chars(o));
    let mut total: usize = 0;
    let mut i: usize = 0;
    while i < values.len()
        invariant
            i <= values@.len(),
            m == values@.map_values(|o: Option<String>| opt_chars(o)),
            total == total_bytes(m.take(i as int)),
            total <= i32::MAX,
        decreases values@.len() - i,
    {
        let n: usize = match &values[i] {
            Some(s) => {
                let t = s.as_str();
                assert(t@ == s@);
                t.as_bytes().len()
            },
            None => 0,
        };
        assert(m.take(i + 1).drop_last() =~= m.take(i as int));
        assert(m.take(i + 1).last() == m[i as int]);
        assert(n == match m[i as int] {
            Some(c) => byte_len(c),
            None => 0,
        });
        if n > (i32::MAX as usize) - total {
            proof {
                lemma_total_bytes_prefix(m, i + 1);
            }
            return false;
        }
        total = total + n;
        i = i + 1;
    }
    assert(m.take(i as int) =~= m);
    true
}

/// What the string-length evaluator with input `input` produces on the
/// stored results `area`.
pub open spec fn len_result(input: StringValue, area: Seq<Column>) -> Result<Column, ErrorModel> {
    let p = input.spec_position();
    if p >= area.len() {
        Err(ErrorModel::OrderingViolation { position: p })
    } else {
        match area[p as int] {
            Column::Utf8(v) => if total_bytes(v) <= i32::MAX {
                Ok(Column::Int32(byte_lengths(v)))
            } else {
                Err(
                    ErrorModel::ExprEvaluation {
                        operation: Operation::Len,
                        cause: EvalFailure::OffsetOverflow,
                    },
                )
            },
            c => Err(
                ErrorModel::ExprEvaluation {
                    operation: Operation::Len,
                    cause: EvalFailure::InputType { expected: DataType::Utf8, actual: c.data_type() },
                },
            ),
        }
    }
}

/// Computes the length in bytes of each string of one input column.
#[derive(Clone, Copy, Debug, PartialEq, Eq, Structural)]
pub struct LenEvaluator {
    pub input: StringValue,
}

impl LenEvaluator {
    pub fn evaluate(&self, area: &WorkArea) -> (r: Result<Array, Error>)
        ensures
            result_model(r) == len_result(self.input, area@),
    {
        let position = self.input.position();
        let array = match area.lookup(position) {
            Ok(a) => a,
            Err(e) => {
                return Err(e);
            },
        };
        match array {
            Array::Utf8(values) => {
                if !fits_i32_offsets(values) {
                    return Err(
                        Error::ExprEvaluation {
                            operation: Operation::Len,
                            cause: EvalFailure::OffsetOverflow,
                        },
                    );
                }
                Ok(Array::Int32(arrow_lengths(values).unwrap()))
            },
            _ => Err(
                Error::ExprEvaluation {
                    operation: Operation::Len,
                    cause: EvalFailure::InputType {
                        expected: DataType::Utf8,
                        actual: array.data_type(),
                    },
                },
            ),
        }
    }
}

/// One node's unit of columnar computation, fixed at construction.
#[derive(Clone, Copy, Debug, PartialEq, Eq, Structural)]
pub enum Evaluator {
    Len(LenEvaluator),
}

impl View for Evaluator {
    type V = Evaluator;

    open spec fn view(&self) -> Evaluator {
        *self
    }
}

/// What evaluator `e` produces on the stored results `area`.
pub open spec fn eval_result(e: Evaluator, area: Seq<Column>) -> Result<Column, ErrorModel> {
    match e {
        Evaluator::Len(l) => len_result(l.input, area),
    }
}

/// The positions whose stored results evaluator `e` reads.
pub open spec fn reads(e: Evaluator) -> Set<nat> {
    match e {
        Evaluator::Len(l) => set![l.input.spec_position()],
    }
}

impl Evaluator {
    /// Produces this node's output from the results stored so far. Holds no
    /// state between calls: the result depends on `area` alone.
    pub fn evaluate(&self, area: &WorkArea) -> (r: Result<Array, Error>)
        ensures
            result_model(r) == eval_result(*self, area@),
    {
        match self {
            Evaluator::Len(l) => l.evaluate(area),
        }
    }
}

/// What constructing operation `op` yields on a node named `name` whose
/// arguments are `args`, of which `consumed` were already unpacked.
pub open spec fn bind_result(
    op: Operation,
    name: Seq<char>,
    args: Seq<ValueRef>,
    consumed: nat,
) -> Result<Evaluator, ErrorModel> {
    match op {
        Operation::Len => if consumed >= args.len() {
            Err(ErrorModel::Arity { operation: name, expected: consumed + 1, given: args.len() })
        } else if args[consumed as int].data_type != DataType::Utf8 {
            Err(
                ErrorModel::TypeMismatch {
                    position: args[consumed as int].position as nat,
                    expected: DataType::Utf8,
                    actual: args[consumed as int].data_type,
                },
            )
        } else if consumed + 1 < args.len() {
            Err(ErrorModel::Arity { operation: name, expected: consumed + 1, given: args.len() })
        } else {
            Ok(
                Evaluator::Len(
                    LenEvaluator { input: StringValue::at(args[consumed as int].position as nat) },
                ),
            )
        },
    }
}

/// [`bind_result`] on the state of `info`.
pub open spec fn info_bind(op: Operation, info: StaticInfo) -> Result<Evaluator, ErrorModel> {
    bind_result(op, info.spec_name(), info.spec_args(), info.spec_consumed())
}

impl Operation {
    /// The number of arguments the operation takes.
    pub open spec fn arity(self) -> nat {
        match self {
            Operation::Len => 1,
        }
    }

    /// The type the operation requires of its `k`-th argument.
    pub open spec fn argument_type(self, k: nat) -> DataType {
        match self {
            Operation::Len => DataType::Utf8,
        }
    }

    /// Builds the evaluator for one node, unpacking and type-checking every
    /// remaining argument of `info`.
    pub fn create(self, info: StaticInfo) -> (r: Result<Evaluator, Error>)
        ensures
            result_model(r) == info_bind(self, info),
    {
        match self {
            Operation::Len => create_len(info),
        }
    }
}

fn create_len(info: StaticInfo) -> (r: Result<Evaluator, Error>)
    ensures
        result_model(r) == info_bind(Operation::Len, info),
{
    let mut info = info;
    let arg = match info.unpack_argument() {
        Ok(a) => a,
        Err(e) => {
            return Err(e);
        },
    };
    let input = match arg.string() {
        Ok(s) => s,
        Err(e) => {
            return Err(e);
        },
    };
    if info.remaining() > 0 {
        return Err(
            Error::Arity {
                operation: info.name().clone(),
                expected: info.consumed(),
                given: info.arg_count(),
            },
        );
    }
    Ok(Evaluator::Len(LenEvaluator { input }))
}

} // verus!
