use sparrow_core::array::{Array, DataType};
use sparrow_core::error::{Error, EvalFailure, Operation};
use sparrow_core::evaluator::Evaluator;
use sparrow_core::handle::ValueRef;
use sparrow_core::pass::run_pass;
use sparrow_core::registry::EvaluatorRegistry;
use sparrow_core::static_info::StaticInfo;
use sparrow_core::store_key::{KeyError, ObjectStoreKey};
use sparrow_core::work_area::WorkArea;

fn utf8(values: &[Option<&str>]) -> Array {
    Array::Utf8(values.iter().map(|v| v.map(|s| s.to_string())).collect())
}

fn len_node(args: Vec<ValueRef>) -> StaticInfo {
    StaticInfo::new("len".to_string(), args, DataType::Int32)
}

fn string_arg(position: usize) -> ValueRef {
    ValueRef { position, data_type: DataType::Utf8 }
}

fn len_evaluator(position: usize) -> Evaluator {
    Operation::Len.create(len_node(vec![string_arg(position)])).unwrap()
}

#[test]
fn string_length_preserves_nulls() {
    let mut area = WorkArea::new();
    area.store(0, utf8(&[Some("ab"), None, Some(""), Some("xyz")])).unwrap();
    let out = len_evaluator(0).evaluate(&area).unwrap();
    assert_eq!(out, Array::Int32(vec![Some(2), None, Some(0), Some(3)]));
    assert_eq!(out.len(), 4);
}

#[test]
fn string_length_counts_utf8_bytes() {
    let mut area = WorkArea::new();
    area.store(0, utf8(&[Some("é"), Some("日本"), None])).unwrap();
    let out = len_evaluator(0).evaluate(&area).unwrap();
    assert_eq!(out, Array::Int32(vec![Some(2), Some(6), None]));
}

#[test]
fn string_length_of_empty_column() {
    let mut area = WorkArea::new();
    area.store(0, utf8(&[])).unwrap();
    let out = len_evaluator(0).evaluate(&area).unwrap();
    assert_eq!(out, Array::Int32(vec![]));
}

#[test]
fn string_length_rejects_non_string_input() {
    let mut area = WorkArea::new();
    area.store(0, Array::Int32(vec![Some(1)])).unwrap();
    let err = len_evaluator(0).evaluate(&area).unwrap_err();
    assert_eq!(
        err,
        Error::ExprEvaluation {
            operation: Operation::Len,
            cause: EvalFailure::InputType { expected: DataType::Utf8, actual: DataType::Int32 },
        }
    );
}

#[test]
fn string_length_of_unstored_input_is_ordering_violation() {
    let area = WorkArea::new();
    let err = len_evaluator(3).evaluate(&area).unwrap_err();
    assert_eq!(err, Error::OrderingViolation { position: 3 });
}

#[test]
fn context_lookup_returns_stored_array() {
    let mut area = WorkArea::new();
    let a0 = Array::Int32(vec![Some(0)]);
    let a1 = utf8(&[Some("one"), None]);
    let a2 = Array::Boolean(vec![Some(true), Some(false)]);
    area.store(0, a0).unwrap();
    area.store(1, a1.clone()).unwrap();
    area.store(2, a2).unwrap();
    assert_eq!(area.len(), 3);
    assert_eq!(area.lookup(1).unwrap(), &a1);
    assert_eq!(area.lookup(3).unwrap_err(), Error::OrderingViolation { position: 3 });
}

#[test]
fn context_store_out_of_order_is_refused() {
    let mut area = WorkArea::new();
    let err = area.store(1, Array::Int32(vec![])).unwrap_err();
    assert_eq!(err, Error::OrderingViolation { position: 1 });
    assert_eq!(area.len(), 0);
}

#[test]
fn evaluator_is_idempotent_across_contexts() {
    let ev = len_evaluator(0);
    let mut first = WorkArea::new();
    let mut second = WorkArea::new();
    first.store(0, utf8(&[Some("abc"), None])).unwrap();
    second.store(0, utf8(&[Some("abc"), None])).unwrap();
    let a = ev.evaluate(&first).unwrap();
    let b = ev.evaluate(&second).unwrap();
    assert_eq!(a, b);
    assert_eq!(ev.evaluate(&first).unwrap(), a);
}

#[test]
fn create_with_no_argument_is_arity_error() {
    let err = Operation::Len.create(len_node(vec![])).unwrap_err();
    assert_eq!(err, Error::Arity { operation: "len".to_string(), expected: 1, given: 0 });
}

#[test]
fn create_with_extra_argument_is_arity_error() {
    let err = Operation::Len.create(len_node(vec![string_arg(0), string_arg(1)])).unwrap_err();
    assert_eq!(err, Error::Arity { operation: "len".to_string(), expected: 1, given: 2 });
}

#[test]
fn create_with_wrong_type_is_type_mismatch() {
    let arg = ValueRef { position: 4, data_type: DataType::Boolean };
    let err = Operation::Len.create(len_node(vec![arg])).unwrap_err();
    assert_eq!(
        err,
        Error::TypeMismatch { position: 4, expected: DataType::Utf8, actual: DataType::Boolean }
    );
}

#[test]
fn unpack_argument_consumes_in_order() {
    let mut info = StaticInfo::new("f".to_string(), vec![string_arg(2), string_arg(5)], DataType::Utf8);
    assert_eq!(info.output_type(), DataType::Utf8);
    assert_eq!(info.unpack_argument().unwrap().position, 2);
    assert_eq!(info.unpack_argument().unwrap().position, 5);
    assert_eq!(info.remaining(), 0);
    assert_eq!(
        info.unpack_argument().unwrap_err(),
        Error::Arity { operation: "f".to_string(), expected: 3, given: 2 }
    );
}

#[test]
fn value_ref_string_binding() {
    assert_eq!(string_arg(7).string().unwrap().position(), 7);
    let err = ValueRef { position: 1, data_type: DataType::Int32 }.string().unwrap_err();
    assert_eq!(
        err,
        Error::TypeMismatch { position: 1, expected: DataType::Utf8, actual: DataType::Int32 }
    );
}

#[test]
fn registry_get_after_register() {
    let mut registry = EvaluatorRegistry::new();
    assert_eq!(
        registry.get(&"len".to_string()).unwrap_err(),
        Error::UnknownOperation("len".to_string())
    );
    registry.register("len".to_string(), Operation::Len).unwrap();
    assert_eq!(registry.get(&"len".to_string()).unwrap(), Operation::Len);
    assert_eq!(
        registry.get(&"upper".to_string()).unwrap_err(),
        Error::UnknownOperation("upper".to_string())
    );
}

#[test]
fn registry_refuses_duplicate_name() {
    let mut registry = EvaluatorRegistry::with_builtins();
    let err = registry.register("len".to_string(), Operation::Len).unwrap_err();
    assert_eq!(err, Error::DuplicateOperation("len".to_string()));
    assert_eq!(registry.get(&"len".to_string()).unwrap(), Operation::Len);
}

#[test]
fn build_plan_is_deterministic_and_order_independent() {
    let registry = EvaluatorRegistry::with_builtins();
    let plan_a = registry
        .build_plan(vec![len_node(vec![string_arg(0)]), len_node(vec![string_arg(1)])])
        .unwrap();
    let plan_b = registry
        .build_plan(vec![len_node(vec![string_arg(1)]), len_node(vec![string_arg(0)])])
        .unwrap();
    let plan_c = registry
        .build_plan(vec![len_node(vec![string_arg(0)]), len_node(vec![string_arg(1)])])
        .unwrap();
    assert_eq!(plan_a, plan_c);
    assert_eq!(plan_a[0], plan_b[1]);
    assert_eq!(plan_a[1], plan_b[0]);
    assert_eq!(plan_a[0], len_evaluator(0));
}

#[test]
fn build_plan_reports_unknown_operation() {
    let registry = EvaluatorRegistry::with_builtins();
    let node = StaticInfo::new("upper".to_string(), vec![string_arg(0)], DataType::Utf8);
    let err = registry.build_plan(vec![len_node(vec![string_arg(0)]), node]).unwrap_err();
    assert_eq!(err, Error::UnknownOperation("upper".to_string()));
}

#[test]
fn run_pass_appends_each_output() {
    let registry = EvaluatorRegistry::with_builtins();
    let plan = registry.build_plan(vec![len_node(vec![string_arg(0)])]).unwrap();
    let mut area = WorkArea::new();
    area.store(0, utf8(&[Some("four"), None])).unwrap();
    run_pass(&plan, &mut area).unwrap();
    assert_eq!(area.len(), 2);
    assert_eq!(area.lookup(1).unwrap(), &Array::Int32(vec![Some(4), None]));
}

#[test]
fn run_pass_stops_at_first_failure() {
    let plan = vec![len_evaluator(0), len_evaluator(1)];
    let mut area = WorkArea::new();
    area.store(0, utf8(&[Some("x")])).unwrap();
    let err = run_pass(&plan, &mut area).unwrap_err();
    assert_eq!(
        err,
        Error::ExprEvaluation {
            operation: Operation::Len,
            cause: EvalFailure::InputType { expected: DataType::Utf8, actual: DataType::Int32 },
        }
    );
}

#[test]
fn store_key_from_scheme_and_host() {
    assert_eq!(ObjectStoreKey::from_parts(&"file".to_string(), None), Ok(ObjectStoreKey::Local));
    assert_eq!(
        ObjectStoreKey::from_parts(&"mem".to_string(), Some("x".to_string())),
        Ok(ObjectStoreKey::Memory)
    );
    assert_eq!(
        ObjectStoreKey::from_parts(&"s3".to_string(), Some("test-bucket".to_string())),
        Ok(ObjectStoreKey::Aws {
            bucket: "test-bucket".to_string(),
            region: None,
            virtual_hosted_style_request: false,
        })
    );
    assert_eq!(
        ObjectStoreKey::from_parts(&"gs".to_string(), Some("test-bucket".to_string())),
        Ok(ObjectStoreKey::Gcs { bucket: "test-bucket".to_string() })
    );
    assert_eq!(ObjectStoreKey::from_parts(&"gs".to_string(), None), Err(KeyError::MissingHost));
    assert_eq!(
        ObjectStoreKey::from_parts(&"ftp".to_string(), Some("h".to_string())),
        Err(KeyError::UnsupportedScheme)
    );
}
