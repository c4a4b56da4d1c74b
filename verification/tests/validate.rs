use wasm_validate::features::{FeatureConfig, Features};
use wasm_validate::model::{CompositeType, TypeSchema};
use wasm_validate::pipeline::{check_module, conclude, finish, reversed, validate, ValidationError};
use wasm_validate::project::ProjectionError;
use wasm_validate::text::parse_wat;

fn binary(text: &str) -> Vec<u8> {
    parse_wat(text.to_string()).unwrap()
}

fn with_simd(on: bool) -> FeatureConfig {
    let mut features = Features::empty();
    features.simd = Some(on);
    FeatureConfig::Present(features)
}

fn with_gc() -> FeatureConfig {
    let mut features = Features::empty();
    features.reference_types = Some(true);
    features.function_references = Some(true);
    features.gc = Some(true);
    FeatureConfig::Present(features)
}

fn with_reference_types() -> FeatureConfig {
    let mut features = Features::empty();
    features.reference_types = Some(true);
    features.bulk_memory = Some(true);
    FeatureConfig::Present(features)
}

fn with_components() -> FeatureConfig {
    let mut features = Features::empty();
    features.component_model = Some(true);
    FeatureConfig::Present(features)
}

fn shown(schema: &TypeSchema) -> String {
    format!("{:?}", schema)
}

const SIMD_MODULE: &str = "(module (func (result v128) v128.const i32x4 1 2 3 4))";

#[test]
fn empty_module_has_empty_schema() {
    let bytes = vec![0x00, 0x61, 0x73, 0x6d, 0x01, 0x00, 0x00, 0x00];
    let schema = validate(bytes, FeatureConfig::Absent).unwrap();
    assert!(schema.types.is_empty());
    assert!(schema.functions.is_empty());
    assert!(schema.globals.is_empty());
    assert!(schema.memories.is_empty());
    assert!(schema.tables.is_empty());
    assert!(schema.elements.is_empty());
}

#[test]
fn one_function_of_two_params() {
    let bytes = binary("(module (func (param i32 i32) (result i32) local.get 0 local.get 1 i32.add))");
    let schema = validate(bytes, FeatureConfig::Absent).unwrap();
    assert_eq!(schema.functions.len(), 1);
    assert_eq!(schema.functions[0].params, vec!["i32".to_string(), "i32".to_string()]);
    assert_eq!(schema.functions[0].results, vec!["i32".to_string()]);
    assert_eq!(schema.types.len(), 1);
    match &schema.types[0] {
        CompositeType::Func(f) => {
            assert_eq!(f.params, vec!["i32".to_string(), "i32".to_string()]);
            assert_eq!(f.results, vec!["i32".to_string()]);
        }
        other => panic!("not a function type: {:?}", other),
    }
}

#[test]
fn vector_instruction_without_simd_is_rejected() {
    let r = validate(binary(SIMD_MODULE), with_simd(false));
    assert!(matches!(r, Err(ValidationError::Rejected(_))));
}

#[test]
fn vector_instruction_with_simd_is_accepted() {
    let schema = validate(binary(SIMD_MODULE), with_simd(true)).unwrap();
    assert_eq!(schema.functions.len(), 1);
    assert!(schema.functions[0].params.is_empty());
    assert_eq!(schema.functions[0].results, vec!["v128".to_string()]);
}

#[test]
fn only_the_simd_flag_decides() {
    let mut off = Features::empty();
    off.simd = Some(false);
    off.relaxed_simd = Some(false);
    let mut on = off;
    on.simd = Some(true);
    assert!(validate(binary(SIMD_MODULE), FeatureConfig::Present(off)).is_err());
    assert!(validate(binary(SIMD_MODULE), FeatureConfig::Present(on)).is_ok());
}

#[test]
fn malformed_config_counts_as_absent() {
    let text = "(module (func (param i64)) (memory 1) (global i32 (i32.const 7)))";
    let a = validate(binary(text), FeatureConfig::Malformed).unwrap();
    let b = validate(binary(text), FeatureConfig::Absent).unwrap();
    assert_eq!(shown(&a), shown(&b));
    assert_eq!(a.functions.len(), 1);
    assert!(validate(binary(SIMD_MODULE), FeatureConfig::Malformed).is_err());
    assert!(validate(binary(SIMD_MODULE), FeatureConfig::Absent).is_err());
}

#[test]
fn table_of_funcref() {
    let schema = validate(binary("(module (table 1 funcref))"), FeatureConfig::Absent).unwrap();
    assert_eq!(schema.tables.len(), 1);
    assert_eq!(schema.tables[0].element_type, "funcref");
    assert_eq!(schema.tables[0].initial, 1);
    assert_eq!(schema.tables[0].maximum, None);
}

#[test]
fn table_with_maximum_and_externref() {
    let schema = validate(binary("(module (table 2 5 externref))"), with_reference_types()).unwrap();
    assert_eq!(schema.tables[0].element_type, "externref");
    assert_eq!(schema.tables[0].initial, 2);
    assert_eq!(schema.tables[0].maximum, Some(5));
}

#[test]
fn memories_in_order() {
    let mut features = Features::empty();
    features.multi_memory = Some(true);
    let schema = validate(binary("(module (memory 1 2) (memory 3))"), FeatureConfig::Present(features)).unwrap();
    assert_eq!(schema.memories.len(), 2);
    assert!(!schema.memories[0].memory64);
    assert!(!schema.memories[0].shared);
    assert_eq!(schema.memories[0].initial, 1);
    assert_eq!(schema.memories[0].maximum, Some(2));
    assert_eq!(schema.memories[1].initial, 3);
    assert_eq!(schema.memories[1].maximum, None);
}

#[test]
fn shared_memory() {
    let mut features = Features::empty();
    features.threads = Some(true);
    let schema = validate(binary("(module (memory 1 4 shared))"), FeatureConfig::Present(features)).unwrap();
    assert!(schema.memories[0].shared);
    assert_eq!(schema.memories[0].maximum, Some(4));
}

#[test]
fn globals_in_order() {
    let text = "(module (global (mut i64) (i64.const 0)) (global f32 (f32.const 1)) (global f64 (f64.const 2)))";
    let schema = validate(binary(text), FeatureConfig::Absent).unwrap();
    assert_eq!(schema.globals.len(), 3);
    assert_eq!(schema.globals[0].content_type, "i64");
    assert!(schema.globals[0].mutable);
    assert_eq!(schema.globals[1].content_type, "f32");
    assert!(!schema.globals[1].mutable);
    assert_eq!(schema.globals[2].content_type, "f64");
}

#[test]
fn functions_keep_declaration_order() {
    let text = "(module (type (func (param f64))) (type (func (result i64))) \
                (func (type 1) i64.const 1) (func (type 0)) (func (type 1) i64.const 2))";
    let schema = validate(binary(text), FeatureConfig::Absent).unwrap();
    assert_eq!(schema.types.len(), 2);
    assert_eq!(schema.functions.len(), 3);
    assert_eq!(schema.functions[0].results, vec!["i64".to_string()]);
    assert!(schema.functions[0].params.is_empty());
    assert_eq!(schema.functions[1].params, vec!["f64".to_string()]);
    assert!(schema.functions[1].results.is_empty());
    assert_eq!(schema.functions[2].results, vec!["i64".to_string()]);
    match (&schema.types[0], &schema.types[1]) {
        (CompositeType::Func(a), CompositeType::Func(b)) => {
            assert_eq!(a.params, vec!["f64".to_string()]);
            assert_eq!(b.results, vec!["i64".to_string()]);
        }
        other => panic!("not function types: {:?}", other),
    }
}

#[test]
fn element_segment_types() {
    let text = "(module (table 1 funcref) (table 1 externref) (func) \
                (elem (table 0) (i32.const 0) funcref (ref.func 0)) \
                (elem (table 1) (i32.const 0) externref (ref.null extern)))";
    let schema = validate(binary(text), with_reference_types()).unwrap();
    assert_eq!(schema.elements, vec!["funcref".to_string(), "externref".to_string()]);
}

#[test]
fn same_input_same_output() {
    let text = "(module (func (param i32)) (table 3 funcref) (memory 1) (global i32 (i32.const 0)))";
    let a = validate(binary(text), FeatureConfig::Absent).unwrap();
    let b = validate(binary(text), FeatureConfig::Absent).unwrap();
    assert_eq!(shown(&a), shown(&b));
}

#[test]
fn bad_header_is_rejected() {
    let r = validate(vec![1, 2, 3, 4, 5, 6, 7, 8], FeatureConfig::Absent);
    match r {
        Err(ValidationError::Rejected(message)) => assert!(message.contains("offset")),
        other => panic!("not rejected: {:?}", other.map(|s| shown(&s))),
    }
}

#[test]
fn empty_input_is_rejected() {
    assert!(matches!(validate(Vec::new(), FeatureConfig::Absent), Err(ValidationError::Rejected(_))));
}

#[test]
fn truncated_stream_is_rejected() {
    let mut bytes = binary("(module (func (param i32)))");
    bytes.truncate(bytes.len() - 2);
    assert!(matches!(validate(bytes, FeatureConfig::Absent), Err(ValidationError::Rejected(_))));
}

#[test]
fn bad_function_body_is_rejected() {
    let bytes = binary("(module (func (result i32)))");
    match validate(bytes, FeatureConfig::Absent) {
        Err(ValidationError::Rejected(message)) => assert!(message.contains("type mismatch")),
        other => panic!("not rejected: {:?}", other.map(|s| shown(&s))),
    }
}

#[test]
fn first_bad_body_gives_the_error() {
    let bytes = binary("(module (func) (func (result i32)) (func (result f32) i32.const 0))");
    match validate(bytes, FeatureConfig::Absent) {
        Err(ValidationError::Rejected(message)) => assert!(message.contains("i32")),
        other => panic!("not rejected: {:?}", other.map(|s| shown(&s))),
    }
}

#[test]
fn check_module_hands_out_a_model() {
    let bytes = binary("(module (memory 2))");
    let vector = wasm_validate::features::FeatureVector::baseline();
    let model = check_module(&bytes, &vector).unwrap();
    let schema = model.serialize().unwrap();
    assert_eq!(schema.memories.len(), 1);
    assert_eq!(schema.memories[0].initial, 2);
}

#[test]
fn conclude_without_a_model_is_unfinished() {
    assert!(matches!(conclude(None), Err(ValidationError::Unfinished)));
}

#[test]
fn finish_keeps_an_error() {
    let r = finish(Err(ValidationError::Rejected("no".to_string())));
    match r {
        Err(ValidationError::Rejected(message)) => assert_eq!(message, "no"),
        other => panic!("not kept: {:?}", other.map(|s| shown(&s))),
    }
    assert!(matches!(finish(Err(ValidationError::Unfinished)), Err(ValidationError::Unfinished)));
}

#[test]
fn messages() {
    assert_eq!(ValidationError::Rejected("bad (at offset 0x3)".to_string()).message(), "bad (at offset 0x3)");
    assert_eq!(ValidationError::Unfinished.message(), "module did not end");
    assert_eq!(
        ValidationError::Internal(ProjectionError::ForeignCoreType(4)).message(),
        "internal error: a core type is not a function, struct or array definition"
    );
    assert_eq!(
        ValidationError::Internal(ProjectionError::ForeignFunctionType(0)).message(),
        "internal error: the type of a function is not a function type"
    );
    assert_eq!(
        ValidationError::Internal(ProjectionError::CoreTypeSpace).message(),
        "internal error: too many core types"
    );
    assert_eq!(ValidationError::Internal(ProjectionError::TableSpace).message(), "internal error: too many tables");
}

#[test]
fn reversed_turns_the_order() {
    assert_eq!(reversed(vec![1, 2, 3]), vec![3, 2, 1]);
    assert_eq!(reversed(Vec::<u8>::new()), Vec::<u8>::new());
}

#[test]
fn struct_and_array_types() {
    let text = "(module (type (struct (field i32) (field (mut i64)))) (type (array (mut i8))))";
    let schema = validate(binary(text), with_gc()).unwrap();
    assert_eq!(schema.types.len(), 2);
    match &schema.types[0] {
        CompositeType::Struct(s) => {
            assert_eq!(s.fields.len(), 2);
            assert_eq!(s.fields[0].element_type, "i32");
            assert!(!s.fields[0].mutable);
            assert_eq!(s.fields[1].element_type, "i64");
            assert!(s.fields[1].mutable);
        }
        other => panic!("not a struct type: {:?}", other),
    }
    match &schema.types[1] {
        CompositeType::Array(a) => {
            assert_eq!(a.element_type, "i8");
            assert!(a.mutable);
        }
        other => panic!("not an array type: {:?}", other),
    }
    assert!(schema.functions.is_empty());
}

#[test]
fn struct_type_without_gc_is_rejected() {
    let text = "(module (type (struct (field i32))))";
    let mut features = Features::empty();
    features.gc = Some(false);
    assert!(matches!(
        validate(binary(text), FeatureConfig::Present(features)),
        Err(ValidationError::Rejected(_))
    ));
    assert!(validate(binary(text), FeatureConfig::Absent).is_err());
}

#[test]
fn module_type_among_core_types_is_an_internal_error() {
    let bytes = binary("(component (core type (module)))");
    match validate(bytes, with_components()) {
        Err(ValidationError::Internal(defect)) => assert_eq!(defect, ProjectionError::ForeignCoreType(0)),
        other => panic!("no internal error: {:?}", other.map(|s| shown(&s))),
    }
}

#[test]
fn component_with_a_nested_module() {
    let bytes = binary("(component (core module (func (param i32)) (memory 1)))");
    let schema = validate(bytes, with_components()).unwrap();
    assert!(schema.types.is_empty());
    assert!(schema.functions.is_empty());
    assert!(schema.memories.is_empty());
    assert!(schema.elements.is_empty());
}

#[test]
fn component_is_rejected_without_its_flag() {
    let mut features = Features::empty();
    features.component_model = Some(false);
    let r = validate(binary("(component)"), FeatureConfig::Present(features));
    assert!(matches!(r, Err(ValidationError::Rejected(_))));
    assert!(validate(binary("(component)"), FeatureConfig::Absent).is_err());
    assert!(validate(binary("(component)"), with_components()).is_ok());
}

#[test]
fn gathered_starts_empty() {
    let g = wasm_validate::pipeline::Gathered::new();
    assert!(g.queue.is_empty());
    assert!(g.captured.is_none());
}

#[test]
fn conclude_hands_out_the_captured_model() {
    let bytes = binary("(module (table 4 funcref))");
    let vector = wasm_validate::features::FeatureVector::baseline();
    let model = check_module(&bytes, &vector).unwrap();
    let again = conclude(Some(model.0)).unwrap();
    let schema = finish(Ok(again)).unwrap();
    assert_eq!(schema.tables.len(), 1);
    assert_eq!(schema.tables[0].initial, 4);
}

const SPLAT_MODULE: [u8; 37] = [
    0, 0x61, 0x73, 0x6d, 1, 0, 0, 0, 1, 5, 1, 0x60, 0, 1, 0x7b, 3, 2, 1, 0, 0x0a, 8, 1, 6, 0, 0x41, 0, 0xfd, 0x0f, 0x0b,
    0, 0, 0, 0, 0, 0, 0, 0,
];

fn splat_module() -> Vec<u8> {
    SPLAT_MODULE[..29].to_vec()
}

#[test]
fn vector_instruction_with_no_config_is_rejected() {
    assert!(matches!(validate(splat_module(), FeatureConfig::Absent), Err(ValidationError::Rejected(_))));
}

#[test]
fn vector_instruction_with_an_empty_config_is_rejected() {
    let r = validate(splat_module(), FeatureConfig::Present(Features::empty()));
    assert!(matches!(r, Err(ValidationError::Rejected(_))));
}

#[test]
fn vector_instruction_is_accepted_once_simd_is_set() {
    let schema = validate(splat_module(), with_simd(true)).unwrap();
    assert_eq!(schema.functions.len(), 1);
    assert_eq!(schema.functions[0].results, vec!["v128".to_string()]);
}

#[test]
fn same_error_twice() {
    let a = validate(binary("(module (func (result i32)))"), FeatureConfig::Absent).unwrap_err();
    let b = validate(binary("(module (func (result i32)))"), FeatureConfig::Malformed).unwrap_err();
    assert_eq!(a.message(), b.message());
    assert!(!a.message().is_empty());
}
