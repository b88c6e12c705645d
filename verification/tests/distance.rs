use spice_components::chat::LlmRuntime;
use spice_components::distance::{
    decode_rows, ArgType, ArrayDistance, ColumnShape, ElementType, EvalError, PlanError,
    TypeSignature, Volatility, FIXED_SIZE_LIST_WILDCARD,
};

fn fixed(element: ElementType, size: i32) -> ArgType {
    ArgType::FixedSizeList { element, size, nullable: false }
}

fn list(element: ElementType) -> ArgType {
    ArgType::List { element, nullable: true }
}

fn column(data_type: ArgType, rows: &[Option<usize>]) -> ColumnShape {
    ColumnShape { data_type, rows: rows.to_vec() }
}

#[test]
fn signature_has_two_call_shapes() {
    let f = ArrayDistance::new();
    assert_eq!(f.name(), "array_distance");
    assert_eq!(f.signature.volatility, Volatility::Immutable);
    assert_eq!(f.signature.one_of.len(), 2);
    match &f.signature.one_of[0] {
        TypeSignature::Uniform { count, valid_types } => {
            assert_eq!(*count, 2);
            assert_eq!(
                valid_types,
                &vec![
                    ArgType::FixedSizeList {
                        element: ElementType::Float32,
                        size: FIXED_SIZE_LIST_WILDCARD,
                        nullable: false
                    },
                    ArgType::FixedSizeList {
                        element: ElementType::Float32,
                        size: FIXED_SIZE_LIST_WILDCARD,
                        nullable: true
                    },
                ]
            );
        }
        _ => panic!("first shape is uniform"),
    }
    match &f.signature.one_of[1] {
        TypeSignature::Exact { types } => {
            assert_eq!(
                types,
                &vec![
                    ArgType::FixedSizeList {
                        element: ElementType::Float32,
                        size: FIXED_SIZE_LIST_WILDCARD,
                        nullable: false
                    },
                    ArgType::List { element: ElementType::Float64, nullable: true },
                ]
            );
        }
        _ => panic!("second shape is exact"),
    }
    assert_eq!(FIXED_SIZE_LIST_WILDCARD, i32::MIN);
    assert_eq!(ArrayDistance::default().signature.one_of.len(), 2);
}

#[test]
fn return_type_of_two_equal_fixed_lists() {
    let f = ArrayDistance::new();
    let args = vec![fixed(ElementType::Float32, 3), fixed(ElementType::Float32, 3)];
    assert_eq!(f.return_type(&args), Ok(ElementType::Float32));
}

#[test]
fn return_type_of_fixed_list_and_literal() {
    let f = ArrayDistance::new();
    let args = vec![fixed(ElementType::Float32, 3), list(ElementType::Float64)];
    assert_eq!(f.return_type(&args), Ok(ElementType::Float32));
    let odd = vec![fixed(ElementType::Float64, 3), list(ElementType::Other)];
    assert_eq!(f.return_type(&odd), Ok(ElementType::Float32));
}

#[test]
fn return_type_refuses_different_sizes() {
    let f = ArrayDistance::new();
    let args = vec![fixed(ElementType::Float32, 3), fixed(ElementType::Float32, 4)];
    assert_eq!(f.return_type(&args), Err(PlanError::SizeMismatch));
    assert_eq!(
        PlanError::SizeMismatch.message(),
        "array_distance requires both arguments to be of the same size"
    );
}

#[test]
fn return_type_names_the_offending_argument() {
    let f = ArrayDistance::new();
    assert_eq!(f.return_type(&vec![]), Err(PlanError::ArgumentCount));
    assert_eq!(
        f.return_type(&vec![fixed(ElementType::Float32, 3)]),
        Err(PlanError::ArgumentCount)
    );
    assert_eq!(
        f.return_type(&vec![fixed(ElementType::Float32, 3); 3]),
        Err(PlanError::ArgumentCount)
    );
    assert_eq!(
        f.return_type(&vec![fixed(ElementType::Float64, 3), fixed(ElementType::Float32, 3)]),
        Err(PlanError::FirstElementType)
    );
    assert_eq!(
        f.return_type(&vec![fixed(ElementType::Float32, 3), fixed(ElementType::Float64, 3)]),
        Err(PlanError::SecondElementType)
    );
    assert_eq!(
        f.return_type(&vec![fixed(ElementType::Float64, 3), fixed(ElementType::Float64, 4)]),
        Err(PlanError::FirstElementType)
    );
    assert_eq!(
        f.return_type(&vec![fixed(ElementType::Float32, 3), ArgType::Other]),
        Err(PlanError::SecondArgumentType)
    );
    assert_eq!(
        f.return_type(&vec![ArgType::Other, fixed(ElementType::Float32, 3)]),
        Err(PlanError::FirstArgumentType)
    );
    assert_eq!(
        f.return_type(&vec![list(ElementType::Float64), list(ElementType::Float64)]),
        Err(PlanError::FirstArgumentType)
    );
    assert_eq!(
        f.return_type(&vec![ArgType::Other, ArgType::Other]),
        Err(PlanError::FirstArgumentType)
    );
}

#[test]
fn plan_error_messages() {
    assert_eq!(
        PlanError::ArgumentCount.message(),
        "array_distance takes exactly two arguments"
    );
    assert_eq!(
        PlanError::FirstElementType.message(),
        "array_distance requires first arguments to be of type FixedSizeList<Float32>"
    );
    assert_eq!(
        PlanError::SecondElementType.message(),
        "array_distance requires second arguments to be of type FixedSizeList<Float32>"
    );
    assert_eq!(
        PlanError::SecondArgumentType.message(),
        "array_distance requires the second argument to be of type FixedSizeList"
    );
    assert_eq!(
        PlanError::FirstArgumentType.message(),
        "array_distance requires the first argument to be of type FixedSizeList"
    );
}

#[test]
fn invoke_pairs_rows_of_equal_length() {
    let f = ArrayDistance::new();
    let a = column(fixed(ElementType::Float32, 3), &[Some(3), Some(3), Some(3)]);
    let b = column(fixed(ElementType::Float32, 3), &[Some(3), Some(3), Some(3)]);
    assert_eq!(f.invoke(&a, &b), Ok(3));
    let lit = column(list(ElementType::Float64), &[Some(3), Some(3), Some(3)]);
    assert_eq!(f.invoke(&a, &lit), Ok(3));
    let none = column(fixed(ElementType::Float32, 3), &[]);
    assert_eq!(f.invoke(&none, &none), Ok(0));
    let short = column(list(ElementType::Float64), &[Some(3)]);
    assert_eq!(f.invoke(&a, &short), Ok(1));
}

#[test]
fn invoke_reports_first_row_of_unequal_length() {
    let f = ArrayDistance::new();
    let a = column(fixed(ElementType::Float32, 3), &[Some(3), Some(3), Some(3)]);
    let lit = column(list(ElementType::Float64), &[Some(3), Some(2), Some(5)]);
    assert_eq!(
        f.invoke(&a, &lit),
        Err(EvalError::LengthMismatch { left: 3, right: 2 })
    );
}

#[test]
fn invoke_refuses_absent_rows_and_wrong_elements() {
    let f = ArrayDistance::new();
    let good = column(fixed(ElementType::Float32, 2), &[Some(2), Some(2)]);
    let holes = column(fixed(ElementType::Float32, 2), &[Some(2), None]);
    assert_eq!(f.invoke(&holes, &good), Err(EvalError::NullEntry));
    assert_eq!(f.invoke(&good, &holes), Err(EvalError::NullEntry));
    let doubles = column(fixed(ElementType::Float64, 2), &[Some(2), None]);
    assert_eq!(f.invoke(&doubles, &good), Err(EvalError::DowncastFailed));
    assert_eq!(f.invoke(&good, &doubles), Err(EvalError::DowncastFailed));
    let absent_first = column(fixed(ElementType::Float64, 2), &[None, Some(2)]);
    assert_eq!(f.invoke(&absent_first, &good), Err(EvalError::NullEntry));
    let single_literal = column(list(ElementType::Float32), &[Some(2), Some(2)]);
    assert_eq!(f.invoke(&good, &single_literal), Err(EvalError::DowncastFailed));
    let empty_wrong = column(fixed(ElementType::Float64, 2), &[]);
    assert_eq!(f.invoke(&empty_wrong, &good), Ok(0));
    let other = column(ArgType::Other, &[Some(2), Some(2)]);
    assert_eq!(f.invoke(&good, &other), Err(EvalError::SecondArgumentType));
    assert_eq!(f.invoke(&other, &good), Err(EvalError::FirstArgumentType));
    let literal = column(list(ElementType::Float64), &[Some(2), Some(2)]);
    assert_eq!(f.invoke(&literal, &good), Err(EvalError::FirstArgumentType));
    assert_eq!(f.invoke(&holes, &other), Err(EvalError::NullEntry));
}

#[test]
fn decode_rows_gives_lengths() {
    let rows = vec![Some(4), Some(0), Some(7)];
    assert_eq!(
        decode_rows(ElementType::Float32, ElementType::Float32, &rows),
        Ok(vec![4, 0, 7])
    );
    assert_eq!(
        decode_rows(ElementType::Float64, ElementType::Float64, &vec![]),
        Ok(vec![])
    );
}

#[test]
fn runtime_names_are_lower_case() {
    assert_eq!(LlmRuntime::Candle.name(), "candle");
    assert_eq!(LlmRuntime::Mistral.name(), "mistral");
    assert_eq!(LlmRuntime::Openai.name(), "openai");
    assert_ne!(LlmRuntime::Candle, LlmRuntime::Openai);
}

#[test]
fn test_basic() {
    let f = ArrayDistance::new();
    let list_type = fixed(ElementType::Float32, 3);
    assert_eq!(
        f.return_type(&vec![list_type, list_type]),
        Ok(ElementType::Float32)
    );
    // nine values in rows of three, the same column on both sides
    let rows = column(list_type, &[Some(3), Some(3), Some(3)]);
    let same = column(list_type, &[Some(3), Some(3), Some(3)]);
    assert_eq!(f.invoke(&rows, &same), Ok(3));
}

#[test]
fn test_list() {
    let f = ArrayDistance::new();
    let list_type = fixed(ElementType::Float32, 3);
    let literal_type = list(ElementType::Float64);
    assert_eq!(
        f.return_type(&vec![list_type, literal_type]),
        Ok(ElementType::Float32)
    );
    // offsets 0, 3, 6, 9 over nine values: three rows of three
    let offsets = [0usize, 3, 6, 9];
    let literal_rows: Vec<Option<usize>> =
        offsets.windows(2).map(|w| Some(w[1] - w[0])).collect();
    let rows = column(list_type, &[Some(3), Some(3), Some(3)]);
    let literal = ColumnShape { data_type: literal_type, rows: literal_rows };
    assert_eq!(f.invoke(&rows, &literal), Ok(3));
}
