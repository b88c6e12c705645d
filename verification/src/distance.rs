//! The vector distance function: the call shapes it accepts, the type it
//! returns, and the checks it makes on the rows of its two arguments before
//! any arithmetic is done.

use vstd::prelude::*;

verus! {

/// The length that stands for "any length" in a fixed-size list type of a
/// signature.
pub const FIXED_SIZE_LIST_WILDCARD: i32 = i32::MIN;

/// The element type of a list.
#[derive(Debug, Clone, Copy, PartialEq, Eq, Structural)]
pub enum ElementType {
    Float32,
    Float64,
    Other,
}

/// The type of an argument, as far as the function tells types apart.
#[derive(Debug, Clone, Copy, PartialEq, Eq, Structural)]
pub enum ArgType {
    /// A list whose declared length every row has.
    FixedSizeList { element: ElementType, size: i32, nullable: bool },
    /// A list whose rows may differ in length.
    List { element: ElementType, nullable: bool },
    /// Anything else.
    Other,
}

/// Whether repeated calls on the same input may differ.
#[derive(Debug, Clone, Copy, PartialEq, Eq, Structural)]
pub enum Volatility {
    /// The same input always gives the same output.
    Immutable,
}

/// One shape of call that a function accepts.
#[derive(Debug)]
pub enum TypeSignature {
    /// `count` arguments, all of one type among `valid_types`.
    Uniform { count: usize, valid_types: Vec<ArgType> },
    /// Exactly these argument types.
    Exact { types: Vec<ArgType> },
}

/// The calls a function accepts: any one of `one_of`.
#[derive(Debug)]
pub struct Signature {
    pub one_of: Vec<TypeSignature>,
    pub volatility: Volatility,
}

/// Why a call of the function cannot be planned.
#[derive(Debug, Clone, Copy, PartialEq, Eq, Structural)]
pub enum PlanError {
    /// Not exactly two arguments.
    ArgumentCount,
    /// Two fixed-size lists, the first not of 32-bit floats.
    FirstElementType,
    /// Two fixed-size lists, the second not of 32-bit floats.
    SecondElementType,
    /// Two fixed-size lists of 32-bit floats of different declared lengths.
    SizeMismatch,
    /// The first argument is a fixed-size list, the second no list at all.
    SecondArgumentType,
    /// The first argument is no fixed-size list.
    FirstArgumentType,
}

impl PlanError {
    /// The text shown to the author of the query.
    pub fn message(&self) -> (m: &'static str)
        ensures
            m@ == match *self {
                PlanError::ArgumentCount => "array_distance takes exactly two arguments"@,
                PlanError::FirstElementType =>
                    "array_distance requires first arguments to be of type FixedSizeList<Float32>"@,
                PlanError::SecondElementType =>
                    "array_distance requires second arguments to be of type FixedSizeList<Float32>"@,
                PlanError::SizeMismatch =>
                    "array_distance requires both arguments to be of the same size"@,
                PlanError::SecondArgumentType =>
                    "array_distance requires the second argument to be of type FixedSizeList"@,
                PlanError::FirstArgumentType =>
                    "array_distance requires the first argument to be of type FixedSizeList"@,
            },
    {
        match self {
            PlanError::ArgumentCount => "array_distance takes exactly two arguments",
            PlanError::FirstElementType =>
                "array_distance requires first arguments to be of type FixedSizeList<Float32>",
            PlanError::SecondElementType =>
                "array_distance requires second arguments to be of type FixedSizeList<Float32>",
            PlanError::SizeMismatch =>
                "array_distance requires both arguments to be of the same size",
            PlanError::SecondArgumentType =>
                "array_distance requires the second argument to be of type FixedSizeList",
            PlanError::FirstArgumentType =>
                "array_distance requires the first argument to be of type FixedSizeList",
        }
    }
}

/// The type the function returns for these argument types, or why the call is
/// refused. Two fixed-size lists must both hold 32-bit floats and agree in
/// their declared length. A fixed-size list with a variable-length list is
/// accepted as it is: the lengths are compared row by row at evaluation.
pub open spec fn resolved_type(args: Seq<ArgType>) -> Result<ElementType, PlanError> {
    if args.len() != 2 {
        Err(PlanError::ArgumentCount)
    } else {
        match (args[0], args[1]) {
            (
                ArgType::FixedSizeList { element: e1, size: s1, .. },
                ArgType::FixedSizeList { element: e2, size: s2, .. },
            ) => if e1 != ElementType::Float32 {
                Err(PlanError::FirstElementType)
            } else if e2 != ElementType::Float32 {
                Err(PlanError::SecondElementType)
            } else if s1 != s2 {
                Err(PlanError::SizeMismatch)
            } else {
                Ok(ElementType::Float32)
            },
            (ArgType::FixedSizeList { .. }, ArgType::List { .. }) => Ok(ElementType::Float32),
            (ArgType::FixedSizeList { .. }, ArgType::Other) => Err(PlanError::SecondArgumentType),
            _ => Err(PlanError::FirstArgumentType),
        }
    }
}

/// Two fixed-size list arguments whose declared lengths differ are refused
/// when the call is planned, whatever their elements are.
pub proof fn lemma_different_sizes_are_refused(
    e1: ElementType,
    s1: i32,
    n1: bool,
    e2: ElementType,
    s2: i32,
    n2: bool,
)
    requires
        s1 != s2,
    ensures
        resolved_type(
            seq![
                ArgType::FixedSizeList { element: e1, size: s1, nullable: n1 },
                ArgType::FixedSizeList { element: e2, size: s2, nullable: n2 },
            ],
        ) is Err,
{
}

/// The rows of one argument: its type, and for each row the number of
/// elements of its vector, or nothing where the row is absent.
#[derive(Debug)]
pub struct ColumnShape {
    pub data_type: ArgType,
    pub rows: Vec<Option<usize>>,
}

/// Why an evaluation failed.
#[derive(Debug, Clone, Copy, PartialEq, Eq, Structural)]
pub enum EvalError {
    /// The first argument is no fixed-size list.
    FirstArgumentType,
    /// The second argument is neither a fixed-size list nor a list.
    SecondArgumentType,
    /// A row of an argument is absent.
    NullEntry,
    /// The elements of an argument are not of the type its decoding expects.
    DowncastFailed,
    /// The two vectors of a row differ in length.
    LengthMismatch { left: usize, right: usize },
}

/// The error that decoding the rows of an argument ends in, if any. Rows are
/// decoded in order, and of each row first its presence is checked, then the
/// type of its elements.
pub open spec fn decode_error(element: ElementType, expected: ElementType, rows: Seq<Option<usize>>) -> Option<
    EvalError,
> {
    if rows.len() == 0 {
        None
    } else if element != expected {
        Some(
            if rows[0] is None {
                EvalError::NullEntry
            } else {
                EvalError::DowncastFailed
            },
        )
    } else if exists|i: int| 0 <= i < rows.len() && rows[i] is None {
        Some(EvalError::NullEntry)
    } else {
        None
    }
}

/// The element type that the rows of an argument are decoded as: 32-bit
/// floats in a fixed-size list, 64-bit floats in a variable-length list.
pub open spec fn decoded_as(data_type: ArgType) -> ElementType {
    match data_type {
        ArgType::List { .. } => ElementType::Float64,
        _ => ElementType::Float32,
    }
}

/// The element type of a list type.
pub open spec fn element_of(data_type: ArgType) -> ElementType {
    match data_type {
        ArgType::FixedSizeList { element, .. } => element,
        ArgType::List { element, .. } => element,
        ArgType::Other => ElementType::Other,
    }
}

/// The error that the types and the decoding of the two arguments end in, if
/// any: the first argument is looked at before the second.
pub open spec fn shape_error(
    first_type: ArgType,
    first_rows: Seq<Option<usize>>,
    second_type: ArgType,
    second_rows: Seq<Option<usize>>,
) -> Option<EvalError> {
    if !(first_type is FixedSizeList) {
        Some(EvalError::FirstArgumentType)
    } else if decode_error(element_of(first_type), ElementType::Float32, first_rows) is Some {
        decode_error(element_of(first_type), ElementType::Float32, first_rows)
    } else if second_type is Other {
        Some(EvalError::SecondArgumentType)
    } else {
        decode_error(element_of(second_type), decoded_as(second_type), second_rows)
    }
}

/// The number of rows that two arguments have in common.
pub open spec fn paired_rows(first_rows: Seq<Option<usize>>, second_rows: Seq<Option<usize>>) -> nat {
    if first_rows.len() <= second_rows.len() {
        first_rows.len()
    } else {
        second_rows.len()
    }
}

/// Row `i` is the first in which the two vectors differ in length.
pub open spec fn first_mismatch(
    first_rows: Seq<Option<usize>>,
    second_rows: Seq<Option<usize>>,
    i: int,
) -> bool {
    &&& 0 <= i < paired_rows(first_rows, second_rows)
    &&& first_rows[i] != second_rows[i]
    &&& forall|j: int| 0 <= j < i ==> first_rows[j] == second_rows[j]
}

/// Whether an evaluation succeeds: both arguments decode, and in every row
/// that the two have in common the vectors are of one length.
pub open spec fn evaluates(
    first_type: ArgType,
    first_rows: Seq<Option<usize>>,
    second_type: ArgType,
    second_rows: Seq<Option<usize>>,
) -> bool {
    &&& shape_error(first_type, first_rows, second_type, second_rows) is None
    &&& forall|i: int|
        0 <= i < paired_rows(first_rows, second_rows) ==> first_rows[i] == second_rows[i]
}

/// Decodes the rows of one argument into the lengths of its vectors. The
/// first row that is absent, or whose elements are not of the expected type,
/// ends the decoding.
pub fn decode_rows(element: ElementType, expected: ElementType, rows: &Vec<Option<usize>>) -> (r:
    Result<Vec<usize>, EvalError>)
    ensures
        match r {
            Ok(lengths) => {
                &&& decode_error(element, expected, rows@) is None
                &&& lengths@.len() == rows@.len()
                &&& forall|i: int| 0 <= i < rows@.len() ==> rows@[i] == Some(lengths@[i])
            },
            Err(e) => decode_error(element, expected, rows@) == Some(e),
        },
{
    let mut lengths: Vec<usize> = Vec::new();
    let mut i: usize = 0;
    while i < rows.len()
        invariant
            i <= rows@.len(),
            lengths@.len() == i,
            i > 0 ==> element == expected,
            forall|j: int| 0 <= j < i ==> rows@[j] == Some(lengths@[j]),
        decreases rows@.len() - i,
    {
        match rows[i] {
            None => {
                assert(rows@[i as int] is None);
                return Err(EvalError::NullEntry);
            },
            Some(n) => {
                if element != expected {
                    return Err(EvalError::DowncastFailed);
                }
                lengths.push(n);
            },
        }
        i = i + 1;
    }
    Ok(lengths)
}

/// The signature is the one the function declares: two call shapes, and the
/// promise that the same input always gives the same output.
pub open spec fn declared(signature: Signature) -> bool {
    &&& signature.volatility == Volatility::Immutable
    &&& signature.one_of@.len() == 2
    &&& (signature.one_of@[0] matches TypeSignature::Uniform { count, valid_types } && count == 2
        && valid_types@ == seq![
        ArgType::FixedSizeList {
            element: ElementType::Float32,
            size: FIXED_SIZE_LIST_WILDCARD,
            nullable: false,
        },
        ArgType::FixedSizeList {
            element: ElementType::Float32,
            size: FIXED_SIZE_LIST_WILDCARD,
            nullable: true,
        },
    ])
    &&& (signature.one_of@[1] matches TypeSignature::Exact { types } && types@ == seq![
        ArgType::FixedSizeList {
            element: ElementType::Float32,
            size: FIXED_SIZE_LIST_WILDCARD,
            nullable: false,
        },
        ArgType::List { element: ElementType::Float64, nullable: true },
    ])
}

/// The Euclidean distance between the vectors of two columns, row by row.
#[derive(Debug)]
pub struct ArrayDistance {
    pub signature: Signature,
}

impl ArrayDistance {
    /// The function with its signature: two fixed-size lists of 32-bit
    /// floats of any one length, or such a list and a variable-length list
    /// of 64-bit floats, which is what a written-out array constant is.
    pub fn new() -> (f: Self)
        ensures
            declared(f.signature),
    {
        let mut valid_types: Vec<ArgType> = Vec::new();
        valid_types.push(
            ArgType::FixedSizeList {
                element: ElementType::Float32,
                size: FIXED_SIZE_LIST_WILDCARD,
                nullable: false,
            },
        );
        valid_types.push(
            ArgType::FixedSizeList {
                element: ElementType::Float32,
                size: FIXED_SIZE_LIST_WILDCARD,
                nullable: true,
            },
        );
        let mut types: Vec<ArgType> = Vec::new();
        types.push(
            ArgType::FixedSizeList {
                element: ElementType::Float32,
                size: FIXED_SIZE_LIST_WILDCARD,
                nullable: false,
            },
        );
        types.push(ArgType::List { element: ElementType::Float64, nullable: true });
        assert(valid_types@ =~= seq![
            ArgType::FixedSizeList {
                element: ElementType::Float32,
                size: FIXED_SIZE_LIST_WILDCARD,
                nullable: false,
            },
            ArgType::FixedSizeList {
                element: ElementType::Float32,
                size: FIXED_SIZE_LIST_WILDCARD,
                nullable: true,
            },
        ]);
        assert(types@ =~= seq![
            ArgType::FixedSizeList {
                element: ElementType::Float32,
                size: FIXED_SIZE_LIST_WILDCARD,
                nullable: false,
            },
            ArgType::List { element: ElementType::Float64, nullable: true },
        ]);
        let mut one_of: Vec<TypeSignature> = Vec::new();
        one_of.push(TypeSignature::Uniform { count: 2, valid_types });
        one_of.push(TypeSignature::Exact { types });
        ArrayDistance { signature: Signature { one_of, volatility: Volatility::Immutable } }
    }

    /// The calls the function accepts.
    pub fn signature(&self) -> (signature: &Signature)
        ensures
            *signature == self.signature,
    {
        &self.signature
    }

    /// The function's name in queries.
    pub fn name(&self) -> (name: &'static str)
        ensures
            name@ == "array_distance"@,
    {
        "array_distance"
    }

    /// The type of the result for these argument types, or why the call is
    /// refused.
    pub fn return_type(&self, args: &Vec<ArgType>) -> (r: Result<ElementType, PlanError>)
        ensures
            r == resolved_type(args@),
    {
        if args.len() != 2 {
            return Err(PlanError::ArgumentCount);
        }
        match (args[0], args[1]) {
            (
                ArgType::FixedSizeList { element: e1, size: s1, nullable: _ },
                ArgType::FixedSizeList { element: e2, size: s2, nullable: _ },
            ) => {
                if e1 != ElementType::Float32 {
                    Err(PlanError::FirstElementType)
                } else if e2 != ElementType::Float32 {
                    Err(PlanError::SecondElementType)
                } else if s1 != s2 {
                    Err(PlanError::SizeMismatch)
                } else {
                    Ok(ElementType::Float32)
                }
            },
            (ArgType::FixedSizeList { .. }, ArgType::List { .. }) => Ok(ElementType::Float32),
            (ArgType::FixedSizeList { .. }, ArgType::Other) => Err(PlanError::SecondArgumentType),
            _ => Err(PlanError::FirstArgumentType),
        }
    }

    /// Checks the rows of the two arguments and says for how many rows a
    /// distance is to be computed: all that the two have in common. It fails
    /// where an argument is of a type the function cannot decode, where a row
    /// is absent or its elements are of the wrong type, and at the first row
    /// whose two vectors differ in length, which it reports with both
    /// lengths.
    pub fn invoke(&self, first: &ColumnShape, second: &ColumnShape) -> (r: Result<
        usize,
        EvalError,
    >)
        ensures
            r is Ok <==> evaluates(first.data_type, first.rows@, second.data_type, second.rows@),
            r is Ok ==> r->Ok_0 == paired_rows(first.rows@, second.rows@),
            r is Err ==> match shape_error(
                first.data_type,
                first.rows@,
                second.data_type,
                second.rows@,
            ) {
                Some(e) => r->Err_0 == e,
                None => exists|i: int| #[trigger]
                    first_mismatch(first.rows@, second.rows@, i) && first.rows@[i] is Some
                        && second.rows@[i] is Some && r->Err_0 == (EvalError::LengthMismatch {
                        left: first.rows@[i]->Some_0,
                        right: second.rows@[i]->Some_0,
                    }),
            },
    {
        let first_element = match first.data_type {
            ArgType::FixedSizeList { element, size: _, nullable: _ } => element,
            _ => {
                return Err(EvalError::FirstArgumentType);
            },
        };
        let v1 = match decode_rows(first_element, ElementType::Float32, &first.rows) {
            Ok(lengths) => lengths,
            Err(e) => {
                return Err(e);
            },
        };
        let decoded = match second.data_type {
            ArgType::FixedSizeList { element, size: _, nullable: _ } => decode_rows(
                element,
                ElementType::Float32,
                &second.rows,
            ),
            ArgType::List { element, nullable: _ } => decode_rows(
                element,
                ElementType::Float64,
                &second.rows,
            ),
            ArgType::Other => {
                return Err(EvalError::SecondArgumentType);
            },
        };
        let v2 = match decoded {
            Ok(lengths) => lengths,
            Err(e) => {
                return Err(e);
            },
        };
        let n: usize = if v1.len() <= v2.len() {
            v1.len()
        } else {
            v2.len()
        };
        let mut i: usize = 0;
        while i < n
            invariant
                i <= n,
                n == paired_rows(first.rows@, second.rows@),
                v1@.len() == first.rows@.len(),
                v2@.len() == second.rows@.len(),
                shape_error(first.data_type, first.rows@, second.data_type, second.rows@) is None,
                forall|j: int| 0 <= j < first.rows@.len() ==> first.rows@[j] == Some(v1@[j]),
                forall|j: int| 0 <= j < second.rows@.len() ==> second.rows@[j] == Some(v2@[j]),
                forall|j: int| 0 <= j < i ==> first.rows@[j] == second.rows@[j],
            decreases n - i,
        {
            if v1[i] != v2[i] {
                assert(first_mismatch(first.rows@, second.rows@, i as int));
                return Err(EvalError::LengthMismatch { left: v1[i], right: v2[i] });
            }
            i = i + 1;
        }
        Ok(n)
    }
}

/// Where the vectors of some row differ in length, the evaluation fails,
/// whatever the types of the two arguments: so it does for a list of
/// constants whose length in some row is not that of the fixed-size list
/// beside it.
pub proof fn lemma_unequal_rows_fail(
    first_type: ArgType,
    first_rows: Seq<Option<usize>>,
    second_type: ArgType,
    second_rows: Seq<Option<usize>>,
    row: int,
)
    requires
        0 <= row < paired_rows(first_rows, second_rows),
        first_rows[row] != second_rows[row],
    ensures
        !evaluates(first_type, first_rows, second_type, second_rows),
{
}

/// The rows of a list of constants are checked as those of a fixed-size
/// list are: beside the same first argument, a variable-length list of
/// 64-bit floats passes the checks exactly where a fixed-size list of 32-bit
/// floats with the same rows does.
pub proof fn lemma_literal_rows_checked_alike(
    first_type: ArgType,
    first_rows: Seq<Option<usize>>,
    second_rows: Seq<Option<usize>>,
    size: i32,
    nullable: bool,
)
    ensures
        evaluates(
            first_type,
            first_rows,
            ArgType::List { element: ElementType::Float64, nullable },
            second_rows,
        ) == evaluates(
            first_type,
            first_rows,
            ArgType::FixedSizeList { element: ElementType::Float32, size, nullable },
            second_rows,
        ),
{
}

/// Two fixed-size lists of 32-bit floats pass the checks in either order or
/// in neither.
pub proof fn lemma_checks_ignore_order(
    size: i32,
    first_rows: Seq<Option<usize>>,
    second_rows: Seq<Option<usize>>,
)
    ensures
        evaluates(
            ArgType::FixedSizeList { element: ElementType::Float32, size, nullable: false },
            first_rows,
            ArgType::FixedSizeList { element: ElementType::Float32, size, nullable: false },
            second_rows,
        ) == evaluates(
            ArgType::FixedSizeList { element: ElementType::Float32, size, nullable: false },
            second_rows,
            ArgType::FixedSizeList { element: ElementType::Float32, size, nullable: false },
            first_rows,
        ),
{
    let t = ArgType::FixedSizeList { element: ElementType::Float32, size, nullable: false };
    if evaluates(t, first_rows, t, second_rows) {
        assert(evaluates(t, second_rows, t, first_rows));
    }
    if evaluates(t, second_rows, t, first_rows) {
        assert(evaluates(t, first_rows, t, second_rows));
    }
}

impl Default for ArrayDistance {
    fn default() -> (f: Self)
        ensures
            declared(f.signature),
    {
        ArrayDistance::new()
    }
}

} // verus!
