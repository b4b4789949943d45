//! The reasons for which the library rejects a shader module.
use vstd::prelude::*;
use crate::syntax::ExprKind;
use crate::text::{concat2, owned};

verus! {

/// Why a shader module, or a part of it, cannot be turned into WGSL.
#[derive(Debug, PartialEq)]
pub enum WgslError {
    /// A string, byte or char literal.
    UnsupportedLiteral,
    /// An array literal `[a, b]`.
    ArrayLiteral,
    /// An expression kind that WGSL has no counterpart for.
    UnsupportedExpression(ExprKind),
    /// A `for` loop that is not `for name in start..end` (or `start..=end`).
    UnsupportedForLoop,
    /// A path with more than one segment that is not `NativeType::new`.
    ComplexPath,
    /// A path without any segment.
    EmptyPath,
    /// `&mut expr`.
    MutableReference,
    /// An item or a macro in statement position.
    UnsupportedStatement,
    /// A `let` whose pattern is not a plain name.
    UnsupportedVariablePattern,
    /// A type name that is neither WGSL, a helper type nor a user type.
    UnsupportedType(String),
    /// A type that is neither a path, an array nor a group.
    UnsupportedTypeKind,
    /// Rust's `f16`, which is not plain old data.
    F16NotPod,
    /// A numeric type that WGSL lacks (`u8`, `f64`, ...).
    NonWgslNumeric,
    /// `Vec2`, `Vec3` or `Vec4` without an element type.
    VectorWithoutElementType,
    /// `Vec<T>`.
    VecType,
    /// `[T]`.
    SliceType,
    /// `(A, B)`.
    TupleType,
    /// A generic argument that is not a type.
    UnsupportedGenericArgument,
    /// An array length literal that is not an integer.
    ArrayLengthNotInteger,
    /// An array length that is not a literal.
    ArrayLengthNotConstant,
    /// `type Alias = Vec3F32;` and the like.
    AliasOfHelperType,
    /// A tuple-struct field.
    UnnamedStructField,
    /// A function parameter whose pattern is not a plain name.
    UnsupportedParameterPattern,
    /// A `self` parameter.
    UnsupportedParameterType,
    /// `main` does not take exactly one parameter.
    MainParameterCount,
    /// `main`'s parameter is not a `WgslGlobalId`.
    MainParameterType,
    /// `main` declares a return type.
    MainReturnType,
    /// An assignment to `global_id`.
    GlobalIdAssignment,
    /// An assignment to a field of `global_id`.
    GlobalIdComponentAssignment,
    /// `mod name;` without a body.
    NoModuleBody,
    /// A `use` of anything but the helper module.
    InvalidUseStatement,
    /// A second `use` of the helper module.
    DuplicateUseStatement,
    /// An item that is not a const, struct, type alias, function or use.
    UnsupportedItem,
    /// More than one function named `main`.
    MultipleMainFunctions,
    /// No function named `main`.
    NoMainFunction,
    /// `WgslVecInput::vec_val` without an index.
    MissingVecValArgument,
    /// `WgslOutput::push` without a value.
    MissingPushArgument,
    /// `WgslOutput::set` without an index and a value.
    MissingSetArguments,
}


/// The message shown for an expression kind that WGSL cannot express.
pub open spec fn expr_kind_message(k: ExprKind) -> Seq<char> {
    match k {
        ExprKind::Async => "Async expressions are not supported in WGSL"@,
        ExprKind::Await => "Await expressions are not supported in WGSL"@,
        ExprKind::Cast => "Cast expressions are not supported in WGSL"@,
        ExprKind::Closure => "Closure expressions are not supported in WGSL"@,
        ExprKind::Const => "Const blocks are not supported in WGSL"@,
        ExprKind::Infer => "Type inference expressions are not supported in WGSL"@,
        ExprKind::Let => "Let guards are not supported in WGSL"@,
        ExprKind::Macro => "Macro invocations are not supported in WGSL"@,
        ExprKind::Match => "Match expressions are not supported in WGSL"@,
        ExprKind::MethodCall => "Method calls are not supported in WGSL, use standalone functions instead"@,
        ExprKind::Range => "Range expressions are not supported in WGSL"@,
        ExprKind::Try => "Try expressions are not supported in WGSL"@,
        ExprKind::TryBlock => "Try blocks are not supported in WGSL"@,
        ExprKind::Tuple => "Tuple expressions are not supported in WGSL"@,
        ExprKind::Unsafe => "Unsafe blocks are not supported in WGSL"@,
        ExprKind::Yield => "Yield expressions are not supported in WGSL"@,
        ExprKind::Other => "Unsupported expression type in WGSL"@,
    }
}

/// The message shown for an error.
pub open spec fn error_message(e: WgslError) -> Seq<char> {
    match e {
        WgslError::UnsupportedExpression(k) => expr_kind_message(k),
        WgslError::UnsupportedType(n) => "Unsupported type in type_to_wgsl: "@ + n@,
        WgslError::UnsupportedLiteral => "Unsupported literal type in constant expression"@,
        WgslError::ArrayLiteral => "Array literals are not supported in WGSL"@,
        WgslError::UnsupportedForLoop => "Only for loops of the form `for name in start..end` are supported in WGSL"@,
        WgslError::ComplexPath => "Complex paths are not supported in WGSL, only simple identifiers are allowed"@,
        WgslError::EmptyPath => "Type path should have at least one segment"@,
        WgslError::MutableReference => "Mutable references are not supported in WGSL yet"@,
        WgslError::UnsupportedStatement => "Unsupported statement type"@,
        WgslError::UnsupportedVariablePattern => "Unsupported variable pattern"@,
        WgslError::UnsupportedTypeKind => "Unsupported type in convert_type_to_wgsl"@,
        WgslError::F16NotPod => "Standard rust f16s are not \"Pods\", use `PodF16` instead of `f16`. This is because we use `bytemuck` for creating and reading GPU buffers."@,
        WgslError::NonWgslNumeric => "WGSL only supports the numeric types f32, f16, i32 and u32"@,
        WgslError::VectorWithoutElementType => "Vector types require a type parameter"@,
        WgslError::VecType => "WGSL does not support Vec types."@,
        WgslError::SliceType => "WGSL does not support slices."@,
        WgslError::TupleType => "WGSL does not support tuples."@,
        WgslError::UnsupportedGenericArgument => "Only type arguments are supported in WGSL"@,
        WgslError::ArrayLengthNotInteger => "Array length must be an integer literal"@,
        WgslError::ArrayLengthNotConstant => "Array length must be a constant expression"@,
        WgslError::AliasOfHelperType => "Renaming/aliasing helper types like Vec3F32, Mat2x2Bool, etc. is not supported. For example don't do `type MyType = Vec3U32;`. Instead put it in a struct field like `struct MyType = { v: Vec3U32 }`"@,
        WgslError::UnnamedStructField => "Unnamed struct fields are not supported in WGSL"@,
        WgslError::UnsupportedParameterPattern => "Unsupported parameter pattern"@,
        WgslError::UnsupportedParameterType => "Unsupported parameter type"@,
        WgslError::MainParameterCount => "Main function must have exactly one parameter of type WgslGlobalId"@,
        WgslError::MainParameterType => "Main function parameter must be of type WgslGlobalId"@,
        WgslError::MainReturnType => "Main function cannot have a return type"@,
        WgslError::GlobalIdAssignment => "Cannot assign to global_id"@,
        WgslError::GlobalIdComponentAssignment => "Cannot assign to global_id components"@,
        WgslError::NoModuleBody => "Shader module must have a body"@,
        WgslError::InvalidUseStatement => "You cannot export anything into a wgsl module, except for the single helper module this library provides."@,
        WgslError::DuplicateUseStatement => "Only one helper module import is allowed in a wgsl module."@,
        WgslError::UnsupportedItem => "Unsupported item type in shader module"@,
        WgslError::MultipleMainFunctions => "Multiple main functions found"@,
        WgslError::NoMainFunction => "No main function found in shader module"@,
        WgslError::MissingVecValArgument => "Expected an argument for input vec value getter"@,
        WgslError::MissingPushArgument => "Expected an argument for output push"@,
        WgslError::MissingSetArguments => "Expected two arguments for output set"@,
    }
}

fn expr_kind_message_text(k: ExprKind) -> (res: String)
    ensures
        res@ == expr_kind_message(k),
{
    match k {
        ExprKind::Async => owned("Async expressions are not supported in WGSL"),
        ExprKind::Await => owned("Await expressions are not supported in WGSL"),
        ExprKind::Cast => owned("Cast expressions are not supported in WGSL"),
        ExprKind::Closure => owned("Closure expressions are not supported in WGSL"),
        ExprKind::Const => owned("Const blocks are not supported in WGSL"),
        ExprKind::Infer => owned("Type inference expressions are not supported in WGSL"),
        ExprKind::Let => owned("Let guards are not supported in WGSL"),
        ExprKind::Macro => owned("Macro invocations are not supported in WGSL"),
        ExprKind::Match => owned("Match expressions are not supported in WGSL"),
        ExprKind::MethodCall => owned("Method calls are not supported in WGSL, use standalone functions instead"),
        ExprKind::Range => owned("Range expressions are not supported in WGSL"),
        ExprKind::Try => owned("Try expressions are not supported in WGSL"),
        ExprKind::TryBlock => owned("Try blocks are not supported in WGSL"),
        ExprKind::Tuple => owned("Tuple expressions are not supported in WGSL"),
        ExprKind::Unsafe => owned("Unsafe blocks are not supported in WGSL"),
        ExprKind::Yield => owned("Yield expressions are not supported in WGSL"),
        ExprKind::Other => owned("Unsupported expression type in WGSL"),
    }
}

impl WgslError {
    /// The message shown to the user for this error.
    pub fn message(&self) -> (res: String)
        ensures
            res@ == error_message(*self),
    {
        match self {
            WgslError::UnsupportedExpression(k) => expr_kind_message_text(*k),
            WgslError::UnsupportedType(n) => concat2("Unsupported type in type_to_wgsl: ", n.as_str()),
            WgslError::UnsupportedLiteral => owned("Unsupported literal type in constant expression"),
            WgslError::ArrayLiteral => owned("Array literals are not supported in WGSL"),
            WgslError::UnsupportedForLoop => owned("Only for loops of the form `for name in start..end` are supported in WGSL"),
            WgslError::ComplexPath => owned("Complex paths are not supported in WGSL, only simple identifiers are allowed"),
            WgslError::EmptyPath => owned("Type path should have at least one segment"),
            WgslError::MutableReference => owned("Mutable references are not supported in WGSL yet"),
            WgslError::UnsupportedStatement => owned("Unsupported statement type"),
            WgslError::UnsupportedVariablePattern => owned("Unsupported variable pattern"),
            WgslError::UnsupportedTypeKind => owned("Unsupported type in convert_type_to_wgsl"),
            WgslError::F16NotPod => owned("Standard rust f16s are not \"Pods\", use `PodF16` instead of `f16`. This is because we use `bytemuck` for creating and reading GPU buffers."),
            WgslError::NonWgslNumeric => owned("WGSL only supports the numeric types f32, f16, i32 and u32"),
            WgslError::VectorWithoutElementType => owned("Vector types require a type parameter"),
            WgslError::VecType => owned("WGSL does not support Vec types."),
            WgslError::SliceType => owned("WGSL does not support slices."),
            WgslError::TupleType => owned("WGSL does not support tuples."),
            WgslError::UnsupportedGenericArgument => owned("Only type arguments are supported in WGSL"),
            WgslError::ArrayLengthNotInteger => owned("Array length must be an integer literal"),
            WgslError::ArrayLengthNotConstant => owned("Array length must be a constant expression"),
            WgslError::AliasOfHelperType => owned("Renaming/aliasing helper types like Vec3F32, Mat2x2Bool, etc. is not supported. For example don't do `type MyType = Vec3U32;`. Instead put it in a struct field like `struct MyType = { v: Vec3U32 }`"),
            WgslError::UnnamedStructField => owned("Unnamed struct fields are not supported in WGSL"),
            WgslError::UnsupportedParameterPattern => owned("Unsupported parameter pattern"),
            WgslError::UnsupportedParameterType => owned("Unsupported parameter type"),
            WgslError::MainParameterCount => owned("Main function must have exactly one parameter of type WgslGlobalId"),
            WgslError::MainParameterType => owned("Main function parameter must be of type WgslGlobalId"),
            WgslError::MainReturnType => owned("Main function cannot have a return type"),
            WgslError::GlobalIdAssignment => owned("Cannot assign to global_id"),
            WgslError::GlobalIdComponentAssignment => owned("Cannot assign to global_id components"),
            WgslError::NoModuleBody => owned("Shader module must have a body"),
            WgslError::InvalidUseStatement => owned("You cannot export anything into a wgsl module, except for the single helper module this library provides."),
            WgslError::DuplicateUseStatement => owned("Only one helper module import is allowed in a wgsl module."),
            WgslError::UnsupportedItem => owned("Unsupported item type in shader module"),
            WgslError::MultipleMainFunctions => owned("Multiple main functions found"),
            WgslError::NoMainFunction => owned("No main function found in shader module"),
            WgslError::MissingVecValArgument => owned("Expected an argument for input vec value getter"),
            WgslError::MissingPushArgument => owned("Expected an argument for output push"),
            WgslError::MissingSetArguments => owned("Expected two arguments for output set"),
        }
    }
}

} // verus!
