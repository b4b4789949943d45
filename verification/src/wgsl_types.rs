//! Turning Rust types into WGSL type text.
use vstd::prelude::*;
use vstd::string::*;
use crate::errors::WgslError;
use crate::syntax::{ArrayLen, GenericArgument, PathArguments, PathSegment, RustPath, RustType};
use crate::text::{owned, str_eq, string_views};

verus! {

/// `name` is one of the user's own type names.
pub open spec fn is_custom_name(custom: Seq<Seq<char>>, name: Seq<char>) -> bool {
    custom.contains(name)
}

/// Whether `custom` holds `name`.
pub fn contains_name(custom: &Vec<String>, name: &str) -> (res: bool)
    ensures
        res == is_custom_name(string_views(custom@), name@),
{
    let mut i: usize = 0;
    while i < custom.len()
        invariant
            i <= custom@.len(),
            forall|j: int| 0 <= j < i ==> custom@[j]@ != name@,
        decreases custom@.len() - i,
    {
        if str_eq(custom[i].as_str(), name) {
            assert(string_views(custom@)[i as int] == name@);
            return true;
        }
        i = i + 1;
    }
    assert forall|j: int| 0 <= j < string_views(custom@).len() implies string_views(custom@)[j]
        != name@ by {
        assert(string_views(custom@)[j] == custom@[j]@);
    }
    false
}

/// The WGSL spelling of a scalar suffix of the helper vector and matrix types.
pub open spec fn scalar_suffix_wgsl(s: Seq<char>) -> Option<Seq<char>> {
    if s == "I32"@ {
        Some("i32"@)
    } else if s == "U32"@ {
        Some("u32"@)
    } else if s == "F32"@ {
        Some("f32"@)
    } else if s == "F16"@ {
        Some("f16"@)
    } else if s == "Bool"@ {
        Some("bool"@)
    } else {
        None
    }
}

pub open spec fn is_dim(c: char) -> bool {
    c == '2' || c == '3' || c == '4'
}

/// The WGSL type that a helper type such as `Vec3F32` or `Mat2x4Bool` stands for:
/// `VecN<S>` becomes `vecN<s>` and `MatAxB<S>` becomes `matAxB<s>`, for dimensions
/// 2 to 4 and the scalars `I32`, `U32`, `F32`, `F16` and `Bool`.
pub open spec fn helper_type_wgsl(name: Seq<char>) -> Option<Seq<char>> {
    if name.len() >= 4 && name.subrange(0, 3) == "Vec"@ && is_dim(name[3])
        && scalar_suffix_wgsl(name.subrange(4, name.len() as int)) is Some {
        Some("vec"@ + name.subrange(3, 4) + "<"@ + scalar_suffix_wgsl(
            name.subrange(4, name.len() as int),
        ).unwrap() + ">"@)
    } else if name.len() >= 6 && name.subrange(0, 3) == "Mat"@ && is_dim(name[3]) && name[4]
        == 'x' && is_dim(name[5]) && scalar_suffix_wgsl(name.subrange(6, name.len() as int)) is Some {
        Some("mat"@ + name.subrange(3, 6) + "<"@ + scalar_suffix_wgsl(
            name.subrange(6, name.len() as int),
        ).unwrap() + ">"@)
    } else {
        None
    }
}

fn scalar_suffix_to_wgsl(s: &str) -> (res: Option<String>)
    ensures
        match res {
            Some(r) => scalar_suffix_wgsl(s@) == Some(r@),
            None => scalar_suffix_wgsl(s@) is None,
        },
{
    if str_eq(s, "I32") {
        Some(owned("i32"))
    } else if str_eq(s, "U32") {
        Some(owned("u32"))
    } else if str_eq(s, "F32") {
        Some(owned("f32"))
    } else if str_eq(s, "F16") {
        Some(owned("f16"))
    } else if str_eq(s, "Bool") {
        Some(owned("bool"))
    } else {
        None
    }
}

fn is_dim_char(c: char) -> (res: bool)
    ensures
        res == is_dim(c),
{
    c == '2' || c == '3' || c == '4'
}

/// The WGSL type that a helper vector or matrix type name stands for, if it is one.
pub fn helper_type_to_wgsl(name: &str) -> (res: Option<String>)
    ensures
        match res {
            Some(r) => helper_type_wgsl(name@) == Some(r@),
            None => helper_type_wgsl(name@) is None,
        },
{
    let n = name.unicode_len();
    if n >= 4 && str_eq(name.substring_char(0, 3), "Vec") && is_dim_char(name.get_char(3)) {
        if let Some(s) = scalar_suffix_to_wgsl(name.substring_char(4, n)) {
            let mut r = owned("vec");
            r.append(name.substring_char(3, 4));
            r.append("<");
            r.append(s.as_str());
            r.append(">");
            return Some(r);
        }
    }
    if n >= 6 && str_eq(name.substring_char(0, 3), "Mat") && is_dim_char(name.get_char(3))
        && name.get_char(4) == 'x' && is_dim_char(name.get_char(5)) {
        if let Some(s) = scalar_suffix_to_wgsl(name.substring_char(6, n)) {
            let mut r = owned("mat");
            r.append(name.substring_char(3, 6));
            r.append("<");
            r.append(s.as_str());
            r.append(">");
            return Some(r);
        }
    }
    proof {
        reveal_strlit("Mat");
        reveal_strlit("Vec");
        assert("Vec"@[0] != "Mat"@[0]);
    }
    None
}


/// A name that WGSL itself knows and that passes through unchanged.
pub open spec fn is_wgsl_type_name(n: Seq<char>) -> bool {
    ||| n == "atomic"@
    ||| n == "array"@
    ||| n == "f32"@
    ||| n == "i32"@
    ||| n == "u32"@
    ||| n == "bool"@
    ||| n == "vec2"@
    ||| n == "vec3"@
    ||| n == "vec4"@
    ||| n == "mat2x2"@
    ||| n == "mat3x3"@
    ||| n == "mat4x4"@
    ||| n == "mat2x3"@
    ||| n == "mat2x4"@
    ||| n == "mat3x2"@
    ||| n == "mat3x4"@
    ||| n == "mat4x2"@
    ||| n == "mat4x3"@
    ||| n == "WgslIterationPosition"@
}

/// A Rust numeric type that WGSL has no counterpart for.
pub open spec fn is_non_wgsl_numeric(n: Seq<char>) -> bool {
    ||| n == "f64"@
    ||| n == "f8"@
    ||| n == "u8"@
    ||| n == "u16"@
    ||| n == "u64"@
    ||| n == "u128"@
    ||| n == "i8"@
    ||| n == "i16"@
    ||| n == "i64"@
    ||| n == "i128"@
    ||| n == "usize"@
}

/// The WGSL text of an array length.
pub open spec fn array_len_wgsl(len: ArrayLen) -> Result<Seq<char>, WgslError> {
    match len {
        ArrayLen::Int(n) => Ok(n@),
        ArrayLen::OtherLit => Err(WgslError::ArrayLengthNotInteger),
        ArrayLen::NonLiteral => Err(WgslError::ArrayLengthNotConstant),
    }
}

/// The WGSL text of a Rust type; user types (`custom`) keep their names.
pub open spec fn type_wgsl(ty: RustType, custom: Seq<Seq<char>>) -> Result<Seq<char>, WgslError>
    decreases ty,
{
    match ty {
        RustType::Path(p) => {
            if p.segments@.len() == 0 {
                Err(WgslError::EmptyPath)
            } else {
                segment_wgsl(p.segments@.last(), custom)
            }
        },
        RustType::Array { elem, len } => match type_wgsl(*elem, custom) {
            Err(e) => Err(e),
            Ok(t) => match array_len_wgsl(len) {
                Err(e) => Err(e),
                Ok(l) => Ok("array<"@ + t + ", "@ + l + ">"@),
            },
        },
        RustType::Slice(_) => Err(WgslError::SliceType),
        RustType::Tuple(_) => Err(WgslError::TupleType),
        RustType::Group(t) => type_wgsl(*t, custom),
        RustType::Other => Err(WgslError::UnsupportedTypeKind),
    }
}

/// The WGSL text of the generic arguments of a segment (empty when there are none).
pub open spec fn arguments_wgsl(args: PathArguments, custom: Seq<Seq<char>>) -> Result<Seq<char>, WgslError>
    decreases args,
{
    match args {
        PathArguments::NoArgs => Ok(Seq::empty()),
        PathArguments::AngleBracketed(list) => match generic_list_wgsl(list@, custom) {
            Err(e) => Err(e),
            Ok(t) => Ok("<"@ + t + ">"@),
        },
        PathArguments::Parenthesized => Err(WgslError::UnsupportedGenericArgument),
    }
}

/// The generic type arguments, in WGSL, separated by `", "`.
pub open spec fn generic_list_wgsl(s: Seq<GenericArgument>, custom: Seq<Seq<char>>) -> Result<Seq<char>, WgslError>
    decreases s,
{
    if s.len() == 0 {
        Ok(Seq::empty())
    } else {
        match generic_list_wgsl(s.drop_last(), custom) {
            Err(e) => Err(e),
            Ok(prefix) => match s.last() {
                GenericArgument::Type(t) => match type_wgsl(t, custom) {
                    Err(e) => Err(e),
                    Ok(x) => Ok(if s.len() == 1 { x } else { prefix + ", "@ + x }),
                },
                GenericArgument::Other => Err(WgslError::UnsupportedGenericArgument),
            },
        }
    }
}

/// The WGSL text of the type that one path segment names.
pub open spec fn segment_wgsl(seg: PathSegment, custom: Seq<Seq<char>>) -> Result<Seq<char>, WgslError>
    decreases seg,
{
    let n = seg.ident@;
    if is_custom_name(custom, n) || is_wgsl_type_name(n) {
        match arguments_wgsl(seg.arguments, custom) {
            Err(e) => Err(e),
            Ok(a) => Ok(n + a),
        }
    } else if n == "PodF16"@ {
        Ok("f16"@)
    } else if n == "f16"@ {
        Err(WgslError::F16NotPod)
    } else if helper_type_wgsl(n) is Some {
        Ok(helper_type_wgsl(n).unwrap())
    } else {
        Err(WgslError::UnsupportedType(seg.ident))
    }
}

/// The WGSL text of a Rust type as the item-level type pass writes it: scalars and
/// `Vec2<T>`/`Vec3<T>`/`Vec4<T>`/`Mat2`..`Mat4` are converted, numeric types WGSL
/// lacks and `Vec`, slices and tuples are refused, and any other name passes
/// through as written, since it may name a type that the final module defines.
pub open spec fn rust_type_wgsl(ty: RustType) -> Result<Seq<char>, WgslError>
    decreases ty,
{
    match ty {
        RustType::Path(p) => {
            if p.segments@.len() == 0 {
                Err(WgslError::EmptyPath)
            } else {
                rust_segment_wgsl(p.segments@.last())
            }
        },
        RustType::Array { elem, len } => match rust_type_wgsl(*elem) {
            Err(e) => Err(e),
            Ok(t) => match array_len_wgsl(len) {
                Err(e) => Err(e),
                Ok(l) => Ok("array<"@ + t + ", "@ + l + ">"@),
            },
        },
        RustType::Slice(_) => Err(WgslError::SliceType),
        RustType::Tuple(_) => Err(WgslError::TupleType),
        RustType::Group(t) => rust_type_wgsl(*t),
        RustType::Other => Err(WgslError::UnsupportedTypeKind),
    }
}

/// The WGSL text of the type that the last segment of a path names, in the item-level
/// type pass (see `rust_type_wgsl`).
pub open spec fn rust_segment_wgsl(seg: PathSegment) -> Result<Seq<char>, WgslError>
    decreases seg,
{
    let n = seg.ident@;
    if n == "f32"@ || n == "i32"@ || n == "u32"@ || n == "bool"@ {
        Ok(n)
    } else if is_non_wgsl_numeric(n) {
        Err(WgslError::NonWgslNumeric)
    } else if n == "Vec2"@ || n == "Vec3"@ || n == "Vec4"@ {
        match seg.arguments {
            PathArguments::AngleBracketed(list) => {
                if list@.len() > 0 && list@[0] is Type {
                    match rust_type_wgsl(list@[0]->Type_0) {
                        Err(e) => Err(e),
                        Ok(t) => Ok("vec"@ + n.subrange(3, 4) + "<"@ + t + ">"@),
                    }
                } else {
                    Err(WgslError::VectorWithoutElementType)
                }
            },
            _ => Err(WgslError::VectorWithoutElementType),
        }
    } else if n == "Mat2"@ {
        Ok("mat2x2"@)
    } else if n == "Mat3"@ {
        Ok("mat3x3"@)
    } else if n == "Mat4"@ {
        Ok("mat4x4"@)
    } else if n == "Vec"@ {
        Err(WgslError::VecType)
    } else {
        Ok(n)
    }
}

/// The WGSL text of a Rust type as the item formatter writes it: `f32`, `i32`, `u32`
/// and `bool` stay, `Vec2<T>`/`Vec3<T>`/`Vec4<T>` become `vecN<T>`, arrays `[T; N]`
/// become `array<T, N>`, and any other name passes through as written (it may name
/// one of the user's types). Types that are neither paths nor arrays are refused.
pub open spec fn plain_type_wgsl(ty: RustType) -> Result<Seq<char>, WgslError>
    decreases ty,
{
    match ty {
        RustType::Path(p) => {
            if p.segments@.len() == 0 {
                Err(WgslError::EmptyPath)
            } else {
                let seg = p.segments@.last();
                let n = seg.ident@;
                if n == "Vec2"@ || n == "Vec3"@ || n == "Vec4"@ {
                    match seg.arguments {
                        PathArguments::AngleBracketed(list) => {
                            if list@.len() > 0 && list@[0] is Type {
                                match plain_type_wgsl(list@[0]->Type_0) {
                                    Err(e) => Err(e),
                                    Ok(t) => Ok("vec"@ + n.subrange(3, 4) + "<"@ + t + ">"@),
                                }
                            } else {
                                Err(WgslError::VectorWithoutElementType)
                            }
                        },
                        _ => Err(WgslError::VectorWithoutElementType),
                    }
                } else {
                    Ok(n)
                }
            }
        },
        RustType::Array { elem, len } => match plain_type_wgsl(*elem) {
            Err(e) => Err(e),
            Ok(t) => match array_len_wgsl(len) {
                Err(e) => Err(e),
                Ok(l) => Ok("array<"@ + t + ", "@ + l + ">"@),
            },
        },
        _ => Err(WgslError::UnsupportedTypeKind),
    }
}

/// A result whose text is seen as a character sequence.
pub open spec fn text_result(r: Result<String, WgslError>) -> Result<Seq<char>, WgslError> {
    match r {
        Ok(s) => Ok(s@),
        Err(e) => Err(e),
    }
}

fn is_wgsl_type_name_exec(n: &str) -> (res: bool)
    ensures
        res == is_wgsl_type_name(n@),
{
    str_eq(n, "atomic") || str_eq(n, "array") || str_eq(n, "f32") || str_eq(n, "i32") || str_eq(
        n,
        "u32",
    ) || str_eq(n, "bool") || str_eq(n, "vec2") || str_eq(n, "vec3") || str_eq(n, "vec4")
        || str_eq(n, "mat2x2") || str_eq(n, "mat3x3") || str_eq(n, "mat4x4") || str_eq(n, "mat2x3")
        || str_eq(n, "mat2x4") || str_eq(n, "mat3x2") || str_eq(n, "mat3x4") || str_eq(n, "mat4x2")
        || str_eq(n, "mat4x3") || str_eq(n, "WgslIterationPosition")
}

fn is_non_wgsl_numeric_exec(n: &str) -> (res: bool)
    ensures
        res == is_non_wgsl_numeric(n@),
{
    str_eq(n, "f64") || str_eq(n, "f8") || str_eq(n, "u8") || str_eq(n, "u16") || str_eq(n, "u64")
        || str_eq(n, "u128") || str_eq(n, "i8") || str_eq(n, "i16") || str_eq(n, "i64") || str_eq(
        n,
        "i128",
    ) || str_eq(n, "usize")
}

/// The WGSL text of an array length: an integer literal as written.
pub fn format_array_len(len: &ArrayLen) -> (res: Result<String, WgslError>)
    ensures
        text_result(res) == array_len_wgsl(*len),
{
    match len {
        ArrayLen::Int(n) => Ok(owned(n.as_str())),
        ArrayLen::OtherLit => Err(WgslError::ArrayLengthNotInteger),
        ArrayLen::NonLiteral => Err(WgslError::ArrayLengthNotConstant),
    }
}

proof fn lemma_path_segment_decreases(ty: RustType, i: int)
    requires
        ty is Path,
        0 <= i < ty->Path_0.segments@.len(),
    ensures
        decreases_to!(ty => ty->Path_0.segments@[i]),
{
    let p = ty->Path_0;
    assert(decreases_to!(ty => p));
    assert(decreases_to!(p => p.segments));
    assert(decreases_to!(p.segments => p.segments@));
    assert(decreases_to!(p.segments@ => p.segments@[i]));
}

proof fn lemma_generic_arg_decreases(args: PathArguments, i: int)
    requires
        args is AngleBracketed,
        0 <= i < args->AngleBracketed_0@.len(),
        args->AngleBracketed_0@[i] is Type,
    ensures
        decreases_to!(args => args->AngleBracketed_0@[i]->Type_0),
{
    let l = args->AngleBracketed_0;
    assert(decreases_to!(args => l));
    assert(decreases_to!(l => l@));
    assert(decreases_to!(l@ => l@[i]));
    assert(decreases_to!(l@[i] => l@[i]->Type_0));
}

/// The WGSL text of a Rust type. User types (`custom`) keep their names; WGSL's own
/// type names stay; helper vector and matrix types such as `Vec3F32` become WGSL
/// vectors and matrices; `PodF16` becomes `f16`; arrays `[T; N]` become
/// `array<T, N>`; any other name, and anything WGSL cannot hold, is an error.
pub fn type_to_wgsl(ty: &RustType, custom: &Vec<String>) -> (res: Result<String, WgslError>)
    ensures
        text_result(res) == type_wgsl(*ty, string_views(custom@)),
    decreases ty, 0nat,
{
    match ty {
        RustType::Path(p) => {
            let n = p.segments.len();
            if n == 0 {
                return Err(WgslError::EmptyPath);
            }
            proof {
                lemma_path_segment_decreases(*ty, n - 1);
            }
            convert_path_segment(&p.segments[n - 1], custom)
        },
        RustType::Array { elem, len } => {
            let t = type_to_wgsl(elem, custom)?;
            let l = format_array_len(len)?;
            let mut r = owned("array<");
            r.append(t.as_str());
            r.append(", ");
            r.append(l.as_str());
            r.append(">");
            Ok(r)
        },
        RustType::Slice(_) => Err(WgslError::SliceType),
        RustType::Tuple(_) => Err(WgslError::TupleType),
        RustType::Group(t) => type_to_wgsl(t, custom),
        RustType::Other => Err(WgslError::UnsupportedTypeKind),
    }
}

/// The WGSL text of the generic arguments of a path segment, `<...>` or nothing.
pub fn convert_path_arguments(args: &PathArguments, custom: &Vec<String>) -> (res: Result<String, WgslError>)
    ensures
        text_result(res) == arguments_wgsl(*args, string_views(custom@)),
    decreases args, 0nat,
{
    match args {
        PathArguments::NoArgs => Ok(String::new()),
        PathArguments::AngleBracketed(list) => {
            assert(list@.subrange(0, list@.len() as int) =~= list@);
            let inner = generic_prefix_to_wgsl(list, list.len(), custom)?;
            let mut r = owned("<");
            r.append(inner.as_str());
            r.append(">");
            Ok(r)
        },
        PathArguments::Parenthesized => Err(WgslError::UnsupportedGenericArgument),
    }
}

fn generic_prefix_to_wgsl(list: &Vec<GenericArgument>, k: usize, custom: &Vec<String>) -> (res: Result<String, WgslError>)
    requires
        k <= list@.len(),
    ensures
        text_result(res) == generic_list_wgsl(list@.subrange(0, k as int), string_views(custom@)),
    decreases list, k,
{
    if k == 0 {
        return Ok(String::new());
    }
    assert(list@.subrange(0, k as int).drop_last() =~= list@.subrange(0, k - 1));
    let prefix = generic_prefix_to_wgsl(list, k - 1, custom)?;
    match &list[k - 1] {
        GenericArgument::Type(t) => {
            proof {
                assert(decreases_to!(*list => list@));
                assert(decreases_to!(list@ => list@[k - 1]));
                assert(decreases_to!(list@[k - 1] => list@[k - 1]->Type_0));
            }
            let x = type_to_wgsl(t, custom)?;
            if k == 1 {
                Ok(x)
            } else {
                let mut r = prefix;
                r.append(", ");
                r.append(x.as_str());
                Ok(r)
            }
        },
        GenericArgument::Other => Err(WgslError::UnsupportedGenericArgument),
    }
}

/// The WGSL text of the type named by one path segment (see `segment_wgsl`).
pub fn convert_path_segment(seg: &PathSegment, custom: &Vec<String>) -> (res: Result<String, WgslError>)
    ensures
        text_result(res) == segment_wgsl(*seg, string_views(custom@)),
    decreases seg, 0nat,
{
    let n = seg.ident.as_str();
    if contains_name(custom, n) || is_wgsl_type_name_exec(n) {
        proof {
            assert(decreases_to!(*seg => seg.arguments));
        }
        let a = convert_path_arguments(&seg.arguments, custom)?;
        let mut r = owned(n);
        r.append(a.as_str());
        return Ok(r);
    }
    if str_eq(n, "PodF16") {
        return Ok(owned("f16"));
    }
    if str_eq(n, "f16") {
        return Err(WgslError::F16NotPod);
    }
    if let Some(h) = helper_type_to_wgsl(n) {
        return Ok(h);
    }
    Err(WgslError::UnsupportedType(seg.ident.clone()))
}

/// The WGSL text of a Rust type as the item formatter writes it (see
/// `plain_type_wgsl`): names other than the vector types pass through.
pub fn convert_type_to_wgsl(ty: &RustType) -> (res: Result<String, WgslError>)
    ensures
        text_result(res) == plain_type_wgsl(*ty),
    decreases ty,
{
    match ty {
        RustType::Path(p) => {
            let n = p.segments.len();
            if n == 0 {
                return Err(WgslError::EmptyPath);
            }
            proof {
                lemma_path_segment_decreases(*ty, n - 1);
            }
            let seg = &p.segments[n - 1];
            let name = seg.ident.as_str();
            if str_eq(name, "Vec2") || str_eq(name, "Vec3") || str_eq(name, "Vec4") {
                if let PathArguments::AngleBracketed(list) = &seg.arguments {
                    if list.len() > 0 {
                        if let GenericArgument::Type(t) = &list[0] {
                            proof {
                                assert(decreases_to!(*seg => seg.arguments));
                                lemma_generic_arg_decreases(seg.arguments, 0);
                            }
                            let x = convert_type_to_wgsl(t)?;
                            proof {
                                reveal_strlit("Vec2");
                                reveal_strlit("Vec3");
                                reveal_strlit("Vec4");
                            }
                            let mut r = owned("vec");
                            r.append(name.substring_char(3, 4));
                            r.append("<");
                            r.append(x.as_str());
                            r.append(">");
                            return Ok(r);
                        }
                    }
                }
                return Err(WgslError::VectorWithoutElementType);
            }
            Ok(owned(name))
        },
        RustType::Array { elem, len } => {
            let t = convert_type_to_wgsl(elem)?;
            let l = format_array_len(len)?;
            let mut r = owned("array<");
            r.append(t.as_str());
            r.append(", ");
            r.append(l.as_str());
            r.append(">");
            Ok(r)
        },
        _ => Err(WgslError::UnsupportedTypeKind),
    }
}

/// The WGSL text of a Rust type in the item-level type pass (see `rust_type_wgsl`):
/// names it does not know pass through unchanged.
pub fn convert_rust_type_to_wgsl(ty: &RustType) -> (res: Result<String, WgslError>)
    ensures
        text_result(res) == rust_type_wgsl(*ty),
    decreases ty, 0nat,
{
    match ty {
        RustType::Path(p) => {
            let n = p.segments.len();
            if n == 0 {
                return Err(WgslError::EmptyPath);
            }
            proof {
                lemma_path_segment_decreases(*ty, n - 1);
            }
            rust_handle_path_segment(&p.segments[n - 1])
        },
        RustType::Array { elem, len } => {
            let t = convert_rust_type_to_wgsl(elem)?;
            let l = format_array_len(len)?;
            let mut r = owned("array<");
            r.append(t.as_str());
            r.append(", ");
            r.append(l.as_str());
            r.append(">");
            Ok(r)
        },
        RustType::Slice(_) => Err(WgslError::SliceType),
        RustType::Tuple(_) => Err(WgslError::TupleType),
        RustType::Group(t) => convert_rust_type_to_wgsl(t),
        RustType::Other => Err(WgslError::UnsupportedTypeKind),
    }
}

/// The WGSL text of the type named by a path segment in the item-level type pass
/// (see `rust_segment_wgsl`).
pub fn rust_handle_path_segment(seg: &PathSegment) -> (res: Result<String, WgslError>)
    ensures
        text_result(res) == rust_segment_wgsl(*seg),
    decreases seg, 0nat,
{
    let n = seg.ident.as_str();
    if str_eq(n, "f32") || str_eq(n, "i32") || str_eq(n, "u32") || str_eq(n, "bool") {
        return Ok(owned(n));
    }
    if is_non_wgsl_numeric_exec(n) {
        return Err(WgslError::NonWgslNumeric);
    }
    if str_eq(n, "Vec2") || str_eq(n, "Vec3") || str_eq(n, "Vec4") {
        match &seg.arguments {
            PathArguments::AngleBracketed(list) => {
                if list.len() > 0 {
                    match &list[0] {
                        GenericArgument::Type(t) => {
                            proof {
                                assert(decreases_to!(*seg => seg.arguments));
                                lemma_generic_arg_decreases(seg.arguments, 0);
                            }
                            let x = convert_rust_type_to_wgsl(t)?;
                            proof {
                                reveal_strlit("Vec2");
                                reveal_strlit("Vec3");
                                reveal_strlit("Vec4");
                            }
                            let mut r = owned("vec");
                            r.append(seg.ident.as_str().substring_char(3, 4));
                            r.append("<");
                            r.append(x.as_str());
                            r.append(">");
                            return Ok(r);
                        },
                        GenericArgument::Other => {
                            return Err(WgslError::VectorWithoutElementType);
                        },
                    }
                }
                return Err(WgslError::VectorWithoutElementType);
            },
            _ => {
                return Err(WgslError::VectorWithoutElementType);
            },
        }
    }
    if str_eq(n, "Mat2") {
        return Ok(owned("mat2x2"));
    }
    if str_eq(n, "Mat3") {
        return Ok(owned("mat3x3"));
    }
    if str_eq(n, "Mat4") {
        return Ok(owned("mat4x4"));
    }
    if str_eq(n, "Vec") {
        return Err(WgslError::VecType);
    }
    Ok(owned(n))
}

} // verus!
