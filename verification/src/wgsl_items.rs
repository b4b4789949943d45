//! Turning the items of a shader module (structs, aliases, constants, functions)
//! into WGSL text.
use vstd::prelude::*;
use crate::errors::WgslError;
use crate::syntax::{Field, FnArg, ItemConst, ItemFn, ItemStruct, ItemType, Pat, RustType};
use crate::text::{owned, str_eq, string_views};
use crate::validation::{main_function_check, validate_main_function};
use crate::wgsl_exprs::{block_to_wgsl, expr_to_wgsl, expr_wgsl, stmts_wgsl};
use crate::wgsl_types::{type_to_wgsl, helper_type_to_wgsl, helper_type_wgsl, text_result, type_wgsl};

verus! {

/// `    name: type` for a named field.
pub open spec fn field_wgsl(f: Field, custom: Seq<Seq<char>>) -> Result<Seq<char>, WgslError> {
    match f.ident {
        None => Err(WgslError::UnnamedStructField),
        Some(name) => match type_wgsl(f.ty, custom) {
            Err(e) => Err(e),
            Ok(t) => Ok("    "@ + name@ + ": "@ + t),
        },
    }
}

/// The fields, one per line, separated by commas.
pub open spec fn fields_wgsl(s: Seq<Field>, custom: Seq<Seq<char>>) -> Result<Seq<char>, WgslError>
    decreases s.len(),
{
    if s.len() == 0 {
        Ok(Seq::empty())
    } else {
        match fields_wgsl(s.drop_last(), custom) {
            Err(e) => Err(e),
            Ok(prefix) => match field_wgsl(s.last(), custom) {
                Err(e) => Err(e),
                Ok(x) => Ok(
                    if s.len() == 1 {
                        x
                    } else {
                        prefix + ",\n"@ + x
                    },
                ),
            },
        }
    }
}

/// `struct Name {\n    a: T,\n    b: U\n}`
pub open spec fn struct_wgsl(s: ItemStruct, custom: Seq<Seq<char>>) -> Result<Seq<char>, WgslError> {
    match fields_wgsl(s.fields@, custom) {
        Err(e) => Err(e),
        Ok(f) => Ok("struct "@ + s.name@ + " {\n"@ + f + "\n}"@),
    }
}

fn field_to_wgsl(f: &Field, custom: &Vec<String>) -> (res: Result<String, WgslError>)
    ensures
        text_result(res) == field_wgsl(*f, string_views(custom@)),
{
    match &f.ident {
        None => Err(WgslError::UnnamedStructField),
        Some(name) => {
            let t = type_to_wgsl(&f.ty, custom)?;
            let mut r = owned("    ");
            r.append(name.as_str());
            r.append(": ");
            r.append(t.as_str());
            Ok(r)
        },
    }
}

fn fields_prefix_to_wgsl(list: &Vec<Field>, k: usize, custom: &Vec<String>) -> (res: Result<String, WgslError>)
    requires
        k <= list@.len(),
    ensures
        text_result(res) == fields_wgsl(list@.subrange(0, k as int), string_views(custom@)),
    decreases k,
{
    if k == 0 {
        return Ok(String::new());
    }
    assert(list@.subrange(0, k as int).drop_last() =~= list@.subrange(0, k - 1));
    let prefix = fields_prefix_to_wgsl(list, k - 1, custom)?;
    let x = field_to_wgsl(&list[k - 1], custom)?;
    if k == 1 {
        Ok(x)
    } else {
        let mut r = prefix;
        r.append(",\n");
        r.append(x.as_str());
        Ok(r)
    }
}

/// A struct as a WGSL struct declaration; tuple structs are rejected.
pub fn format_struct_as_wgsl(structure: &ItemStruct, custom: &Vec<String>) -> (res: Result<String, WgslError>)
    ensures
        text_result(res) == struct_wgsl(*structure, string_views(custom@)),
{
    assert(structure.fields@.subrange(0, structure.fields@.len() as int) =~= structure.fields@);
    let f = fields_prefix_to_wgsl(&structure.fields, structure.fields.len(), custom)?;
    let mut r = owned("struct ");
    r.append(structure.name.as_str());
    r.append(" {\n");
    r.append(f.as_str());
    r.append("\n}");
    Ok(r)
}

/// `name: type` for a parameter with a plain name.
pub open spec fn param_wgsl(a: FnArg, custom: Seq<Seq<char>>) -> Result<Seq<char>, WgslError> {
    match a {
        FnArg::Receiver => Err(WgslError::UnsupportedParameterType),
        FnArg::Typed { pat, ty } => match pat {
            Pat::Ident(name) => match type_wgsl(ty, custom) {
                Err(e) => Err(e),
                Ok(t) => Ok(name@ + ": "@ + t),
            },
            Pat::Other => Err(WgslError::UnsupportedParameterPattern),
        },
    }
}

/// The parameters, separated by `", "`.
pub open spec fn params_wgsl(s: Seq<FnArg>, custom: Seq<Seq<char>>) -> Result<Seq<char>, WgslError>
    decreases s.len(),
{
    if s.len() == 0 {
        Ok(Seq::empty())
    } else {
        match params_wgsl(s.drop_last(), custom) {
            Err(e) => Err(e),
            Ok(prefix) => match param_wgsl(s.last(), custom) {
                Err(e) => Err(e),
                Ok(x) => Ok(
                    if s.len() == 1 {
                        x
                    } else {
                        prefix + ", "@ + x
                    },
                ),
            },
        }
    }
}

/// ` -> type`, or nothing for a function without a return type.
pub open spec fn return_wgsl(output: Option<RustType>, custom: Seq<Seq<char>>) -> Result<Seq<char>, WgslError> {
    match output {
        None => Ok(Seq::empty()),
        Some(t) => match type_wgsl(t, custom) {
            Err(e) => Err(e),
            Ok(x) => Ok(" -> "@ + x),
        },
    }
}

/// `fn name(params) -> ret {\nbody\n}`; parameters are converted first, then the
/// return type, then the body.
pub open spec fn function_wgsl(f: ItemFn, custom: Seq<Seq<char>>) -> Result<Seq<char>, WgslError> {
    match params_wgsl(f.inputs@, custom) {
        Err(e) => Err(e),
        Ok(p) => match return_wgsl(f.output, custom) {
            Err(e) => Err(e),
            Ok(r) => match stmts_wgsl(f.block.stmts@) {
                Err(e) => Err(e),
                Ok(b) => Ok("fn "@ + f.name@ + "("@ + p + ")"@ + r + " {\n"@ + b + "\n}"@),
            },
        },
    }
}

fn param_to_wgsl(a: &FnArg, custom: &Vec<String>) -> (res: Result<String, WgslError>)
    ensures
        text_result(res) == param_wgsl(*a, string_views(custom@)),
{
    match a {
        FnArg::Receiver => Err(WgslError::UnsupportedParameterType),
        FnArg::Typed { pat, ty } => match pat {
            Pat::Ident(name) => {
                let t = type_to_wgsl(ty, custom)?;
                let mut r = owned(name.as_str());
                r.append(": ");
                r.append(t.as_str());
                Ok(r)
            },
            Pat::Other => Err(WgslError::UnsupportedParameterPattern),
        },
    }
}

fn params_prefix_to_wgsl(list: &Vec<FnArg>, k: usize, custom: &Vec<String>) -> (res: Result<String, WgslError>)
    requires
        k <= list@.len(),
    ensures
        text_result(res) == params_wgsl(list@.subrange(0, k as int), string_views(custom@)),
    decreases k,
{
    if k == 0 {
        return Ok(String::new());
    }
    assert(list@.subrange(0, k as int).drop_last() =~= list@.subrange(0, k - 1));
    let prefix = params_prefix_to_wgsl(list, k - 1, custom)?;
    let x = param_to_wgsl(&list[k - 1], custom)?;
    if k == 1 {
        Ok(x)
    } else {
        let mut r = prefix;
        r.append(", ");
        r.append(x.as_str());
        Ok(r)
    }
}

/// A function as a WGSL function declaration (see `function_wgsl`).
pub fn format_function_as_wgsl(function: &ItemFn, custom: &Vec<String>) -> (res: Result<String, WgslError>)
    ensures
        text_result(res) == function_wgsl(*function, string_views(custom@)),
{
    assert(function.inputs@.subrange(0, function.inputs@.len() as int) =~= function.inputs@);
    let p = params_prefix_to_wgsl(&function.inputs, function.inputs.len(), custom)?;
    let r = match &function.output {
        None => String::new(),
        Some(t) => {
            let x = type_to_wgsl(t, custom)?;
            let mut s = owned(" -> ");
            s.append(x.as_str());
            s
        },
    };
    let b = block_to_wgsl(&function.block)?;
    let mut s = owned("fn ");
    s.append(function.name.as_str());
    s.append("(");
    s.append(p.as_str());
    s.append(")");
    s.append(r.as_str());
    s.append(" {\n");
    s.append(b.as_str());
    s.append("\n}");
    Ok(s)
}

/// The entry point: once `main_function_check` passes, its one parameter (which must
/// have a plain name) becomes the global invocation id:
/// `fn main(@builtin(global_invocation_id) id: vec3<u32>) {\nbody\n}`.
pub open spec fn main_wgsl(f: ItemFn) -> Result<Seq<char>, WgslError> {
    match main_function_check(f) {
        Err(e) => Err(e),
        Ok(_) => match f.inputs@[0] {
            FnArg::Receiver => Err(WgslError::UnsupportedParameterType),
            FnArg::Typed { pat, ty } => match pat {
                Pat::Other => Err(WgslError::UnsupportedParameterPattern),
                Pat::Ident(name) => match stmts_wgsl(f.block.stmts@) {
                    Err(e) => Err(e),
                    Ok(b) => Ok(
                        "fn main(@builtin(global_invocation_id) "@ + name@ + ": vec3<u32>) {\n"@ + b
                            + "\n}"@,
                    ),
                },
            },
        },
    }
}

/// The entry point in WGSL (see `main_wgsl`).
pub fn format_main_function(function: &ItemFn) -> (res: Result<String, WgslError>)
    ensures
        text_result(res) == main_wgsl(*function),
{
    validate_main_function(function)?;
    match &function.inputs[0] {
        FnArg::Receiver => Err(WgslError::UnsupportedParameterType),
        FnArg::Typed { pat, ty: _ } => match pat {
            Pat::Other => Err(WgslError::UnsupportedParameterPattern),
            Pat::Ident(name) => {
                let b = block_to_wgsl(&function.block)?;
                let mut s = owned("fn main(@builtin(global_invocation_id) ");
                s.append(name.as_str());
                s.append(": vec3<u32>) {\n");
                s.append(b.as_str());
                s.append("\n}");
                Ok(s)
            },
        },
    }
}

/// A name that WGSL uses for its own vector and matrix types.
pub open spec fn is_wgsl_vector_or_matrix(n: Seq<char>) -> bool {
    ||| n == "vec2"@
    ||| n == "vec3"@
    ||| n == "vec4"@
    ||| n == "mat2x2"@
    ||| n == "mat2x3"@
    ||| n == "mat2x4"@
    ||| n == "mat3x2"@
    ||| n == "mat3x3"@
    ||| n == "mat3x4"@
    ||| n == "mat4x2"@
    ||| n == "mat4x3"@
    ||| n == "mat4x4"@
}

/// A vector or matrix helper type, in its Rust or its WGSL spelling.
pub open spec fn is_vector_or_matrix_name(n: Seq<char>) -> bool {
    ||| helper_type_wgsl(n) is Some
    ||| n == "Vec2"@
    ||| n == "Vec3"@
    ||| n == "Vec4"@
    ||| n == "Mat2"@
    ||| n == "Mat3"@
    ||| n == "Mat4"@
    ||| is_wgsl_vector_or_matrix(n)
}

/// `alias Name = type;`; an alias of a vector or matrix type is rejected.
pub open spec fn type_alias_wgsl(t: ItemType, custom: Seq<Seq<char>>) -> Result<Seq<char>, WgslError> {
    if (t.ty matches RustType::Path(p) && p.segments@.len() > 0 && is_vector_or_matrix_name(
        p.segments@[0].ident@,
    )) {
        Err(WgslError::AliasOfHelperType)
    } else {
        match type_wgsl(t.ty, custom) {
            Err(e) => Err(e),
            Ok(x) => Ok("alias "@ + t.name@ + " = "@ + x + ";"@),
        }
    }
}

fn is_wgsl_vector_or_matrix_exec(n: &str) -> (res: bool)
    ensures
        res == is_wgsl_vector_or_matrix(n@),
{
    str_eq(n, "vec2") || str_eq(n, "vec3") || str_eq(n, "vec4") || str_eq(n, "mat2x2") || str_eq(
        n,
        "mat2x3",
    ) || str_eq(n, "mat2x4") || str_eq(n, "mat3x2") || str_eq(n, "mat3x3") || str_eq(n, "mat3x4")
        || str_eq(n, "mat4x2") || str_eq(n, "mat4x3") || str_eq(n, "mat4x4")
}

fn is_vector_or_matrix_name_exec(n: &str) -> (res: bool)
    ensures
        res == is_vector_or_matrix_name(n@),
{
    helper_type_to_wgsl(n).is_some() || str_eq(n, "Vec2") || str_eq(n, "Vec3") || str_eq(n, "Vec4")
        || str_eq(n, "Mat2") || str_eq(n, "Mat3") || str_eq(n, "Mat4")
        || is_wgsl_vector_or_matrix_exec(n)
}

/// A type alias as a WGSL alias (see `type_alias_wgsl`).
pub fn type_def_to_wgsl(type_def: &ItemType, custom: &Vec<String>) -> (res: Result<String, WgslError>)
    ensures
        text_result(res) == type_alias_wgsl(*type_def, string_views(custom@)),
{
    if let RustType::Path(p) = &type_def.ty {
        if p.segments.len() > 0 && is_vector_or_matrix_name_exec(p.segments[0].ident.as_str()) {
            return Err(WgslError::AliasOfHelperType);
        }
    }
    let x = type_to_wgsl(&type_def.ty, custom)?;
    let mut s = owned("alias ");
    s.append(type_def.name.as_str());
    s.append(" = ");
    s.append(x.as_str());
    s.append(";");
    Ok(s)
}

/// `const NAME: type = value;`; the type is converted before the value.
pub open spec fn const_wgsl(c: ItemConst, custom: Seq<Seq<char>>) -> Result<Seq<char>, WgslError> {
    match type_wgsl(c.ty, custom) {
        Err(e) => Err(e),
        Ok(t) => match expr_wgsl(c.expr) {
            Err(e) => Err(e),
            Ok(v) => Ok("const "@ + c.name@ + ": "@ + t + " = "@ + v + ";"@),
        },
    }
}

/// A constant as a WGSL constant (see `const_wgsl`).
pub fn format_const_as_wgsl(constant: &ItemConst, custom: &Vec<String>) -> (res: Result<String, WgslError>)
    ensures
        text_result(res) == const_wgsl(*constant, string_views(custom@)),
{
    let t = type_to_wgsl(&constant.ty, custom)?;
    let v = expr_to_wgsl(&constant.expr)?;
    let mut s = owned("const ");
    s.append(constant.name.as_str());
    s.append(": ");
    s.append(t.as_str());
    s.append(" = ");
    s.append(v.as_str());
    s.append(";");
    Ok(s)
}

} // verus!
