//! Rust source text that rebuilds each part of a parsed module, for the code that
//! the shader-module attribute expands to.
use vstd::prelude::*;
use crate::custom_type_name::CustomTypeName;
use crate::text::owned;
use crate::wgsl_components::{
    WgslConstAssignment, WgslDerivedType, WgslFunction, WgslInputArray, WgslOutputArray,
    WgslShaderModuleComponent, WgslType,
};

verus! {

/// How one character is written inside a Rust string literal: `"` and `\` behind a
/// backslash; line feed, carriage return, tab and NUL as `\n`, `\r`, `\t` and `\0`;
/// every other character as itself.
pub open spec fn escape_char(c: char) -> Seq<char> {
    if c == '"' {
        seq!['\\', '"']
    } else if c == '\\' {
        seq!['\\', '\\']
    } else if c == '\n' {
        seq!['\\', 'n']
    } else if c == '\r' {
        seq!['\\', 'r']
    } else if c == '\t' {
        seq!['\\', 't']
    } else if c == '\0' {
        seq!['\\', '0']
    } else {
        seq![c]
    }
}

/// The characters of `s`, each written as `escape_char` writes it.
pub open spec fn escaped(s: Seq<char>) -> Seq<char>
    decreases s.len(),
{
    if s.len() == 0 {
        Seq::empty()
    } else {
        escaped(s.drop_last()) + escape_char(s.last())
    }
}

/// The Rust string literal whose value is `s`: its escaped characters in double
/// quotes.
pub open spec fn string_literal(s: Seq<char>) -> Seq<char> {
    seq!['"'] + escaped(s) + seq!['"']
}

/// The character that an escape `\\c` stands for, for the escapes `escape_char` writes.
pub open spec fn unescaped_char(c: char) -> Option<char> {
    if c == '"' {
        Some('"')
    } else if c == '\\' {
        Some('\\')
    } else if c == 'n' {
        Some('\n')
    } else if c == 'r' {
        Some('\r')
    } else if c == 't' {
        Some('\t')
    } else if c == '0' {
        Some('\0')
    } else {
        None
    }
}

/// The text that the inside of a Rust string literal stands for, reading the escapes
/// that `escape_char` writes; `None` where the inside holds a bare `"` or carriage
/// return, a lone `\\`, or another escape.
pub open spec fn unescape(t: Seq<char>) -> Option<Seq<char>>
    decreases t.len(),
{
    if t.len() == 0 {
        Some(Seq::empty())
    } else if t[0] == '\\' {
        if t.len() < 2 {
            None
        } else {
            match unescaped_char(t[1]) {
                None => None,
                Some(c) => match unescape(t.subrange(2, t.len() as int)) {
                    None => None,
                    Some(rest) => Some(seq![c] + rest),
                },
            }
        }
    } else if t[0] == '"' || t[0] == '\r' {
        None
    } else {
        match unescape(t.subrange(1, t.len() as int)) {
            None => None,
            Some(rest) => Some(seq![t[0]] + rest),
        }
    }
}

fn escape_char_text(c: char) -> (res: Option<&'static str>)
    ensures
        match res {
            Some(t) => t@ == escape_char(c),
            None => escape_char(c) == seq![c],
        },
{
    proof {
        reveal_strlit("\\\"");
        reveal_strlit("\\\\");
        reveal_strlit("\\n");
        reveal_strlit("\\r");
        reveal_strlit("\\t");
        reveal_strlit("\\0");
    }
    if c == '"' {
        Some("\\\"")
    } else if c == '\\' {
        Some("\\\\")
    } else if c == '\n' {
        Some("\\n")
    } else if c == '\r' {
        Some("\\r")
    } else if c == '\t' {
        Some("\\t")
    } else if c == '\0' {
        Some("\\0")
    } else {
        None
    }
}

/// The Rust string literal whose value is `s` (see `string_literal`).
pub fn rust_string_literal(s: &str) -> (res: String)
    ensures
        res@ == string_literal(s@),
{
    proof {
        reveal_strlit("\"");
    }
    let n = s.unicode_len();
    let mut r = owned("\"");
    let mut i: usize = 0;
    assert(s@.subrange(0, 0) =~= Seq::<char>::empty());
    while i < n
        invariant
            n == s@.len(),
            i <= n,
            r@ == seq!['"'] + escaped(s@.subrange(0, i as int)),
        decreases n - i,
    {
        let c = s.get_char(i);
        match escape_char_text(c) {
            Some(t) => r.append(t),
            None => r.append(s.substring_char(i, i + 1)),
        }
        proof {
            assert(s@.subrange(0, i + 1).drop_last() =~= s@.subrange(0, i as int));
            assert(s@.subrange(i as int, i + 1) =~= seq![c]);
            assert(r@ =~= seq!['"'] + escaped(s@.subrange(0, i + 1)));
        }
        i = i + 1;
    }
    assert(s@.subrange(0, n as int) =~= s@);
    r.append("\"");
    assert(r@ =~= string_literal(s@));
    r
}

/// `(LITERAL).to_string()`
pub open spec fn owned_literal(s: Seq<char>) -> Seq<char> {
    "("@ + string_literal(s) + ").to_string()"@
}

fn owned_literal_code(s: &str) -> (res: String)
    ensures
        res@ == owned_literal(s@),
{
    let lit = rust_string_literal(s);
    let mut r = owned("(");
    r.append(lit.as_str());
    r.append(").to_string()");
    r
}

pub open spec fn component_code(c: WgslShaderModuleComponent) -> Seq<char> {
    "WgslShaderModuleComponent { rust_code: "@ + owned_literal(c.rust_code@) + ", wgsl_code: "@
        + owned_literal(c.wgsl_code@) + " }"@
}

pub open spec fn custom_type_name_code(n: CustomTypeName) -> Seq<char> {
    "CustomTypeName::new(&"@ + owned_literal(n.name@) + ")"@
}

pub open spec fn type_code(t: WgslType) -> Seq<char> {
    "WgslType { name: "@ + custom_type_name_code(t.name) + ", code: "@ + component_code(t.code)
        + " }"@
}

pub open spec fn derived_type_code(d: WgslDerivedType) -> Seq<char> {
    "WgslDerivedType { name: "@ + owned_literal(d.name@) + ", code: "@ + component_code(d.code)
        + " }"@
}

pub open spec fn function_code(f: WgslFunction) -> Seq<char> {
    "WgslFunction { name: "@ + owned_literal(f.name@) + ", code: "@ + component_code(f.code) + " }"@
}

pub open spec fn const_assignment_code(c: WgslConstAssignment) -> Seq<char> {
    "WgslConstAssignment { code: "@ + component_code(c.code) + " }"@
}

pub open spec fn input_array_code(a: WgslInputArray) -> Seq<char> {
    "WgslInputArray { item_type: "@ + type_code(a.item_type) + ", array_type: "@ + derived_type_code(
        a.array_type,
    ) + " }"@
}

pub open spec fn counter_name_code(c: Option<String>) -> Seq<char> {
    match c {
        None => "None"@,
        Some(n) => "Some("@ + owned_literal(n@) + ")"@,
    }
}

pub open spec fn output_array_code(a: WgslOutputArray) -> Seq<char> {
    "WgslOutputArray { item_type: "@ + type_code(a.item_type) + ", array_type: "@ + derived_type_code(
        a.array_type,
    ) + ", atomic_counter_name: "@ + counter_name_code(a.atomic_counter_name) + " }"@
}

/// Writes the Rust code that constructs each part of a module.
pub struct ToStructInitializer {}

impl ToStructInitializer {
    pub fn wgsl_shader_module_component(c: &WgslShaderModuleComponent) -> (res: String)
        ensures
            res@ == component_code(*c),
    {
        let mut r = owned("WgslShaderModuleComponent { rust_code: ");
        let a = owned_literal_code(c.rust_code.as_str());
        r.append(a.as_str());
        r.append(", wgsl_code: ");
        let b = owned_literal_code(c.wgsl_code.as_str());
        r.append(b.as_str());
        r.append(" }");
        r
    }

    pub fn custom_type_name(c: &CustomTypeName) -> (res: String)
        ensures
            res@ == custom_type_name_code(*c),
    {
        let mut r = owned("CustomTypeName::new(&");
        let a = owned_literal_code(c.name.as_str());
        r.append(a.as_str());
        r.append(")");
        r
    }

    pub fn wgsl_type(c: &WgslType) -> (res: String)
        ensures
            res@ == type_code(*c),
    {
        let mut r = owned("WgslType { name: ");
        let n = ToStructInitializer::custom_type_name(&c.name);
        r.append(n.as_str());
        r.append(", code: ");
        let code = ToStructInitializer::wgsl_shader_module_component(&c.code);
        r.append(code.as_str());
        r.append(" }");
        r
    }

    pub fn wgsl_derived_type(c: &WgslDerivedType) -> (res: String)
        ensures
            res@ == derived_type_code(*c),
    {
        let mut r = owned("WgslDerivedType { name: ");
        let n = owned_literal_code(c.name.as_str());
        r.append(n.as_str());
        r.append(", code: ");
        let code = ToStructInitializer::wgsl_shader_module_component(&c.code);
        r.append(code.as_str());
        r.append(" }");
        r
    }

    pub fn wgsl_function(c: &WgslFunction) -> (res: String)
        ensures
            res@ == function_code(*c),
    {
        let mut r = owned("WgslFunction { name: ");
        let n = owned_literal_code(c.name.as_str());
        r.append(n.as_str());
        r.append(", code: ");
        let code = ToStructInitializer::wgsl_shader_module_component(&c.code);
        r.append(code.as_str());
        r.append(" }");
        r
    }

    pub fn wgsl_const_assignment(c: &WgslConstAssignment) -> (res: String)
        ensures
            res@ == const_assignment_code(*c),
    {
        let mut r = owned("WgslConstAssignment { code: ");
        let code = ToStructInitializer::wgsl_shader_module_component(&c.code);
        r.append(code.as_str());
        r.append(" }");
        r
    }

    pub fn wgsl_input_array(c: &WgslInputArray) -> (res: String)
        ensures
            res@ == input_array_code(*c),
    {
        let mut r = owned("WgslInputArray { item_type: ");
        let t = ToStructInitializer::wgsl_type(&c.item_type);
        r.append(t.as_str());
        r.append(", array_type: ");
        let d = ToStructInitializer::wgsl_derived_type(&c.array_type);
        r.append(d.as_str());
        r.append(" }");
        r
    }

    pub fn wgsl_output_array(c: &WgslOutputArray) -> (res: String)
        ensures
            res@ == output_array_code(*c),
    {
        let mut r = owned("WgslOutputArray { item_type: ");
        let t = ToStructInitializer::wgsl_type(&c.item_type);
        r.append(t.as_str());
        r.append(", array_type: ");
        let d = ToStructInitializer::wgsl_derived_type(&c.array_type);
        r.append(d.as_str());
        r.append(", atomic_counter_name: ");
        match &c.atomic_counter_name {
            None => r.append("None"),
            Some(n) => {
                r.append("Some(");
                let l = owned_literal_code(n.as_str());
                r.append(l.as_str());
                r.append(")");
            },
        }
        r.append(" }");
        r
    }
}

} // verus!
