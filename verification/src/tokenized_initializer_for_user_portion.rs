//! The Rust module that the shader-module attribute expands to: a function
//! `parsed()` that rebuilds the parsed user portion.
use vstd::prelude::*;
use crate::per_component_expansion::{
    const_assignment_code, function_code, input_array_code, output_array_code, type_code,
    ToStructInitializer,
};
use crate::text::owned;
use crate::wgsl_components::{
    WgslConstAssignment, WgslFunction, WgslInputArray, WgslOutputArray, WgslShaderModuleUserPortion,
    WgslType,
};

verus! {

/// A part whose constructor code can be written.
pub trait InitializerCode {
    spec fn code_spec(&self) -> Seq<char>;

    fn code(&self) -> (res: String)
        ensures
            res@ == self.code_spec(),
    ;
}

impl InitializerCode for WgslConstAssignment {
    open spec fn code_spec(&self) -> Seq<char> {
        const_assignment_code(*self)
    }

    fn code(&self) -> (res: String) {
        ToStructInitializer::wgsl_const_assignment(self)
    }
}

impl InitializerCode for WgslType {
    open spec fn code_spec(&self) -> Seq<char> {
        type_code(*self)
    }

    fn code(&self) -> (res: String) {
        ToStructInitializer::wgsl_type(self)
    }
}

impl InitializerCode for WgslInputArray {
    open spec fn code_spec(&self) -> Seq<char> {
        input_array_code(*self)
    }

    fn code(&self) -> (res: String) {
        ToStructInitializer::wgsl_input_array(self)
    }
}

impl InitializerCode for WgslOutputArray {
    open spec fn code_spec(&self) -> Seq<char> {
        output_array_code(*self)
    }

    fn code(&self) -> (res: String) {
        ToStructInitializer::wgsl_output_array(self)
    }
}

impl InitializerCode for WgslFunction {
    open spec fn code_spec(&self) -> Seq<char> {
        function_code(*self)
    }

    fn code(&self) -> (res: String) {
        ToStructInitializer::wgsl_function(self)
    }
}

/// The constructor code of each part, separated by commas.
pub open spec fn joined_codes<T: InitializerCode>(s: Seq<T>) -> Seq<char>
    decreases s.len(),
{
    if s.len() == 0 {
        Seq::empty()
    } else if s.len() == 1 {
        s[0].code_spec()
    } else {
        joined_codes(s.drop_last()) + ","@ + s.last().code_spec()
    }
}

fn join_codes<T: InitializerCode>(v: &Vec<T>) -> (res: String)
    ensures
        res@ == joined_codes(v@),
{
    let mut out = String::new();
    let n = v.len();
    let mut i: usize = 0;
    while i < n
        invariant
            n == v@.len(),
            i <= n,
            out@ == joined_codes(v@.subrange(0, i as int)),
        decreases n - i,
    {
        if i > 0 {
            out.append(",");
        }
        let c = v[i].code();
        out.append(c.as_str());
        proof {
            assert(v@.subrange(0, i + 1).drop_last() =~= v@.subrange(0, i as int));
            if i == 0 {
                assert(v@.subrange(0, 1)[0] == v@[0]);
            }
        }
        i = i + 1;
    }
    assert(v@.subrange(0, n as int) =~= v@);
    out
}

/// `Some(code)` for an entry point, `None` for none.
pub open spec fn main_function_code(m: Option<WgslFunction>) -> Seq<char> {
    match m {
        Some(f) => "Some("@ + function_code(f) + ")"@,
        None => "None"@,
    }
}

/// The module `vis mod ident { .. pub fn parsed() -> WgslShaderModuleUserPortion }`.
pub open spec fn initializer_module_code(u: WgslShaderModuleUserPortion, vis: Seq<char>, ident: Seq<char>) -> Seq<char> {
    vis + " mod "@ + ident
        + " {\n    use rust_to_wgsl::wgsl_components::*;\n    use rust_to_wgsl::custom_type_name::*;\n\n    pub fn parsed() -> WgslShaderModuleUserPortion {\n        WgslShaderModuleUserPortion {\n            "@
        + "static_consts: ["@
        + joined_codes(u.static_consts@) + "].into(),\n            helper_types: ["@ + joined_codes(
        u.helper_types@,
    ) + "].into(),\n            uniforms: ["@ + joined_codes(u.uniforms@)
        + "].into(),\n            input_arrays: ["@ + joined_codes(u.input_arrays@)
        + "].into(),\n            output_arrays: ["@ + joined_codes(u.output_arrays@)
        + "].into(),\n            helper_functions: ["@ + joined_codes(u.helper_functions@)
        + "].into(),"@ + "\n            main_function: "@ + main_function_code(u.main_function)
        + ",\n        }\n    }\n}"@
}

/// The Rust code of a module whose `parsed()` rebuilds `portion` (see
/// `initializer_module_code`).
#[verifier::spinoff_prover]
#[verifier::rlimit(50)]
pub fn convert_wgsl_shader_module_user_portion_into_tokenized_initializer_code(
    portion: &WgslShaderModuleUserPortion,
    module_visibility: &str,
    module_ident: &str,
) -> (res: String)
    ensures
        res@ == initializer_module_code(*portion, module_visibility@, module_ident@),
{
    let mut s = owned(module_visibility);
    s.append(" mod ");
    s.append(module_ident);
    s.append(
        " {\n    use rust_to_wgsl::wgsl_components::*;\n    use rust_to_wgsl::custom_type_name::*;\n\n    pub fn parsed() -> WgslShaderModuleUserPortion {\n        WgslShaderModuleUserPortion {\n            ",
    );
    s.append("static_consts: [");
    let consts = join_codes(&portion.static_consts);
    s.append(consts.as_str());
    s.append("].into(),\n            helper_types: [");
    let types = join_codes(&portion.helper_types);
    s.append(types.as_str());
    s.append("].into(),\n            uniforms: [");
    let uniforms = join_codes(&portion.uniforms);
    s.append(uniforms.as_str());
    s.append("].into(),\n            input_arrays: [");
    let inputs = join_codes(&portion.input_arrays);
    s.append(inputs.as_str());
    s.append("].into(),\n            output_arrays: [");
    let outputs = join_codes(&portion.output_arrays);
    s.append(outputs.as_str());
    s.append("].into(),\n            helper_functions: [");
    let functions = join_codes(&portion.helper_functions);
    s.append(functions.as_str());
    s.append("].into(),");
    s.append("\n            main_function: ");
    match &portion.main_function {
        Some(f) => {
            s.append("Some(");
            let c = ToStructInitializer::wgsl_function(f);
            s.append(c.as_str());
            s.append(")");
        },
        None => s.append("None"),
    }
    s.append(",\n        }\n    }\n}");
    assert(s@ =~= initializer_module_code(*portion, module_visibility@, module_ident@));
    s
}

} // verus!
