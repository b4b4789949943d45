//! The pieces a shader module is made of, each with its Rust and its WGSL text.
use vstd::prelude::*;
use crate::custom_type_name::CustomTypeName;
use crate::text::owned;

verus! {

/// One piece of a module: its Rust source and the WGSL it became.
#[derive(Debug, PartialEq)]
pub struct WgslShaderModuleComponent {
    pub rust_code: String,
    pub wgsl_code: String,
}

/// The parts of a module that the user wrote.
#[derive(Debug, PartialEq)]
pub struct WgslShaderModuleUserPortion {
    /// `const` items.
    pub static_consts: Vec<WgslConstAssignment>,
    /// Structs and aliases that live on the GPU only.
    pub helper_types: Vec<WgslType>,
    /// Types marked `#[wgsl_config]`.
    pub uniforms: Vec<WgslType>,
    /// Types marked `#[wgsl_input_array]`.
    pub input_arrays: Vec<WgslInputArray>,
    /// Types marked `#[wgsl_output_array]` or `#[wgsl_output_vec]`.
    pub output_arrays: Vec<WgslOutputArray>,
    /// Every function but `main`.
    pub helper_functions: Vec<WgslFunction>,
    /// The function named `main`.
    pub main_function: Option<WgslFunction>,
}

impl WgslShaderModuleUserPortion {
    pub fn empty() -> (res: WgslShaderModuleUserPortion)
        ensures
            res.static_consts@.len() == 0,
            res.helper_types@.len() == 0,
            res.uniforms@.len() == 0,
            res.input_arrays@.len() == 0,
            res.output_arrays@.len() == 0,
            res.helper_functions@.len() == 0,
            res.main_function is None,
    {
        WgslShaderModuleUserPortion {
            static_consts: Vec::new(),
            helper_types: Vec::new(),
            uniforms: Vec::new(),
            input_arrays: Vec::new(),
            output_arrays: Vec::new(),
            helper_functions: Vec::new(),
            main_function: None,
        }
    }
}

/// A user-defined type.
#[derive(Debug, PartialEq)]
pub struct WgslType {
    pub name: CustomTypeName,
    pub code: WgslShaderModuleComponent,
}

/// A type the library defines from a user type (such as the array of an input).
#[derive(Debug, PartialEq)]
pub struct WgslDerivedType {
    pub name: String,
    pub code: WgslShaderModuleComponent,
}

#[derive(Debug, PartialEq)]
pub struct WgslFunction {
    pub name: String,
    pub code: WgslShaderModuleComponent,
}

/// A constant.
#[derive(Debug, PartialEq)]
pub struct WgslConstAssignment {
    pub code: WgslShaderModuleComponent,
}

/// `const {name}: {ty} = {value};`
pub open spec fn const_rust_text(name: Seq<char>, ty: Seq<char>, value: Seq<char>) -> Seq<char> {
    "const "@ + name + ": "@ + ty + " = "@ + value + ";"@
}

/// `override {name}: {ty} = {value};`
pub open spec fn override_wgsl_text(name: Seq<char>, ty: Seq<char>, value: Seq<char>) -> Seq<char> {
    "override "@ + name + ": "@ + ty + " = "@ + value + ";"@
}

fn assignment_text(keyword: &str, name: &str, ty: &str, value: &str) -> (res: String)
    ensures
        res@ == keyword@ + name@ + ": "@ + ty@ + " = "@ + value@ + ";"@,
{
    let mut s = owned(keyword);
    s.append(name);
    s.append(": ");
    s.append(ty);
    s.append(" = ");
    s.append(value);
    s.append(";");
    s
}

impl WgslConstAssignment {
    /// A pipeline-overridable constant: a Rust `const` and a WGSL `override`.
    pub fn new(name: &str, scalar_type: &str, value: &str) -> (res: WgslConstAssignment)
        ensures
            res.code.rust_code@ == const_rust_text(name@, scalar_type@, value@),
            res.code.wgsl_code@ == override_wgsl_text(name@, scalar_type@, value@),
    {
        let rust_code = assignment_text("const ", name, scalar_type, value);
        let wgsl_code = assignment_text("override ", name, scalar_type, value);
        proof {
            reveal_strlit("const ");
            reveal_strlit("override ");
        }
        WgslConstAssignment { code: WgslShaderModuleComponent { rust_code, wgsl_code } }
    }
}

/// The length of an array, as a named constant.
#[derive(Debug, PartialEq)]
pub struct WgslArrayLength {
    pub name: String,
    pub code: WgslShaderModuleComponent,
}

/// An input array: its item type and the array type built from it.
#[derive(Debug, PartialEq)]
pub struct WgslInputArray {
    pub item_type: WgslType,
    pub array_type: WgslDerivedType,
}

/// An output array; `atomic_counter_name` is set where the output has a variable length.
#[derive(Debug, PartialEq)]
pub struct WgslOutputArray {
    pub item_type: WgslType,
    pub array_type: WgslDerivedType,
    pub atomic_counter_name: Option<String>,
}

#[derive(Debug, Clone, Copy, PartialEq, Eq, Structural)]
pub enum WgpuShaderType {
    Compute,
    Vertex,
    Fragment,
}

impl WgpuShaderType {
    /// The stage's name; only compute shaders are supported.
    pub fn to_string(&self) -> (res: String)
        requires
            *self == WgpuShaderType::Compute,
        ensures
            res@ == "compute"@,
    {
        owned("compute")
    }
}

pub const WORKGROUP_SIZE_X_VAR_NAME: &'static str = "_LIB_WORKGROUP_SIZE_X";

pub const WORKGROUP_SIZE_Y_VAR_NAME: &'static str = "_LIB_WORKGROUP_SIZE_Y";

pub const WORKGROUP_SIZE_Z_VAR_NAME: &'static str = "_LIB_WORKGROUP_SIZE_Z";

/// `@compute @workgroup_size(X, Y, Z)` and a line break, with the workgroup sizes
/// given by pipeline constants.
pub open spec fn workgroup_declaration_text() -> Seq<char> {
    "@compute @workgroup_size(_LIB_WORKGROUP_SIZE_X, _LIB_WORKGROUP_SIZE_Y, _LIB_WORKGROUP_SIZE_Z)\n"@
}

/// The attribute line in front of the entry point.
#[derive(Debug, PartialEq)]
pub struct WgslWorkgroupDeclaration {
    pub shader_type: WgpuShaderType,
}

impl WgslWorkgroupDeclaration {
    pub fn to_string(&self) -> (res: String)
        requires
            self.shader_type == WgpuShaderType::Compute,
        ensures
            res@ == workgroup_declaration_text(),
    {
        let mut s = owned("@");
        let stage = self.shader_type.to_string();
        s.append(stage.as_str());
        s.append(" @workgroup_size(");
        s.append(WORKGROUP_SIZE_X_VAR_NAME);
        s.append(", ");
        s.append(WORKGROUP_SIZE_Y_VAR_NAME);
        s.append(", ");
        s.append(WORKGROUP_SIZE_Z_VAR_NAME);
        s.append(")\n");
        proof {
            reveal_strlit("@");
            reveal_strlit("compute");
            reveal_strlit(" @workgroup_size(");
            reveal_strlit("_LIB_WORKGROUP_SIZE_X");
            reveal_strlit("_LIB_WORKGROUP_SIZE_Y");
            reveal_strlit("_LIB_WORKGROUP_SIZE_Z");
            reveal_strlit(", ");
            reveal_strlit(")\n");
            reveal_strlit(
                "@compute @workgroup_size(_LIB_WORKGROUP_SIZE_X, _LIB_WORKGROUP_SIZE_Y, _LIB_WORKGROUP_SIZE_Z)\n",
            );
        }
        assert(s@ =~= workgroup_declaration_text());
        s
    }
}

} // verus!
