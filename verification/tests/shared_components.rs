use rust_to_wgsl::compose_wgsl_module::compose_wgsl;
use rust_to_wgsl::custom_type_name::CustomTypeName;
use rust_to_wgsl::per_component_expansion::ToStructInitializer;
use rust_to_wgsl::tokenized_initializer_for_user_portion::convert_wgsl_shader_module_user_portion_into_tokenized_initializer_code;
use rust_to_wgsl::wgsl_components::{
    WgpuShaderType, WgslConstAssignment, WgslDerivedType, WgslFunction, WgslInputArray,
    WgslOutputArray, WgslShaderModuleComponent, WgslShaderModuleUserPortion, WgslType,
    WgslWorkgroupDeclaration,
};
use rust_to_wgsl::wgsl_shader_module::{IterSpaceDimmension, WgslShaderModule};
use rust_to_wgsl::wgsl_shader_module_lib_portion::WgslShaderModuleLibraryPortion;
use rust_to_wgsl::wgsl_wgpu_binding::{
    u32_to_decimal, WgpuBufferAccessMode, WgpuBufferType, WgslWgpuBinding,
};

fn component(rust: &str, wgsl: &str) -> WgslShaderModuleComponent {
    WgslShaderModuleComponent { rust_code: rust.to_string(), wgsl_code: wgsl.to_string() }
}

fn wgsl_type(name: &str, wgsl: &str) -> WgslType {
    WgslType { name: CustomTypeName::new(&name.to_string()), code: component("", wgsl) }
}

/// A module with one constant, one uniform, one input array, one output vector,
/// one output array, one helper function and `main`.
fn sample_portion() -> WgslShaderModuleUserPortion {
    let mut u = WgslShaderModuleUserPortion::empty();
    u.static_consts.push(WgslConstAssignment { code: component("const A: u32 = 1;", "const A: u32 = 1;") });
    u.uniforms.push(wgsl_type("Uniforms", "struct Uniforms {\n    time: f32\n}"));
    let position = wgsl_type("Position", "alias Position = array<f32, 2>;");
    let position_array = WgslDerivedType {
        name: position.name.input_array(),
        code: component("", "alias position_input_array = array<Position, POSITION_INPUT_ARRAY_LENGTH>;"),
    };
    u.input_arrays.push(WgslInputArray { item_type: position, array_type: position_array });
    let hit = wgsl_type("Hit", "struct Hit {\n    a: u32\n}");
    let hit_array = WgslDerivedType { name: hit.name.output_array(), code: component("", "") };
    let hit_counter = hit.name.counter();
    u.output_arrays.push(WgslOutputArray { item_type: hit, array_type: hit_array, atomic_counter_name: Some(hit_counter) });
    let cell = wgsl_type("Cell", "struct Cell {\n    d: f32\n}");
    let cell_array = WgslDerivedType { name: cell.name.output_array(), code: component("", "") };
    u.output_arrays.push(WgslOutputArray { item_type: cell, array_type: cell_array, atomic_counter_name: None });
    u.helper_functions.push(WgslFunction { name: "f".to_string(), code: component("", "fn f() -> f32 {\nreturn 1.0;\n}") });
    u.main_function = Some(WgslFunction {
        name: "main".to_string(),
        code: component("", "fn main(@builtin(global_invocation_id) global_id: vec3<u32>) {\nreturn;\n}"),
    });
    u
}

const EXPECTED_BODY: &str = "const A: u32 = 1;\n\
override _LIB_WORKGROUP_SIZE_X: u32 = 64;\n\
override _LIB_WORKGROUP_SIZE_Y: u32 = 1;\n\
override _LIB_WORKGROUP_SIZE_Z: u32 = 1;\n\
override POSITION_INPUT_ARRAY_LENGTH: u32 = 1;\n\
override HIT_OUTPUT_ARRAY_LENGTH: u32 = 1;\n\
override CELL_OUTPUT_ARRAY_LENGTH: u32 = 1;\n\
struct Uniforms {\n    time: f32\n}\n\
alias Position = array<f32, 2>;\n\
struct Hit {\n    a: u32\n}\n\
struct Cell {\n    d: f32\n}\n\
@group(0) @binding(0) var<uniform> uniforms: Uniforms;\n\n\
@group(0) @binding(1) var<storage, read> position_input_array: position_input_array;\n\n\
@group(0) @binding(2) var<storage, read_write> hit_output_array: hit_output_array;\n\n\
@group(0) @binding(3) var<storage, read_write> hit_counter: atomic<u32>;\n\n\
@group(0) @binding(4) var<storage, read_write> cell_output_array: cell_output_array;\n\n\
fn f() -> f32 {\nreturn 1.0;\n}\n";

const MAIN: &str = "fn main(@builtin(global_invocation_id) global_id: vec3<u32>) {\nreturn;\n}\n";

#[test]
fn custom_type_names() {
    let n = CustomTypeName::new(&"CollisionResult".to_string());
    assert_eq!(n.name, "CollisionResult");
    assert_eq!(n.upper, "COLLISIONRESULT");
    assert_eq!(n.lower, "collisionresult");
    assert_eq!(n.uniform(), "collisionresult");
    assert_eq!(n.input_array_length(), "COLLISIONRESULT_INPUT_ARRAY_LENGTH");
    assert_eq!(n.input_array(), "collisionresult_input_array");
    assert_eq!(n.output_array_length(), "COLLISIONRESULT_OUTPUT_ARRAY_LENGTH");
    assert_eq!(n.output_array(), "collisionresult_output_array");
    assert_eq!(n.counter(), "collisionresult_counter");
    assert_eq!(n.index(), "collisionresult_output_array_index");
    assert!(n.eq(&"CollisionResult".to_string()));
    assert!(!n.eq(&"collisionresult".to_string()));
    assert_eq!(
        n.to_struct_initializer(),
        "CustomTypeName {\n                name: \"CollisionResult\".to_string(),\n                upper: \"COLLISIONRESULT\".to_string(),\n                lower: \"collisionresult\".to_string(),\n            }"
    );
}

#[test]
fn const_assignment_texts() {
    let c = WgslConstAssignment::new("_LIB_WORKGROUP_SIZE_X", "u32", "64");
    assert_eq!(c.code.rust_code, "const _LIB_WORKGROUP_SIZE_X: u32 = 64;");
    assert_eq!(c.code.wgsl_code, "override _LIB_WORKGROUP_SIZE_X: u32 = 64;");
}

#[test]
fn shader_type_and_workgroup_declaration() {
    assert_eq!(WgpuShaderType::Compute.to_string(), "compute");
    let d = WgslWorkgroupDeclaration { shader_type: WgpuShaderType::Compute };
    assert_eq!(
        d.to_string(),
        "@compute @workgroup_size(_LIB_WORKGROUP_SIZE_X, _LIB_WORKGROUP_SIZE_Y, _LIB_WORKGROUP_SIZE_Z)\n"
    );
}

#[test]
fn decimal_numbers() {
    assert_eq!(u32_to_decimal(0), "0");
    assert_eq!(u32_to_decimal(7), "7");
    assert_eq!(u32_to_decimal(10), "10");
    assert_eq!(u32_to_decimal(305), "305");
    assert_eq!(u32_to_decimal(u32::MAX), "4294967295");
}

#[test]
fn binding_declarations() {
    let u = WgslWgpuBinding::uniform(0, 0, "uniforms".to_string(), "Uniforms");
    assert_eq!(u.to_string(), "@group(0) @binding(0) var<uniform> uniforms: Uniforms;\n");
    let i = WgslWgpuBinding::input_array(1, 12, "a".to_string(), "A".to_string());
    assert_eq!(i.to_string(), "@group(1) @binding(12) var<storage, read> a: A;\n");
    let o = WgslWgpuBinding::output_array(0, 3, "b".to_string(), "B".to_string());
    assert_eq!(o.to_string(), "@group(0) @binding(3) var<storage, read_write> b: B;\n");
    let hit = wgsl_type("Hit", "");
    let counter_name = hit.name.counter();
    let arr = WgslOutputArray {
        item_type: hit,
        array_type: WgslDerivedType { name: "hit_output_array".to_string(), code: component("", "") },
        atomic_counter_name: Some(counter_name),
    };
    let c = WgslWgpuBinding::counter(4, &arr, &o);
    assert_eq!(c.to_string(), "@group(0) @binding(4) var<storage, read_write> hit_counter: atomic<u32>;\n");
}

#[test]
fn buffer_keywords() {
    assert_eq!(WgpuBufferType::Storage.to_string(), "storage");
    assert_eq!(WgpuBufferType::Uniform.to_string(), "uniform");
    assert_eq!(WgpuBufferType::from_str("Storage"), Ok(WgpuBufferType::Storage));
    assert_eq!(WgpuBufferType::from_str("UNIFORM"), Ok(WgpuBufferType::Uniform));
    assert_eq!(WgpuBufferType::from_str("texture"), Err("Invalid buffer access type".to_string()));
    assert_eq!(WgpuBufferAccessMode::Read.to_string(), "read");
    assert_eq!(WgpuBufferAccessMode::ReadWrite.to_string(), "read_write");
    assert_eq!(WgpuBufferAccessMode::from_str("READ_WRITE"), Ok(WgpuBufferAccessMode::ReadWrite));
    assert_eq!(WgpuBufferAccessMode::from_str("read"), Ok(WgpuBufferAccessMode::Read));
    assert_eq!(WgpuBufferAccessMode::from_str("write"), Err("Invalid buffer access mode".to_string()));
    assert_eq!(WgpuBufferAccessMode::from_lowercase("READ"), Err("Invalid buffer access mode".to_string()));
}

#[test]
fn library_portion_numbers_bindings_in_order() {
    let u = sample_portion();
    let lib = WgslShaderModuleLibraryPortion::from(&u);
    let names: Vec<&str> = lib.bindings.iter().map(|b| b.name.as_str()).collect();
    assert_eq!(
        names,
        vec!["uniforms", "position_input_array", "hit_output_array", "hit_counter", "cell_output_array"]
    );
    for (i, b) in lib.bindings.iter().enumerate() {
        assert_eq!(b.entry_num as usize, i);
        assert_eq!(b.group_num, 0);
    }
    assert_eq!(lib.bindings[0].buffer_type, WgpuBufferType::Uniform);
    assert_eq!(lib.bindings[1].access, WgpuBufferAccessMode::Read);
    assert_eq!(lib.bindings[3].type_decl, "atomic<u32>");
    assert_eq!(lib.pipeline_consts.len(), 6);
    assert_eq!(lib.pipeline_consts[3].code.rust_code, "const POSITION_INPUT_ARRAY_LENGTH: u32 = 1;");
    assert_eq!(lib.pipeline_consts[5].code.wgsl_code, "override CELL_OUTPUT_ARRAY_LENGTH: u32 = 1;");
    assert!(lib.uniforms.is_empty());
    assert!(lib.helper_functions.is_empty());
    assert_eq!(lib.workgroups_declaration.shader_type, WgpuShaderType::Compute);
}

#[test]
fn empty_user_portion() {
    let u = WgslShaderModuleUserPortion::empty();
    assert!(u.static_consts.is_empty() && u.helper_types.is_empty() && u.uniforms.is_empty());
    assert!(u.input_arrays.is_empty() && u.output_arrays.is_empty() && u.helper_functions.is_empty());
    assert!(u.main_function.is_none());
    let lib = WgslShaderModuleLibraryPortion::from(&u);
    assert!(lib.bindings.is_empty());
    assert_eq!(lib.pipeline_consts.len(), 3);
}

#[test]
fn module_wgsl_code_for_each_dimension() {
    let m = WgslShaderModule::new(sample_portion());
    assert_eq!(
        m.wgsl_code(IterSpaceDimmension::OneD),
        format!("{}@compute @workgroup_size(64, 1, 1)\n{}", EXPECTED_BODY, MAIN)
    );
    assert_eq!(
        m.wgsl_code(IterSpaceDimmension::TwoD),
        format!("{}@compute @workgroup_size(8, 8, 1)\n{}", EXPECTED_BODY, MAIN)
    );
    assert_eq!(
        m.wgsl_code(IterSpaceDimmension::ThreeD),
        format!("{}@compute @workgroup_size(4, 4, 4)\n{}", EXPECTED_BODY, MAIN)
    );
}

#[test]
fn composed_wgsl() {
    let composed = compose_wgsl(sample_portion());
    assert_eq!(
        composed.wgsl_code,
        format!(
            "{}@compute @workgroup_size(_LIB_WORKGROUP_SIZE_X, _LIB_WORKGROUP_SIZE_Y, _LIB_WORKGROUP_SIZE_Z)\n\n{}",
            EXPECTED_BODY, MAIN
        )
    );
    assert_eq!(composed.library_portion.bindings.len(), 5);
    assert_eq!(composed.user_portion.output_arrays.len(), 2);
}

#[test]
fn iteration_space_dimensions() {
    assert_eq!(usize::from(IterSpaceDimmension::OneD), 1);
    assert_eq!(usize::from(IterSpaceDimmension::TwoD), 2);
    assert_eq!(usize::from(IterSpaceDimmension::ThreeD), 3);
}

#[test]
fn struct_initializers() {
    let c = WgslConstAssignment { code: component("const A: u32 = 1;", "const A: u32 = 1;") };
    assert_eq!(
        ToStructInitializer::wgsl_const_assignment(&c),
        "WgslConstAssignment { code: WgslShaderModuleComponent { rust_code: (\"const A: u32 = 1;\").to_string(), wgsl_code: (\"const A: u32 = 1;\").to_string() } }"
    );
    let quoted = component("say \"hi\"\n", "");
    assert_eq!(
        ToStructInitializer::wgsl_shader_module_component(&quoted),
        "WgslShaderModuleComponent { rust_code: (\"say \\\"hi\\\"\\n\").to_string(), wgsl_code: (\"\").to_string() }"
    );
    let t = wgsl_type("Hit", "struct Hit {}");
    assert_eq!(
        ToStructInitializer::wgsl_type(&t),
        "WgslType { name: CustomTypeName::new(&(\"Hit\").to_string()), code: WgslShaderModuleComponent { rust_code: (\"\").to_string(), wgsl_code: (\"struct Hit {}\").to_string() } }"
    );
}

#[test]
fn user_portion_initializer_module() {
    let mut u = WgslShaderModuleUserPortion::empty();
    u.main_function = Some(WgslFunction { name: "main".to_string(), code: component("r", "w") });
    let code = convert_wgsl_shader_module_user_portion_into_tokenized_initializer_code(&u, "pub", "shader");
    assert_eq!(
        code,
        "pub mod shader {\n    use rust_to_wgsl::wgsl_components::*;\n    use rust_to_wgsl::custom_type_name::*;\n\n    pub fn parsed() -> WgslShaderModuleUserPortion {\n        WgslShaderModuleUserPortion {\n            static_consts: [].into(),\n            helper_types: [].into(),\n            uniforms: [].into(),\n            input_arrays: [].into(),\n            output_arrays: [].into(),\n            helper_functions: [].into(),\n            main_function: Some(WgslFunction { name: (\"main\").to_string(), code: WgslShaderModuleComponent { rust_code: (\"r\").to_string(), wgsl_code: (\"w\").to_string() } }),\n        }\n    }\n}"
    );
    let full = convert_wgsl_shader_module_user_portion_into_tokenized_initializer_code(&sample_portion(), "", "m");
    assert!(full.contains("static_consts: [WgslConstAssignment {"));
    assert!(full.contains("atomic_counter_name: Some((\"hit_counter\").to_string())"));
    assert!(full.contains("atomic_counter_name: None"));
    assert!(full.contains("},WgslOutputArray {"));
}
