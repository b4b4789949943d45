use rust_to_wgsl::compose_wgsl_module::compose_wgsl;
use rust_to_wgsl::custom_type_name::CustomTypeName;
use rust_to_wgsl::custom_types::get_custom_types;
use rust_to_wgsl::syntax::{Attribute, Block, Expr, Item, ItemFn, ItemMod, ItemStruct, Pat, PathArguments, PathSegment, RustPath, Stmt};
use rust_to_wgsl::transform_wgsl_helper_methods::transform_wgsl_helper_methods;
use rust_to_wgsl::wgsl_components::{
    WgslDerivedType, WgslFunction, WgslOutputArray, WgslShaderModuleComponent,
    WgslShaderModuleUserPortion, WgslType,
};
use rust_to_wgsl::wgsl_shader_module::{IterSpaceDimmension, WgslShaderModule};
use rust_to_wgsl::wgsl_shader_module_lib_portion::WgslShaderModuleLibraryPortion;
use rust_to_wgsl::wgsl_wgpu_binding::{WgpuBufferAccessMode, WgpuBufferType};

fn component(wgsl: &str) -> WgslShaderModuleComponent {
    WgslShaderModuleComponent { rust_code: String::new(), wgsl_code: wgsl.to_string() }
}

fn output(name: &str, counter: bool) -> WgslOutputArray {
    let t = WgslType { name: CustomTypeName::new(&name.to_string()), code: component("") };
    let c = if counter { Some(t.name.counter()) } else { None };
    WgslOutputArray {
        array_type: WgslDerivedType { name: t.name.output_array(), code: component("") },
        item_type: t,
        atomic_counter_name: c,
    }
}

fn portion() -> WgslShaderModuleUserPortion {
    let mut u = WgslShaderModuleUserPortion::empty();
    u.uniforms.push(WgslType { name: CustomTypeName::new(&"U".to_string()), code: component("struct U {}") });
    u.output_arrays.push(output("A", true));
    u.output_arrays.push(output("B", false));
    u.output_arrays.push(output("C", true));
    u.main_function = Some(WgslFunction { name: "main".to_string(), code: component("fn main() {}") });
    u
}

#[test]
fn buffer_keywords_read_back() {
    for t in [WgpuBufferType::Storage, WgpuBufferType::Uniform] {
        assert_eq!(WgpuBufferType::from_lowercase(&t.to_string()), Ok(t));
    }
    for m in [WgpuBufferAccessMode::Read, WgpuBufferAccessMode::ReadWrite] {
        assert_eq!(WgpuBufferAccessMode::from_lowercase(&m.to_string()), Ok(m));
    }
}

#[test]
fn binding_count_and_numbering() {
    let lib = WgslShaderModuleLibraryPortion::from(&portion());
    // one uniform, three outputs, two of them with counters
    assert_eq!(lib.bindings.len(), 1 + 3 + 2);
    let entries: Vec<u32> = lib.bindings.iter().map(|b| b.entry_num).collect();
    assert_eq!(entries, vec![0, 1, 2, 3, 4, 5]);
}

#[test]
fn composed_and_module_code_share_the_body() {
    let composed = compose_wgsl(portion()).wgsl_code;
    let module = WgslShaderModule::new(portion()).wgsl_code(IterSpaceDimmension::TwoD);
    let composed_body = composed.split("@compute").next().unwrap().to_string();
    let module_body = module.split("@compute").next().unwrap().to_string();
    assert_eq!(composed_body, module_body);
    assert!(composed.ends_with("fn main() {}\n"));
    assert!(module.ends_with("@compute @workgroup_size(8, 8, 1)\nfn main() {}\n"));
}

fn seg(name: &str) -> PathSegment {
    PathSegment { ident: name.to_string(), arguments: PathArguments::NoArgs }
}

#[test]
fn rewriting_keeps_the_module_types() {
    let make = || ItemMod {
        name: "m".to_string(),
        visibility: String::new(),
        content: Some(vec![
            Item::Struct(ItemStruct {
                attrs: vec![Attribute { path: RustPath { leading_colon: false, segments: vec![seg("wgsl_output_vec")] } }],
                name: "Hit".to_string(),
                fields: vec![],
                tokens: "struct Hit {}".to_string(),
            }),
            Item::Fn(ItemFn {
                name: "main".to_string(),
                inputs: vec![],
                output: None,
                block: Block { stmts: vec![Stmt::Local { pat: Pat::Ident("x".to_string()), init: Some(Expr::Continue) }] },
                tokens: String::new(),
            }),
        ]),
    };
    let before = get_custom_types(&make());
    let rewritten = transform_wgsl_helper_methods(make(), &before).unwrap();
    let after = get_custom_types(&rewritten);
    assert_eq!(before.custom_types.len(), after.custom_types.len());
    assert_eq!(before.custom_types[0].name.name, after.custom_types[0].name.name);
    assert_eq!(before.custom_types[0].kind, after.custom_types[0].kind);
    assert_eq!(rewritten, make());
}
