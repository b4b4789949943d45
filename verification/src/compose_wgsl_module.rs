//! Composing a user's module into a complete WGSL shader in one step.
use vstd::prelude::*;
use crate::wgsl_components::{workgroup_declaration_text, WgslShaderModuleUserPortion};
use crate::wgsl_shader_module::module_body_to_wgsl;
use crate::wgsl_shader_module::module_body_wgsl;
use crate::wgsl_shader_module_lib_portion::{binding_count_fits, is_library_portion_of, WgslShaderModuleLibraryPortion};

verus! {

/// A module with its WGSL source.
#[derive(Debug)]
pub struct WgslShaderModule {
    pub user_portion: WgslShaderModuleUserPortion,
    pub library_portion: WgslShaderModuleLibraryPortion,
    pub wgsl_code: String,
}

/// The library portion for `module` and the whole WGSL source: the body, the
/// workgroup declaration whose sizes are pipeline constants, then the entry point.
pub fn compose_wgsl(module: WgslShaderModuleUserPortion) -> (res: WgslShaderModule)
    requires
        module.main_function is Some,
        binding_count_fits(module),
    ensures
        res.user_portion == module,
        is_library_portion_of(res.library_portion, module),
        res.wgsl_code@ == module_body_wgsl(module, res.library_portion) + workgroup_declaration_text()
            + "\n"@ + module.main_function->Some_0.code.wgsl_code@ + "\n"@,
{
    let lib_portion = WgslShaderModuleLibraryPortion::from(&module);
    let mut wgsl = module_body_to_wgsl(&module, &lib_portion);
    let decl = lib_portion.workgroups_declaration.to_string();
    wgsl.append(decl.as_str());
    wgsl.append("\n");
    match &module.main_function {
        Some(f) => {
            wgsl.append(f.code.wgsl_code.as_str());
        },
        None => {},
    }
    wgsl.append("\n");
    WgslShaderModule { user_portion: module, library_portion: lib_portion, wgsl_code: wgsl }
}

} // verus!
