//! What the shader-module attribute does with a module: list its types, rewrite its
//! helper calls, split it into parts, and write the code that rebuilds those parts.
use vstd::prelude::*;
use crate::custom_types::{get_custom_types, lists_module_types, type_names, CustomType};
use crate::errors::WgslError;
use crate::module_parser::{parse_outcome, parse_shader_module};
use crate::syntax::ItemMod;
use crate::tokenized_initializer_for_user_portion::{
    convert_wgsl_shader_module_user_portion_into_tokenized_initializer_code, initializer_module_code,
};
use crate::transform_wgsl_helper_methods::{module_rewrite_outcome, transform_wgsl_helper_methods};
use crate::wgsl_components::WgslShaderModuleUserPortion;

verus! {

/// `u` (or the error) is what the steps give for `module`: with `types` its own
/// types, the helper calls are rewritten into `rewritten`, which is then parsed.
pub open spec fn pipeline_outcome(
    module: ItemMod,
    types: Seq<CustomType>,
    rewritten: ItemMod,
    res: Result<WgslShaderModuleUserPortion, WgslError>,
) -> bool {
    &&& lists_module_types(types, module)
    &&& match res {
        Ok(u) => module_rewrite_outcome(module, Ok(rewritten), types) && parse_outcome(
            rewritten,
            type_names(types),
            Ok(u),
        ),
        Err(e) => module_rewrite_outcome(module, Err(e), types) || (module_rewrite_outcome(
            module,
            Ok(rewritten),
            types,
        ) && parse_outcome(rewritten, type_names(types), Err(e))),
    }
}

/// The user portion of a module: its types are listed, its helper calls rewritten,
/// then its parts converted to WGSL.
pub fn wgsl_shader_module_user_portion(module: ItemMod) -> (res: Result<WgslShaderModuleUserPortion, WgslError>)
    ensures
        exists|types: Seq<CustomType>, rewritten: ItemMod|
            #[trigger] pipeline_outcome(module, types, rewritten, res),
{
    let allowed = get_custom_types(&module);
    let ghost m0 = module;
    let rewritten = transform_wgsl_helper_methods(module, &allowed);
    match rewritten {
        Err(e) => {
            assert(pipeline_outcome(m0, allowed.custom_types@, m0, Err(e)));
            Err(e)
        },
        Ok(m) => {
            let res = parse_shader_module(&m, &allowed);
            assert(pipeline_outcome(m0, allowed.custom_types@, m, res));
            res
        },
    }
}

/// The code the attribute expands to: a module with the same name and visibility
/// whose `parsed()` rebuilds the user portion.
pub fn generate_expanded_module(module: ItemMod) -> (res: Result<String, WgslError>)
    ensures
        exists|types: Seq<CustomType>, rewritten: ItemMod, u: Result<WgslShaderModuleUserPortion, WgslError>|
            #[trigger] pipeline_outcome(module, types, rewritten, u) && match u {
                Ok(p) => res matches Ok(code) && code@ == initializer_module_code(
                    p,
                    module.visibility@,
                    module.name@,
                ),
                Err(e) => res == Err::<String, WgslError>(e),
            },
{
    let visibility = module.visibility.clone();
    let name = module.name.clone();
    let u = wgsl_shader_module_user_portion(module);
    match u {
        Err(e) => Err(e),
        Ok(p) => Ok(
            convert_wgsl_shader_module_user_portion_into_tokenized_initializer_code(
                &p,
                visibility.as_str(),
                name.as_str(),
            ),
        ),
    }
}

} // verus!
