//! A whole shader module, and the WGSL source assembled from its parts.
use vstd::prelude::*;
use crate::text::owned;
use crate::wgsl_components::{
    WgslConstAssignment, WgslFunction, WgslInputArray, WgslOutputArray,
    WgslShaderModuleUserPortion, WgslType,
};
use crate::wgsl_shader_module_lib_portion::{binding_count_fits, is_library_portion_of, WgslShaderModuleLibraryPortion};
use crate::wgsl_wgpu_binding::{binding_text, WgslWgpuBinding};

verus! {

/// A part of a module that contributes one line (or block) of WGSL.
pub trait ModulePart {
    /// The WGSL this part contributes.
    spec fn part_wgsl(&self) -> Seq<char>;

    fn part_text(&self) -> (res: String)
        ensures
            res@ == self.part_wgsl(),
    ;
}

impl ModulePart for WgslConstAssignment {
    open spec fn part_wgsl(&self) -> Seq<char> {
        self.code.wgsl_code@
    }

    fn part_text(&self) -> (res: String) {
        self.code.wgsl_code.clone()
    }
}

impl ModulePart for WgslType {
    open spec fn part_wgsl(&self) -> Seq<char> {
        self.code.wgsl_code@
    }

    fn part_text(&self) -> (res: String) {
        self.code.wgsl_code.clone()
    }
}

/// An input array contributes its item type's definition.
impl ModulePart for WgslInputArray {
    open spec fn part_wgsl(&self) -> Seq<char> {
        self.item_type.code.wgsl_code@
    }

    fn part_text(&self) -> (res: String) {
        self.item_type.code.wgsl_code.clone()
    }
}

/// An output array contributes its item type's definition.
impl ModulePart for WgslOutputArray {
    open spec fn part_wgsl(&self) -> Seq<char> {
        self.item_type.code.wgsl_code@
    }

    fn part_text(&self) -> (res: String) {
        self.item_type.code.wgsl_code.clone()
    }
}

impl ModulePart for WgslWgpuBinding {
    open spec fn part_wgsl(&self) -> Seq<char> {
        binding_text(*self)
    }

    fn part_text(&self) -> (res: String) {
        self.to_string()
    }
}

impl ModulePart for WgslFunction {
    open spec fn part_wgsl(&self) -> Seq<char> {
        self.code.wgsl_code@
    }

    fn part_text(&self) -> (res: String) {
        self.code.wgsl_code.clone()
    }
}

/// The WGSL of each part, each followed by a line break.
pub open spec fn lines_of<T: ModulePart>(s: Seq<T>) -> Seq<char>
    decreases s.len(),
{
    if s.len() == 0 {
        Seq::empty()
    } else {
        lines_of(s.drop_last()) + s.last().part_wgsl() + "\n"@
    }
}

/// Appends the WGSL of each part of `v` to `out`, one per line.
pub fn append_lines<T: ModulePart>(out: &mut String, v: &Vec<T>)
    ensures
        final(out)@ == old(out)@ + lines_of(v@),
{
    let ghost start = out@;
    let n = v.len();
    let mut i: usize = 0;
    while i < n
        invariant
            n == v@.len(),
            i <= n,
            out@ == start + lines_of(v@.subrange(0, i as int)),
        decreases n - i,
    {
        let t = v[i].part_text();
        out.append(t.as_str());
        out.append("\n");
        proof {
            assert(v@.subrange(0, i + 1).drop_last() =~= v@.subrange(0, i as int));
            assert(out@ =~= start + lines_of(v@.subrange(0, i + 1)));
        }
        i = i + 1;
    }
    assert(v@.subrange(0, n as int) =~= v@);
}

/// Everything in front of the entry point: constants, types, bindings and helper
/// functions, user parts and library parts interleaved in a fixed order.
pub open spec fn module_body_wgsl(u: WgslShaderModuleUserPortion, lib: WgslShaderModuleLibraryPortion) -> Seq<char> {
    lines_of(u.static_consts@) + lines_of(u.helper_types@) + lines_of(lib.pipeline_consts@)
        + lines_of(u.uniforms@) + lines_of(lib.uniforms@) + lines_of(u.input_arrays@) + lines_of(
        u.output_arrays@,
    ) + lines_of(lib.bindings@) + lines_of(u.helper_functions@) + lines_of(lib.helper_functions@)
}

/// Writes the parts in front of the entry point (see `module_body_wgsl`).
pub fn module_body_to_wgsl(u: &WgslShaderModuleUserPortion, lib: &WgslShaderModuleLibraryPortion) -> (res: String)
    ensures
        res@ == module_body_wgsl(*u, *lib),
{
    let mut wgsl = String::new();
    append_lines(&mut wgsl, &u.static_consts);
    append_lines(&mut wgsl, &u.helper_types);
    append_lines(&mut wgsl, &lib.pipeline_consts);
    append_lines(&mut wgsl, &u.uniforms);
    append_lines(&mut wgsl, &lib.uniforms);
    append_lines(&mut wgsl, &u.input_arrays);
    append_lines(&mut wgsl, &u.output_arrays);
    append_lines(&mut wgsl, &lib.bindings);
    append_lines(&mut wgsl, &u.helper_functions);
    append_lines(&mut wgsl, &lib.helper_functions);
    assert(wgsl@ =~= module_body_wgsl(*u, *lib));
    wgsl
}

/// How many dimensions the iteration space of a dispatch has.
#[derive(Debug, Clone, Copy, PartialEq, Eq, Structural, Hash)]
pub enum IterSpaceDimmension {
    OneD,
    TwoD,
    ThreeD,
}

pub open spec fn dimension_count(dim: IterSpaceDimmension) -> usize {
    match dim {
        IterSpaceDimmension::OneD => 1,
        IterSpaceDimmension::TwoD => 2,
        IterSpaceDimmension::ThreeD => 3,
    }
}

impl From<IterSpaceDimmension> for usize {
    fn from(dim: IterSpaceDimmension) -> (res: usize) {
        match dim {
            IterSpaceDimmension::OneD => 1,
            IterSpaceDimmension::TwoD => 2,
            IterSpaceDimmension::ThreeD => 3,
        }
    }
}

impl vstd::std_specs::convert::FromSpecImpl<IterSpaceDimmension> for usize {
    open spec fn obeys_from_spec() -> bool {
        true
    }

    open spec fn from_spec(v: IterSpaceDimmension) -> usize {
        dimension_count(v)
    }
}

/// The attribute line of the entry point: 64 invocations per workgroup, laid out
/// along as many dimensions as the iteration space has.
pub open spec fn workgroup_size_line(dim: IterSpaceDimmension) -> Seq<char> {
    match dim {
        IterSpaceDimmension::OneD => "@compute @workgroup_size(64, 1, 1)"@,
        IterSpaceDimmension::TwoD => "@compute @workgroup_size(8, 8, 1)"@,
        IterSpaceDimmension::ThreeD => "@compute @workgroup_size(4, 4, 4)"@,
    }
}

/// A module: the user's parts and the library's parts.
#[derive(Debug)]
pub struct WgslShaderModule {
    pub user_portion: WgslShaderModuleUserPortion,
    pub library_portion: WgslShaderModuleLibraryPortion,
}

impl WgslShaderModule {
    pub fn new(module: WgslShaderModuleUserPortion) -> (res: WgslShaderModule)
        requires
            binding_count_fits(module),
        ensures
            res.user_portion == module,
            is_library_portion_of(res.library_portion, module),
    {
        let library_portion = WgslShaderModuleLibraryPortion::from(&module);
        WgslShaderModule { user_portion: module, library_portion }
    }

    /// The module's WGSL source: the body, the entry point's attribute line for this
    /// iteration space, then the entry point, each followed by a line break.
    pub fn wgsl_code(&self, iter_space_dimmensions: IterSpaceDimmension) -> (res: String)
        requires
            self.user_portion.main_function is Some,
        ensures
            res@ == module_body_wgsl(self.user_portion, self.library_portion) + workgroup_size_line(
                iter_space_dimmensions,
            ) + "\n"@ + self.user_portion.main_function->Some_0.code.wgsl_code@ + "\n"@,
    {
        let mut wgsl = module_body_to_wgsl(&self.user_portion, &self.library_portion);
        let ghost body = wgsl@;
        let line = if iter_space_dimmensions == IterSpaceDimmension::OneD {
            owned("@compute @workgroup_size(64, 1, 1)")
        } else if iter_space_dimmensions == IterSpaceDimmension::TwoD {
            owned("@compute @workgroup_size(8, 8, 1)")
        } else {
            owned("@compute @workgroup_size(4, 4, 4)")
        };
        wgsl.append(line.as_str());
        wgsl.append("\n");
        match &self.user_portion.main_function {
            Some(f) => {
                wgsl.append(f.code.wgsl_code.as_str());
            },
            None => {},
        }
        wgsl.append("\n");
        wgsl
    }
}

} // verus!
