//! The parts of a module that the library adds around the user's code: pipeline
//! constants, buffer bindings and the workgroup declaration.
use vstd::prelude::*;
use crate::custom_type_name::{input_array_length_name, input_array_name, output_array_length_name, output_array_name};
use crate::wgsl_components::{
    const_rust_text, override_wgsl_text, WgpuShaderType, WgslConstAssignment, WgslFunction,
    WgslInputArray, WgslOutputArray, WgslShaderModuleUserPortion, WgslType,
    WgslWorkgroupDeclaration, WORKGROUP_SIZE_X_VAR_NAME, WORKGROUP_SIZE_Y_VAR_NAME,
    WORKGROUP_SIZE_Z_VAR_NAME,
};
use crate::wgsl_wgpu_binding::{WgpuBufferAccessMode, WgpuBufferType, WgslWgpuBinding};

verus! {

/// A binding without its group and entry numbers: buffer type, access, variable name
/// and type.
pub type BindingModel = (WgpuBufferType, WgpuBufferAccessMode, Seq<char>, Seq<char>);

pub open spec fn binding_model(b: WgslWgpuBinding) -> BindingModel {
    (b.buffer_type, b.access, b.name@, b.type_decl@)
}

/// The binding of each uniform: the lower-case name holds a value of the type.
pub open spec fn uniform_bindings(us: Seq<WgslType>) -> Seq<BindingModel> {
    us.map_values(
        |u: WgslType|
            (WgpuBufferType::Uniform, WgpuBufferAccessMode::Read, u.name.lower@, u.name.name@),
    )
}

/// The read-only storage binding of each input array.
pub open spec fn input_bindings(ins: Seq<WgslInputArray>) -> Seq<BindingModel> {
    ins.map_values(
        |a: WgslInputArray|
            (
                WgpuBufferType::Storage,
                WgpuBufferAccessMode::Read,
                input_array_name(a.item_type.name.lower@),
                a.array_type.name@,
            ),
    )
}

/// The bindings of one output array: the array, then its counter where it has one.
pub open spec fn output_array_bindings(a: WgslOutputArray) -> Seq<BindingModel> {
    let arr = (
        WgpuBufferType::Storage,
        WgpuBufferAccessMode::ReadWrite,
        output_array_name(a.item_type.name.lower@),
        a.array_type.name@,
    );
    match a.atomic_counter_name {
        Some(c) => seq![arr, (WgpuBufferType::Storage, WgpuBufferAccessMode::ReadWrite, c@, "atomic<u32>"@)],
        None => seq![arr],
    }
}

pub open spec fn output_bindings(outs: Seq<WgslOutputArray>) -> Seq<BindingModel>
    decreases outs.len(),
{
    if outs.len() == 0 {
        Seq::empty()
    } else {
        output_bindings(outs.drop_last()) + output_array_bindings(outs.last())
    }
}

/// All bindings of a module, in order: uniforms, input arrays, output arrays.
pub open spec fn module_bindings(u: WgslShaderModuleUserPortion) -> Seq<BindingModel> {
    uniform_bindings(u.uniforms@) + input_bindings(u.input_arrays@) + output_bindings(
        u.output_arrays@,
    )
}

/// `bs` holds bindings with these models, in group 0, numbered from 0 in order.
pub open spec fn numbered_bindings(bs: Seq<WgslWgpuBinding>, models: Seq<BindingModel>) -> bool {
    &&& bs.len() == models.len()
    &&& forall|j: int|
        0 <= j < bs.len() ==> #[trigger] binding_model(bs[j]) == models[j] && bs[j].entry_num == j
            && bs[j].group_num == 0
}

/// A constant by its Rust and its WGSL text.
pub type ConstModel = (Seq<char>, Seq<char>);

pub open spec fn const_model(c: WgslConstAssignment) -> ConstModel {
    (c.code.rust_code@, c.code.wgsl_code@)
}

/// The model of `WgslConstAssignment::new(name, ty, value)`.
pub open spec fn override_model(name: Seq<char>, ty: Seq<char>, value: Seq<char>) -> ConstModel {
    (const_rust_text(name, ty, value), override_wgsl_text(name, ty, value))
}

/// The pipeline constants of a module: the workgroup sizes (64, 1, 1), then the
/// length of each input array, then the length of each output array, all `u32`
/// with a default of 1.
pub open spec fn pipeline_consts_of(u: WgslShaderModuleUserPortion) -> Seq<ConstModel> {
    seq![
        override_model("_LIB_WORKGROUP_SIZE_X"@, "u32"@, "64"@),
        override_model("_LIB_WORKGROUP_SIZE_Y"@, "u32"@, "1"@),
        override_model("_LIB_WORKGROUP_SIZE_Z"@, "u32"@, "1"@),
    ] + u.input_arrays@.map_values(
        |a: WgslInputArray|
            override_model(input_array_length_name(a.item_type.name.upper@), "u32"@, "1"@),
    ) + u.output_arrays@.map_values(
        |a: WgslOutputArray|
            override_model(output_array_length_name(a.item_type.name.upper@), "u32"@, "1"@),
    )
}

/// Machine limit: every binding number fits in a `u32`.
pub open spec fn binding_count_fits(u: WgslShaderModuleUserPortion) -> bool {
    u.uniforms@.len() + u.input_arrays@.len() + 2 * u.output_arrays@.len() <= u32::MAX
}

/// What the library adds to a user's module.
#[derive(Debug)]
pub struct WgslShaderModuleLibraryPortion {
    /// Workgroup sizes and array lengths, overridable when the pipeline is built.
    pub pipeline_consts: Vec<WgslConstAssignment>,
    pub uniforms: Vec<WgslType>,
    pub helper_functions: Vec<WgslFunction>,
    pub bindings: Vec<WgslWgpuBinding>,
    pub workgroups_declaration: WgslWorkgroupDeclaration,
}

/// The library portion of a module with these user parts.
pub open spec fn is_library_portion_of(lib: WgslShaderModuleLibraryPortion, u: WgslShaderModuleUserPortion) -> bool {
    &&& lib.pipeline_consts@.map_values(|c: WgslConstAssignment| const_model(c))
        == pipeline_consts_of(u)
    &&& lib.uniforms@.len() == 0
    &&& lib.helper_functions@.len() == 0
    &&& numbered_bindings(lib.bindings@, module_bindings(u))
    &&& lib.workgroups_declaration.shader_type == WgpuShaderType::Compute
}

proof fn lemma_numbered_push(bs: Seq<WgslWgpuBinding>, models: Seq<BindingModel>, b: WgslWgpuBinding)
    requires
        numbered_bindings(bs, models),
        b.entry_num == bs.len(),
        b.group_num == 0,
    ensures
        numbered_bindings(bs.push(b), models.push(binding_model(b))),
{
    assert forall|j: int| 0 <= j < bs.len() + 1 implies #[trigger] binding_model(bs.push(b)[j])
        == models.push(binding_model(b))[j] && bs.push(b)[j].entry_num == j && bs.push(b)[j].group_num
        == 0 by {
        if j < bs.len() {
            assert(bs.push(b)[j] == bs[j]);
            assert(binding_model(bs[j]) == models[j]);
        }
    }
}

proof fn lemma_output_bindings_len(outs: Seq<WgslOutputArray>)
    ensures
        output_bindings(outs).len() <= 2 * outs.len(),
    decreases outs.len(),
{
    if outs.len() > 0 {
        lemma_output_bindings_len(outs.drop_last());
    }
}

impl WgslShaderModuleLibraryPortion {
    /// The library portion for a user portion: one binding per uniform and input
    /// array, one or two per output array, numbered in that order from 0.
    pub fn from(user_portion: &WgslShaderModuleUserPortion) -> (res: WgslShaderModuleLibraryPortion)
        requires
            binding_count_fits(*user_portion),
        ensures
            is_library_portion_of(res, *user_portion),
    {
        let u = user_portion;
        let mut pipeline_consts: Vec<WgslConstAssignment> = Vec::new();
        pipeline_consts.push(WgslConstAssignment::new(WORKGROUP_SIZE_X_VAR_NAME, "u32", "64"));
        pipeline_consts.push(WgslConstAssignment::new(WORKGROUP_SIZE_Y_VAR_NAME, "u32", "1"));
        pipeline_consts.push(WgslConstAssignment::new(WORKGROUP_SIZE_Z_VAR_NAME, "u32", "1"));
        let ghost head = seq![
            override_model("_LIB_WORKGROUP_SIZE_X"@, "u32"@, "64"@),
            override_model("_LIB_WORKGROUP_SIZE_Y"@, "u32"@, "1"@),
            override_model("_LIB_WORKGROUP_SIZE_Z"@, "u32"@, "1"@),
        ];
        proof {
            reveal_strlit("_LIB_WORKGROUP_SIZE_X");
            reveal_strlit("_LIB_WORKGROUP_SIZE_Y");
            reveal_strlit("_LIB_WORKGROUP_SIZE_Z");
            assert(pipeline_consts@.map_values(|c: WgslConstAssignment| const_model(c)) =~= head);
        }
        let ghost in_consts = u.input_arrays@.map_values(
            |a: WgslInputArray|
                override_model(input_array_length_name(a.item_type.name.upper@), "u32"@, "1"@),
        );
        let ghost out_consts = u.output_arrays@.map_values(
            |a: WgslOutputArray|
                override_model(output_array_length_name(a.item_type.name.upper@), "u32"@, "1"@),
        );
        let mut binding_counter: u32 = 0;
        let mut bindings: Vec<WgslWgpuBinding> = Vec::new();
        let nu = u.uniforms.len();
        let ni = u.input_arrays.len();
        let no = u.output_arrays.len();
        let mut i: usize = 0;
        while i < nu
            invariant
                u == user_portion,
                nu == u.uniforms@.len(),
                binding_count_fits(*u),
                i <= nu,
                binding_counter == i,
                numbered_bindings(bindings@, uniform_bindings(u.uniforms@.subrange(0, i as int))),
                pipeline_consts@.map_values(|c: WgslConstAssignment| const_model(c)) == head,
            decreases nu - i,
        {
            let t = &u.uniforms[i];
            let b = WgslWgpuBinding::uniform(0, binding_counter, t.name.uniform(), t.name.name.as_str());
            let ghost old_bindings = bindings@;
            bindings.push(b);
            proof {
                assert(uniform_bindings(u.uniforms@.subrange(0, i + 1)) =~= uniform_bindings(
                    u.uniforms@.subrange(0, i as int),
                ).push(binding_model(b)));
                assert(bindings@ =~= old_bindings.push(b));
            }
            binding_counter = binding_counter + 1;
            i = i + 1;
        }
        assert(u.uniforms@.subrange(0, nu as int) =~= u.uniforms@);
        let ghost ub = uniform_bindings(u.uniforms@);
        i = 0;
        while i < ni
            invariant
                u == user_portion,
                nu == u.uniforms@.len(),
                ni == u.input_arrays@.len(),
                binding_count_fits(*u),
                i <= ni,
                binding_counter == nu + i,
                ub == uniform_bindings(u.uniforms@),
                in_consts == u.input_arrays@.map_values(
                    |a: WgslInputArray|
                        override_model(input_array_length_name(a.item_type.name.upper@), "u32"@, "1"@),
                ),
                numbered_bindings(bindings@, ub + input_bindings(u.input_arrays@.subrange(0, i as int))),
                pipeline_consts@.map_values(|c: WgslConstAssignment| const_model(c)) == head
                    + in_consts.subrange(0, i as int),
            decreases ni - i,
        {
            let a = &u.input_arrays[i];
            let len_name = a.item_type.name.input_array_length();
            let ghost old_consts = pipeline_consts@;
            pipeline_consts.push(WgslConstAssignment::new(len_name.as_str(), "u32", "1"));
            let b = WgslWgpuBinding::input_array(0, binding_counter, a.item_type.name.input_array(), a.array_type.name.clone());
            let ghost old_bindings = bindings@;
            bindings.push(b);
            proof {
                assert(ub + input_bindings(u.input_arrays@.subrange(0, i + 1)) =~= (ub
                    + input_bindings(u.input_arrays@.subrange(0, i as int))).push(binding_model(b)));
                assert(bindings@ =~= old_bindings.push(b));
                reveal_strlit("u32");
                reveal_strlit("1");
                let f = |c: WgslConstAssignment| const_model(c);
                assert(f(pipeline_consts@[old_consts.len() as int]) == in_consts[i as int]);
                assert(pipeline_consts@.map_values(f) =~= old_consts.map_values(f).push(
                    in_consts[i as int],
                ));
                assert(pipeline_consts@.map_values(f) =~= head + in_consts.subrange(0, i + 1));
            }
            binding_counter = binding_counter + 1;
            i = i + 1;
        }
        assert(u.input_arrays@.subrange(0, ni as int) =~= u.input_arrays@);
        assert(in_consts.subrange(0, ni as int) =~= in_consts);
        let ghost uib = ub + input_bindings(u.input_arrays@);
        i = 0;
        while i < no
            invariant
                u == user_portion,
                nu == u.uniforms@.len(),
                ni == u.input_arrays@.len(),
                no == u.output_arrays@.len(),
                binding_count_fits(*u),
                i <= no,
                binding_counter == bindings@.len(),
                bindings@.len() <= nu + ni + 2 * i,
                uib == uniform_bindings(u.uniforms@) + input_bindings(u.input_arrays@),
                in_consts == u.input_arrays@.map_values(
                    |a: WgslInputArray|
                        override_model(input_array_length_name(a.item_type.name.upper@), "u32"@, "1"@),
                ),
                out_consts == u.output_arrays@.map_values(
                    |a: WgslOutputArray|
                        override_model(output_array_length_name(a.item_type.name.upper@), "u32"@, "1"@),
                ),
                numbered_bindings(bindings@, uib + output_bindings(u.output_arrays@.subrange(0, i as int))),
                pipeline_consts@.map_values(|c: WgslConstAssignment| const_model(c)) == head
                    + in_consts + out_consts.subrange(0, i as int),
            decreases no - i,
        {
            let a = &u.output_arrays[i];
            let len_name = a.item_type.name.output_array_length();
            let ghost old_consts = pipeline_consts@;
            pipeline_consts.push(WgslConstAssignment::new(len_name.as_str(), "u32", "1"));
            proof {
                reveal_strlit("u32");
                reveal_strlit("1");
                let f = |c: WgslConstAssignment| const_model(c);
                assert(f(pipeline_consts@[old_consts.len() as int]) == out_consts[i as int]);
                assert(pipeline_consts@.map_values(f) =~= old_consts.map_values(f).push(
                    out_consts[i as int],
                ));
                assert(pipeline_consts@.map_values(f) =~= head + in_consts + out_consts.subrange(
                    0,
                    i + 1,
                ));
            }
            let output_array = WgslWgpuBinding::output_array(
                0,
                binding_counter,
                a.item_type.name.output_array(),
                a.array_type.name.clone(),
            );
            let ghost old_bindings = bindings@;
            let ghost prev = uib + output_bindings(u.output_arrays@.subrange(0, i as int));
            proof {
                assert(u.output_arrays@.subrange(0, i + 1).drop_last() =~= u.output_arrays@.subrange(0, i as int));
                assert(uib + output_bindings(u.output_arrays@.subrange(0, i + 1)) =~= prev
                    + output_array_bindings(*a));
            }
            match &a.atomic_counter_name {
                Some(_) => {
                    let counter = WgslWgpuBinding::counter(binding_counter + 1, a, &output_array);
                    bindings.push(output_array);
                    bindings.push(counter);
                    binding_counter = binding_counter + 2;
                    proof {
                        assert(bindings@ =~= old_bindings.push(output_array).push(counter));
                        lemma_numbered_push(old_bindings, prev, output_array);
                        lemma_numbered_push(
                            old_bindings.push(output_array),
                            prev.push(binding_model(output_array)),
                            counter,
                        );
                        assert(prev + output_array_bindings(*a) =~= prev.push(binding_model(output_array)).push(
                            binding_model(counter),
                        ));
                    }
                },
                None => {
                    bindings.push(output_array);
                    binding_counter = binding_counter + 1;
                    proof {
                        assert(bindings@ =~= old_bindings.push(output_array));
                        lemma_numbered_push(old_bindings, prev, output_array);
                        assert(prev + output_array_bindings(*a) =~= prev.push(binding_model(output_array)));
                    }
                },
            }
            i = i + 1;
        }
        assert(u.output_arrays@.subrange(0, no as int) =~= u.output_arrays@);
        assert(out_consts.subrange(0, no as int) =~= out_consts);
        assert(head + in_consts + out_consts =~= pipeline_consts_of(*u));
        WgslShaderModuleLibraryPortion {
            pipeline_consts,
            uniforms: Vec::new(),
            helper_functions: Vec::new(),
            bindings,
            workgroups_declaration: WgslWorkgroupDeclaration { shader_type: WgpuShaderType::Compute },
        }
    }
}

} // verus!
