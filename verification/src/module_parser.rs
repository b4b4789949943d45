//! Splitting a shader module into its parts (constants, types, inputs, outputs,
//! helper functions and the entry point), each with its WGSL.
use vstd::prelude::*;
use crate::custom_type_name::{
    counter_name, input_array_length_name, input_array_name, lowercase_of, output_array_length_name,
    output_array_name, uppercase_of, CustomTypeName,
};
use crate::custom_types::{kind_of, type_names, AllowedRustTypes, CustomTypeKind};
use crate::errors::WgslError;
use crate::syntax::{Item, ItemConst, ItemFn, ItemMod, ItemStruct, ItemType};
use crate::text::{owned, str_eq};
use crate::transform_wgsl_helper_methods::first_error;
use crate::use_statements::{handle_use_statements, use_scan};
use crate::wgsl_components::{
    WgslConstAssignment, WgslDerivedType, WgslFunction, WgslInputArray, WgslOutputArray,
    WgslShaderModuleComponent, WgslShaderModuleUserPortion, WgslType,
};
use crate::wgsl_items::{
    const_wgsl, format_const_as_wgsl, format_function_as_wgsl, format_main_function,
    format_struct_as_wgsl, function_wgsl, main_wgsl, struct_wgsl, type_alias_wgsl, type_def_to_wgsl,
};
use crate::wgsl_shader_module_lib_portion::{const_model, ConstModel};
use crate::wgsl_types::text_result;

verus! {

/// The text of a conversion that succeeded (empty otherwise).
pub open spec fn ok_text(r: Result<Seq<char>, WgslError>) -> Seq<char> {
    match r {
        Ok(t) => t,
        Err(_) => Seq::empty(),
    }
}

/// The error of a conversion that failed.
pub open spec fn err_of(r: Result<Seq<char>, WgslError>) -> Option<WgslError> {
    match r {
        Ok(_) => None,
        Err(e) => Some(e),
    }
}

pub open spec fn is_main(f: ItemFn) -> bool {
    f.name@ == "main"@
}

/// One of the items is a function named `main`.
pub open spec fn has_main(s: Seq<Item>) -> bool
    decreases s.len(),
{
    s.len() > 0 && (has_main(s.drop_last()) || (s.last() matches Item::Fn(f) && is_main(f)))
}

/// The WGSL of a struct or a type alias.
pub open spec fn type_item_wgsl(item: Item, names: Seq<Seq<char>>) -> Result<Seq<char>, WgslError> {
    match item {
        Item::Struct(s) => struct_wgsl(s, names),
        Item::Type(t) => type_alias_wgsl(t, names),
        _ => Ok(Seq::empty()),
    }
}

/// Why an item cannot stand in a module, if it cannot; `main_seen` says whether an
/// earlier item was already a `main` function.
pub open spec fn item_error(item: Item, names: Seq<Seq<char>>, main_seen: bool) -> Option<WgslError> {
    match item {
        Item::Const(c) => err_of(const_wgsl(c, names)),
        Item::Struct(_) => err_of(type_item_wgsl(item, names)),
        Item::Type(_) => err_of(type_item_wgsl(item, names)),
        Item::Fn(f) => if is_main(f) {
            if main_seen {
                Some(WgslError::MultipleMainFunctions)
            } else {
                err_of(main_wgsl(f))
            }
        } else {
            err_of(function_wgsl(f, names))
        },
        Item::Use(_) => None,
        Item::Other => Some(WgslError::UnsupportedItem),
    }
}

/// The first error among the items, in order.
pub open spec fn scan_error(s: Seq<Item>, names: Seq<Seq<char>>) -> Option<WgslError>
    decreases s.len(),
{
    if s.len() == 0 {
        None
    } else {
        first_error(
            scan_error(s.drop_last(), names),
            item_error(s.last(), names, has_main(s.drop_last())),
        )
    }
}

/// A user type by its name, upper- and lower-case names, Rust and WGSL.
pub type TypeModel = (Seq<char>, Seq<char>, Seq<char>, Seq<char>, Seq<char>);

/// A derived type by its name, Rust and WGSL.
pub type DerivedModel = (Seq<char>, Seq<char>, Seq<char>);

/// A function by its name, Rust and WGSL.
pub type FnModel = (Seq<char>, Seq<char>, Seq<char>);

pub open spec fn type_model(t: WgslType) -> TypeModel {
    (t.name.name@, t.name.upper@, t.name.lower@, t.code.rust_code@, t.code.wgsl_code@)
}

pub open spec fn derived_model(d: WgslDerivedType) -> DerivedModel {
    (d.name@, d.code.rust_code@, d.code.wgsl_code@)
}

pub open spec fn fn_model(f: WgslFunction) -> FnModel {
    (f.name@, f.code.rust_code@, f.code.wgsl_code@)
}

pub open spec fn input_model(a: WgslInputArray) -> (TypeModel, DerivedModel) {
    (type_model(a.item_type), derived_model(a.array_type))
}

pub open spec fn output_model(a: WgslOutputArray) -> (TypeModel, DerivedModel, Option<Seq<char>>) {
    (
        type_model(a.item_type),
        derived_model(a.array_type),
        match a.atomic_counter_name {
            Some(c) => Some(c@),
            None => None,
        },
    )
}

pub open spec fn consts_models(v: Seq<WgslConstAssignment>) -> Seq<ConstModel> {
    v.map_values(|c: WgslConstAssignment| const_model(c))
}

pub open spec fn types_models(v: Seq<WgslType>) -> Seq<TypeModel> {
    v.map_values(|t: WgslType| type_model(t))
}

pub open spec fn inputs_models(v: Seq<WgslInputArray>) -> Seq<(TypeModel, DerivedModel)> {
    v.map_values(|a: WgslInputArray| input_model(a))
}

pub open spec fn outputs_models(v: Seq<WgslOutputArray>) -> Seq<(TypeModel, DerivedModel, Option<Seq<char>>)> {
    v.map_values(|a: WgslOutputArray| output_model(a))
}

pub open spec fn fns_models(v: Seq<WgslFunction>) -> Seq<FnModel> {
    v.map_values(|f: WgslFunction| fn_model(f))
}

/// The name of a struct or alias.
pub open spec fn item_name(item: Item) -> Seq<char> {
    match item {
        Item::Struct(s) => s.name@,
        Item::Type(t) => t.name@,
        _ => Seq::empty(),
    }
}

/// The kind of a struct or alias.
pub open spec fn item_kind(item: Item) -> Option<CustomTypeKind> {
    match item {
        Item::Struct(s) => Some(kind_of(s.attrs@)),
        Item::Type(t) => Some(kind_of(t.attrs@)),
        _ => None,
    }
}

/// The type that a struct or alias item becomes.
pub open spec fn item_type_model(item: Item, names: Seq<Seq<char>>) -> TypeModel {
    let n = item_name(item);
    let tokens = match item {
        Item::Struct(s) => s.tokens@,
        Item::Type(t) => t.tokens@,
        _ => Seq::empty(),
    };
    (n, uppercase_of(n), lowercase_of(n), tokens, ok_text(type_item_wgsl(item, names)))
}

/// `alias {t}_input_array = array<{T}, {T}_INPUT_ARRAY_LENGTH>;`
pub open spec fn input_array_alias(name: Seq<char>, upper: Seq<char>, lower: Seq<char>) -> Seq<char> {
    "alias "@ + input_array_name(lower) + " = array<"@ + name + ", "@ + input_array_length_name(upper)
        + ">;"@
}

/// `alias {t}_output_array = array<{T}, {T}_OUTPUT_ARRAY_LENGTH>;`
pub open spec fn output_array_alias(name: Seq<char>, upper: Seq<char>, lower: Seq<char>) -> Seq<char> {
    "alias "@ + output_array_name(lower) + " = array<"@ + name + ", " @ + output_array_length_name(
        upper,
    ) + ">;"@
}

/// The array type of an input of type `n`; a derived type has no Rust source.
pub open spec fn input_derived(n: Seq<char>) -> DerivedModel {
    (
        input_array_name(lowercase_of(n)),
        Seq::empty(),
        input_array_alias(n, uppercase_of(n), lowercase_of(n)),
    )
}

/// The array type of an output of type `n`.
pub open spec fn output_derived(n: Seq<char>) -> DerivedModel {
    (
        output_array_name(lowercase_of(n)),
        Seq::empty(),
        output_array_alias(n, uppercase_of(n), lowercase_of(n)),
    )
}

/// The constants of the module, in order.
pub open spec fn consts_of(s: Seq<Item>, names: Seq<Seq<char>>) -> Seq<ConstModel>
    decreases s.len(),
{
    if s.len() == 0 {
        Seq::empty()
    } else {
        let p = consts_of(s.drop_last(), names);
        match s.last() {
            Item::Const(c) => p.push((c.tokens@, ok_text(const_wgsl(c, names)))),
            _ => p,
        }
    }
}

/// The structs and aliases of the given kind, in order.
pub open spec fn types_of(s: Seq<Item>, names: Seq<Seq<char>>, kind: CustomTypeKind) -> Seq<TypeModel>
    decreases s.len(),
{
    if s.len() == 0 {
        Seq::empty()
    } else {
        let p = types_of(s.drop_last(), names, kind);
        if item_kind(s.last()) == Some(kind) {
            p.push(item_type_model(s.last(), names))
        } else {
            p
        }
    }
}

/// The input arrays, in order: each item type with its array type.
pub open spec fn inputs_of(s: Seq<Item>, names: Seq<Seq<char>>) -> Seq<(TypeModel, DerivedModel)>
    decreases s.len(),
{
    if s.len() == 0 {
        Seq::empty()
    } else {
        let p = inputs_of(s.drop_last(), names);
        if item_kind(s.last()) == Some(CustomTypeKind::InputArray) {
            p.push((item_type_model(s.last(), names), input_derived(item_name(s.last()))))
        } else {
            p
        }
    }
}

/// The output arrays, in order: fixed arrays have no counter, vectors count their
/// items with `{t}_counter`.
pub open spec fn outputs_of(s: Seq<Item>, names: Seq<Seq<char>>) -> Seq<
    (TypeModel, DerivedModel, Option<Seq<char>>),
>
    decreases s.len(),
{
    if s.len() == 0 {
        Seq::empty()
    } else {
        let p = outputs_of(s.drop_last(), names);
        let n = item_name(s.last());
        if item_kind(s.last()) == Some(CustomTypeKind::OutputArray) {
            p.push((item_type_model(s.last(), names), output_derived(n), None))
        } else if item_kind(s.last()) == Some(CustomTypeKind::OutputVec) {
            p.push(
                (
                    item_type_model(s.last(), names),
                    output_derived(n),
                    Some(counter_name(lowercase_of(n))),
                ),
            )
        } else {
            p
        }
    }
}

/// The functions other than `main`, in order.
pub open spec fn helper_fns_of(s: Seq<Item>, names: Seq<Seq<char>>) -> Seq<FnModel>
    decreases s.len(),
{
    if s.len() == 0 {
        Seq::empty()
    } else {
        let p = helper_fns_of(s.drop_last(), names);
        match s.last() {
            Item::Fn(f) => if is_main(f) {
                p
            } else {
                p.push((f.name@, f.tokens@, ok_text(function_wgsl(f, names))))
            },
            _ => p,
        }
    }
}

/// The first function named `main`.
pub open spec fn main_of(s: Seq<Item>) -> FnModel
    decreases s.len(),
{
    if s.len() == 0 {
        (Seq::empty(), Seq::empty(), Seq::empty())
    } else if has_main(s.drop_last()) {
        main_of(s.drop_last())
    } else {
        match s.last() {
            Item::Fn(f) => ("main"@, f.tokens@, ok_text(main_wgsl(f))),
            _ => (Seq::empty(), Seq::empty(), Seq::empty()),
        }
    }
}

/// The user portion holds the parts of these items.
pub open spec fn portion_of(u: WgslShaderModuleUserPortion, items: Seq<Item>, names: Seq<Seq<char>>) -> bool {
    &&& consts_models(u.static_consts@) == consts_of(items, names)
    &&& types_models(u.helper_types@) == types_of(items, names, CustomTypeKind::GpuOnlyHelperType)
    &&& types_models(u.uniforms@) == types_of(items, names, CustomTypeKind::Uniform)
    &&& inputs_models(u.input_arrays@) == inputs_of(items, names)
    &&& outputs_models(u.output_arrays@) == outputs_of(items, names)
    &&& fns_models(u.helper_functions@) == helper_fns_of(items, names)
    &&& u.main_function matches Some(m) && fn_model(m) == main_of(items)
}

/// What parsing a module gives: the first error met (a module without a body; a
/// `use` of anything but the helper module; an item that cannot be converted, in
/// source order; no `main`), or its parts.
pub open spec fn parse_outcome(
    module: ItemMod,
    names: Seq<Seq<char>>,
    res: Result<WgslShaderModuleUserPortion, WgslError>,
) -> bool {
    match module.content {
        None => res == Err::<WgslShaderModuleUserPortion, WgslError>(WgslError::NoModuleBody),
        Some(items) => match use_scan(items@) {
            Err(e) => res == Err::<WgslShaderModuleUserPortion, WgslError>(e),
            Ok(_) => match scan_error(items@, names) {
                Some(e) => res == Err::<WgslShaderModuleUserPortion, WgslError>(e),
                None => if !has_main(items@) {
                    res == Err::<WgslShaderModuleUserPortion, WgslError>(WgslError::NoMainFunction)
                } else {
                    res matches Ok(u) && portion_of(u, items@, names)
                },
            },
        },
    }
}

proof fn lemma_scan_error_persists(items: Seq<Item>, names: Seq<Seq<char>>, k: int)
    requires
        0 <= k <= items.len(),
        scan_error(items.subrange(0, k), names) is Some,
    ensures
        scan_error(items, names) == scan_error(items.subrange(0, k), names),
    decreases items.len() - k,
{
    if k < items.len() {
        assert(items.subrange(0, k + 1).drop_last() =~= items.subrange(0, k));
        lemma_scan_error_persists(items, names, k + 1);
    } else {
        assert(items.subrange(0, k) =~= items);
    }
}

proof fn lemma_item_error_is_first(items: Seq<Item>, names: Seq<Seq<char>>, i: int, e: WgslError)
    requires
        0 <= i < items.len(),
        scan_error(items.subrange(0, i), names) is None,
        item_error(items[i], names, has_main(items.subrange(0, i))) == Some(e),
    ensures
        scan_error(items, names) == Some(e),
{
    assert(items.subrange(0, i + 1).drop_last() =~= items.subrange(0, i));
    assert(items.subrange(0, i + 1).last() == items[i]);
    lemma_scan_error_persists(items, names, i + 1);
}

/// A constant: its Rust source and its WGSL.
pub fn parse_const_assignment(constant: &ItemConst, custom: &Vec<String>) -> (res: Result<WgslConstAssignment, WgslError>)
    ensures
        match res {
            Ok(c) => const_wgsl(*constant, crate::text::string_views(custom@)) == Ok::<
                Seq<char>,
                WgslError,
            >(c.code.wgsl_code@) && c.code.rust_code == constant.tokens,
            Err(e) => const_wgsl(*constant, crate::text::string_views(custom@)) == Err::<
                Seq<char>,
                WgslError,
            >(e),
        },
{
    let wgsl_code = format_const_as_wgsl(constant, custom)?;
    Ok(WgslConstAssignment { code: WgslShaderModuleComponent { rust_code: constant.tokens.clone(), wgsl_code } })
}

/// A struct as a user type.
pub fn parse_struct_as_wgsl_type(structure: &ItemStruct, custom: &Vec<String>) -> (res: Result<WgslType, WgslError>)
    ensures
        match res {
            Ok(t) => type_model(t) == item_type_model(
                Item::Struct(*structure),
                crate::text::string_views(custom@),
            ) && struct_wgsl(*structure, crate::text::string_views(custom@)) is Ok,
            Err(e) => struct_wgsl(*structure, crate::text::string_views(custom@)) == Err::<
                Seq<char>,
                WgslError,
            >(e),
        },
{
    let wgsl_code = format_struct_as_wgsl(structure, custom)?;
    Ok(
        WgslType {
            name: CustomTypeName::new(&structure.name),
            code: WgslShaderModuleComponent { rust_code: structure.tokens.clone(), wgsl_code },
        },
    )
}

/// A type alias as a user type.
pub fn parse_type_as_alias(type_alias: &ItemType, custom: &Vec<String>) -> (res: Result<WgslType, WgslError>)
    ensures
        match res {
            Ok(t) => type_model(t) == item_type_model(
                Item::Type(*type_alias),
                crate::text::string_views(custom@),
            ) && type_alias_wgsl(*type_alias, crate::text::string_views(custom@)) is Ok,
            Err(e) => type_alias_wgsl(*type_alias, crate::text::string_views(custom@)) == Err::<
                Seq<char>,
                WgslError,
            >(e),
        },
{
    let wgsl_code = type_def_to_wgsl(type_alias, custom)?;
    Ok(
        WgslType {
            name: CustomTypeName::new(&type_alias.name),
            code: WgslShaderModuleComponent { rust_code: type_alias.tokens.clone(), wgsl_code },
        },
    )
}

/// The array type of the input array of `t`.
pub fn input_array_type(t: &CustomTypeName) -> (res: WgslDerivedType)
    ensures
        derived_model(res) == (
            input_array_name(t.lower@),
            Seq::<char>::empty(),
            input_array_alias(t.name@, t.upper@, t.lower@),
        ),
{
    let name = t.input_array();
    let mut wgsl = owned("alias ");
    wgsl.append(name.as_str());
    wgsl.append(" = array<");
    wgsl.append(t.name.as_str());
    wgsl.append(", ");
    let len = t.input_array_length();
    wgsl.append(len.as_str());
    wgsl.append(">;");
    WgslDerivedType { name, code: WgslShaderModuleComponent { rust_code: String::new(), wgsl_code: wgsl } }
}

/// The array type of the output array of `t`.
pub fn output_array_type(t: &CustomTypeName) -> (res: WgslDerivedType)
    ensures
        derived_model(res) == (
            output_array_name(t.lower@),
            Seq::<char>::empty(),
            output_array_alias(t.name@, t.upper@, t.lower@),
        ),
{
    let name = t.output_array();
    let mut wgsl = owned("alias ");
    wgsl.append(name.as_str());
    wgsl.append(" = array<");
    wgsl.append(t.name.as_str());
    wgsl.append(", ");
    let len = t.output_array_length();
    wgsl.append(len.as_str());
    wgsl.append(">;");
    WgslDerivedType { name, code: WgslShaderModuleComponent { rust_code: String::new(), wgsl_code: wgsl } }
}

/// A function as a helper function.
pub fn parse_helper_function(function: &ItemFn, custom: &Vec<String>) -> (res: Result<WgslFunction, WgslError>)
    ensures
        match res {
            Ok(f) => fn_model(f) == (
                function.name@,
                function.tokens@,
                ok_text(function_wgsl(*function, crate::text::string_views(custom@))),
            ) && function_wgsl(*function, crate::text::string_views(custom@)) is Ok,
            Err(e) => function_wgsl(*function, crate::text::string_views(custom@)) == Err::<
                Seq<char>,
                WgslError,
            >(e),
        },
{
    let wgsl_code = format_function_as_wgsl(function, custom)?;
    Ok(
        WgslFunction {
            name: function.name.clone(),
            code: WgslShaderModuleComponent { rust_code: function.tokens.clone(), wgsl_code },
        },
    )
}

/// The entry point.
pub fn parse_main_function(function: &ItemFn) -> (res: Result<WgslFunction, WgslError>)
    ensures
        match res {
            Ok(f) => fn_model(f) == ("main"@, function.tokens@, ok_text(main_wgsl(*function)))
                && main_wgsl(*function) is Ok,
            Err(e) => main_wgsl(*function) == Err::<Seq<char>, WgslError>(e),
        },
{
    let wgsl_code = format_main_function(function)?;
    Ok(
        WgslFunction {
            name: owned("main"),
            code: WgslShaderModuleComponent { rust_code: function.tokens.clone(), wgsl_code },
        },
    )
}

/// The input array model of the type `t` names.
pub open spec fn input_of_name(t: CustomTypeName) -> DerivedModel {
    (input_array_name(t.lower@), Seq::empty(), input_array_alias(t.name@, t.upper@, t.lower@))
}

/// The output array model of the type `t` names.
pub open spec fn output_of_name(t: CustomTypeName) -> DerivedModel {
    (output_array_name(t.lower@), Seq::empty(), output_array_alias(t.name@, t.upper@, t.lower@))
}

/// Files a user type under its kind: GPU-only types and uniforms as they are, input
/// arrays with their array type, output arrays with their array type and, for
/// vectors, a counter.
pub fn divide_custom_types_by_category(u: &mut WgslShaderModuleUserPortion, kind: CustomTypeKind, t: WgslType)
    ensures
        final(u).static_consts == old(u).static_consts,
        final(u).helper_functions == old(u).helper_functions,
        final(u).main_function == old(u).main_function,
        types_models(final(u).helper_types@) == if kind == CustomTypeKind::GpuOnlyHelperType {
            types_models(old(u).helper_types@).push(type_model(t))
        } else {
            types_models(old(u).helper_types@)
        },
        types_models(final(u).uniforms@) == if kind == CustomTypeKind::Uniform {
            types_models(old(u).uniforms@).push(type_model(t))
        } else {
            types_models(old(u).uniforms@)
        },
        inputs_models(final(u).input_arrays@) == if kind == CustomTypeKind::InputArray {
            inputs_models(old(u).input_arrays@).push((type_model(t), input_of_name(t.name)))
        } else {
            inputs_models(old(u).input_arrays@)
        },
        outputs_models(final(u).output_arrays@) == if kind == CustomTypeKind::OutputArray {
            outputs_models(old(u).output_arrays@).push((type_model(t), output_of_name(t.name), None))
        } else if kind == CustomTypeKind::OutputVec {
            outputs_models(old(u).output_arrays@).push(
                (type_model(t), output_of_name(t.name), Some(counter_name(t.name.lower@))),
            )
        } else {
            outputs_models(old(u).output_arrays@)
        },
{
    let ghost tm = type_model(t);
    let ghost tn = t.name;
    match kind {
        CustomTypeKind::GpuOnlyHelperType => {
            u.helper_types.push(t);
            assert(types_models(u.helper_types@) =~= types_models(old(u).helper_types@).push(tm));
        },
        CustomTypeKind::Uniform => {
            u.uniforms.push(t);
            assert(types_models(u.uniforms@) =~= types_models(old(u).uniforms@).push(tm));
        },
        CustomTypeKind::InputArray => {
            let array_type = input_array_type(&t.name);
            u.input_arrays.push(WgslInputArray { item_type: t, array_type });
            assert(inputs_models(u.input_arrays@) =~= inputs_models(old(u).input_arrays@).push(
                (tm, input_of_name(tn)),
            ));
        },
        CustomTypeKind::OutputArray => {
            let array_type = output_array_type(&t.name);
            u.output_arrays.push(WgslOutputArray { item_type: t, array_type, atomic_counter_name: None });
            assert(outputs_models(u.output_arrays@) =~= outputs_models(old(u).output_arrays@).push(
                (tm, output_of_name(tn), None),
            ));
        },
        CustomTypeKind::OutputVec => {
            let array_type = output_array_type(&t.name);
            let counter = t.name.counter();
            u.output_arrays.push(
                WgslOutputArray { item_type: t, array_type, atomic_counter_name: Some(counter) },
            );
            assert(outputs_models(u.output_arrays@) =~= outputs_models(old(u).output_arrays@).push(
                (tm, output_of_name(tn), Some(counter_name(tn.lower@))),
            ));
        },
    }
}

/// The parts of `items` up to their end, as far as the scan has gone: no error so
/// far, the parts of these items, and the entry point where one was met.
pub open spec fn parsed_so_far(u: WgslShaderModuleUserPortion, items: Seq<Item>, names: Seq<Seq<char>>) -> bool {
    &&& scan_error(items, names) is None
    &&& consts_models(u.static_consts@) == consts_of(items, names)
    &&& types_models(u.helper_types@) == types_of(items, names, CustomTypeKind::GpuOnlyHelperType)
    &&& types_models(u.uniforms@) == types_of(items, names, CustomTypeKind::Uniform)
    &&& inputs_models(u.input_arrays@) == inputs_of(items, names)
    &&& outputs_models(u.output_arrays@) == outputs_of(items, names)
    &&& fns_models(u.helper_functions@) == helper_fns_of(items, names)
    &&& (u.main_function is Some <==> has_main(items))
    &&& (u.main_function matches Some(m) ==> fn_model(m) == main_of(items))
}

/// Splits a module into its parts (see `parse_outcome`); `allowed` lists the
/// module's own types, whose names stay as they are in WGSL.
pub fn parse_shader_module(module: &ItemMod, allowed: &AllowedRustTypes) -> (res: Result<WgslShaderModuleUserPortion, WgslError>)
    ensures
        parse_outcome(*module, type_names(allowed.custom_types@), res),
{
    let items = match &module.content {
        None => {
            return Err(WgslError::NoModuleBody);
        },
        Some(items) => items,
    };
    handle_use_statements(items)?;
    let names = allowed.custom_type_names();
    let ghost nv = type_names(allowed.custom_types@);
    let mut u = WgslShaderModuleUserPortion::empty();
    proof {
        assert(consts_models(u.static_consts@) =~= Seq::<ConstModel>::empty());
        assert(types_models(u.helper_types@) =~= Seq::<TypeModel>::empty());
        assert(types_models(u.uniforms@) =~= Seq::<TypeModel>::empty());
        assert(inputs_models(u.input_arrays@) =~= Seq::<(TypeModel, DerivedModel)>::empty());
        assert(outputs_models(u.output_arrays@) =~= Seq::<(TypeModel, DerivedModel, Option<Seq<char>>)>::empty());
        assert(fns_models(u.helper_functions@) =~= Seq::<FnModel>::empty());
        assert(items@.subrange(0, 0) =~= Seq::<Item>::empty());
    }
    let n = items.len();
    let mut i: usize = 0;
    while i < n
        invariant
            n == items@.len(),
            i <= n,
            crate::text::string_views(names@) == nv,
            nv == type_names(allowed.custom_types@),
            module.content == Some(*items),
            use_scan(items@) is Ok,
            parsed_so_far(u, items@.subrange(0, i as int), nv),
        decreases n - i,
    {
        let ghost prefix = items@.subrange(0, i as int);
        let ghost next = items@.subrange(0, i + 1);
        proof {
            assert(next.drop_last() =~= prefix);
        }
        let ghost u0 = u;
        match &items[i] {
            Item::Const(c) => {
                let a = match parse_const_assignment(c, &names) {
                    Ok(a) => a,
                    Err(e) => {
                        proof {
                            lemma_item_error_is_first(items@, nv, i as int, e);
                        }
                        return Err(e);
                    },
                };
                let ghost am = const_model(a);
                u.static_consts.push(a);
                proof {
                    assert(consts_models(u.static_consts@) =~= consts_models(u0.static_consts@).push(am));
                }
            },
            Item::Struct(st) => {
                let kind = CustomTypeKind::from(&st.attrs);
                let t = match parse_struct_as_wgsl_type(st, &names) {
                    Ok(t) => t,
                    Err(e) => {
                        proof {
                            assert(type_item_wgsl(items@[i as int], nv) == Err::<Seq<char>, WgslError>(e));
                            lemma_item_error_is_first(items@, nv, i as int, e);
                        }
                        return Err(e);
                    },
                };
                divide_custom_types_by_category(&mut u, kind, t);
            },
            Item::Type(ty) => {
                let kind = CustomTypeKind::from(&ty.attrs);
                let t = match parse_type_as_alias(ty, &names) {
                    Ok(t) => t,
                    Err(e) => {
                        proof {
                            assert(type_item_wgsl(items@[i as int], nv) == Err::<Seq<char>, WgslError>(e));
                            lemma_item_error_is_first(items@, nv, i as int, e);
                        }
                        return Err(e);
                    },
                };
                divide_custom_types_by_category(&mut u, kind, t);
            },
            Item::Fn(f) => {
                if str_eq(f.name.as_str(), "main") {
                    if u.main_function.is_some() {
                        proof {
                            lemma_item_error_is_first(items@, nv, i as int, WgslError::MultipleMainFunctions);
                        }
                        return Err(WgslError::MultipleMainFunctions);
                    }
                    let m = match parse_main_function(f) {
                        Ok(m) => m,
                        Err(e) => {
                            proof {
                                lemma_scan_error_persists(items@, nv, i + 1);
                            }
                            return Err(e);
                        },
                    };
                    u.main_function = Some(m);
                } else {
                    let h = match parse_helper_function(f, &names) {
                        Ok(h) => h,
                        Err(e) => {
                            proof {
                                lemma_scan_error_persists(items@, nv, i + 1);
                            }
                            return Err(e);
                        },
                    };
                    let ghost hm = fn_model(h);
                    u.helper_functions.push(h);
                    proof {
                        assert(fns_models(u.helper_functions@) =~= fns_models(u0.helper_functions@).push(hm));
                    }
                }
            },
            Item::Use(_) => {},
            Item::Other => {
                proof {
                    lemma_item_error_is_first(items@, nv, i as int, WgslError::UnsupportedItem);
                }
                return Err(WgslError::UnsupportedItem);
            },
        }
        i = i + 1;
    }
    proof {
        assert(items@.subrange(0, n as int) =~= items@);
    }
    if u.main_function.is_none() {
        return Err(WgslError::NoMainFunction);
    }
    Ok(u)
}

} // verus!
