//! The types a user declares in a shader module, and what each is for.
use vstd::prelude::*;
use crate::custom_type_name::CustomTypeName;
use crate::syntax::{Attribute, Item, ItemMod, PathArguments};
use crate::text::{owned, str_eq, string_views};

verus! {

/// What a user type is for, as its attribute says.
#[derive(Debug, Clone, Copy, PartialEq, Eq, Structural)]
pub enum CustomTypeKind {
    /// No attribute: a type that lives on the GPU only.
    GpuOnlyHelperType,
    /// `#[wgsl_config]`
    Uniform,
    /// `#[wgsl_input_array]`
    InputArray,
    /// `#[wgsl_output_array]`
    OutputArray,
    /// `#[wgsl_output_vec]`
    OutputVec,
}

/// The attribute's path is the single name `name`, as `syn::Path::is_ident` tests it.
pub open spec fn attribute_is(a: Attribute, name: Seq<char>) -> bool {
    &&& !a.path.leading_colon
    &&& a.path.segments@.len() == 1
    &&& a.path.segments@[0].arguments is NoArgs
    &&& a.path.segments@[0].ident@ == name
}

/// The kind given by the first attribute, from index `i` on, that names a kind.
pub open spec fn kind_from(attrs: Seq<Attribute>, i: int) -> CustomTypeKind
    decreases attrs.len() - i,
{
    if i < 0 || i >= attrs.len() {
        CustomTypeKind::GpuOnlyHelperType
    } else if attribute_is(attrs[i], "wgsl_config"@) {
        CustomTypeKind::Uniform
    } else if attribute_is(attrs[i], "wgsl_input_array"@) {
        CustomTypeKind::InputArray
    } else if attribute_is(attrs[i], "wgsl_output_array"@) {
        CustomTypeKind::OutputArray
    } else if attribute_is(attrs[i], "wgsl_output_vec"@) {
        CustomTypeKind::OutputVec
    } else {
        kind_from(attrs, i + 1)
    }
}

/// The kind that a type's attributes give it.
pub open spec fn kind_of(attrs: Seq<Attribute>) -> CustomTypeKind {
    kind_from(attrs, 0)
}

fn attribute_is_exec(a: &Attribute, name: &str) -> (res: bool)
    ensures
        res == attribute_is(*a, name@),
{
    !a.path.leading_colon && a.path.segments.len() == 1 && matches!(a.path.segments[0].arguments, PathArguments::NoArgs)
        && str_eq(a.path.segments[0].ident.as_str(), name)
}

impl CustomTypeKind {
    /// The kind named by the first attribute that names one; a type without such
    /// an attribute lives on the GPU only.
    pub fn from(attrs: &Vec<Attribute>) -> (res: CustomTypeKind)
        ensures
            res == kind_of(attrs@),
    {
        let n = attrs.len();
        let mut i: usize = 0;
        while i < n
            invariant
                n == attrs@.len(),
                i <= n,
                kind_of(attrs@) == kind_from(attrs@, i as int),
            decreases n - i,
        {
            let a = &attrs[i];
            if attribute_is_exec(a, "wgsl_config") {
                return CustomTypeKind::Uniform;
            } else if attribute_is_exec(a, "wgsl_input_array") {
                return CustomTypeKind::InputArray;
            } else if attribute_is_exec(a, "wgsl_output_array") {
                return CustomTypeKind::OutputArray;
            } else if attribute_is_exec(a, "wgsl_output_vec") {
                return CustomTypeKind::OutputVec;
            }
            i = i + 1;
        }
        CustomTypeKind::GpuOnlyHelperType
    }
}

/// A user type: its name, its kind and its Rust source.
#[derive(Debug)]
pub struct CustomType {
    pub name: CustomTypeName,
    pub kind: CustomTypeKind,
    pub rust_code: String,
}

/// A user type by its name, kind and source.
pub type CustomTypeModel = (Seq<char>, CustomTypeKind, Seq<char>);

pub open spec fn custom_type_model(c: CustomType) -> CustomTypeModel {
    (c.name.name@, c.kind, c.rust_code@)
}

impl CustomType {
    pub fn new(name: &String, kind: CustomTypeKind, type_def_code: String) -> (res: CustomType)
        ensures
            res.name.is_named(name@),
            res.kind == kind,
            res.rust_code == type_def_code,
    {
        CustomType { name: CustomTypeName::new(name), kind, rust_code: type_def_code }
    }
}

/// The 65 names that WGSL or the helper types give to scalars, vectors and matrices.
pub open spec fn wgsl_native_type_names() -> Seq<Seq<char>> {
    seq![
        "Vec2I32"@, "Vec2U32"@, "Vec2F32"@, "Vec2F16"@, "Vec2Bool"@,
        "Vec3I32"@, "Vec3U32"@, "Vec3F32"@, "Vec3F16"@, "Vec3Bool"@,
        "Vec4I32"@, "Vec4U32"@, "Vec4F32"@, "Vec4F16"@, "Vec4Bool"@,
        "Mat2x2I32"@, "Mat2x2U32"@, "Mat2x2F32"@, "Mat2x2F16"@, "Mat2x2Bool"@,
        "Mat2x3U32"@, "Mat2x3I32"@, "Mat2x3F32"@, "Mat2x3F16"@, "Mat2x3Bool"@,
        "Mat2x4I32"@, "Mat2x4U32"@, "Mat2x4F32"@, "Mat2x4F16"@, "Mat2x4Bool"@,
        "Mat3x2I32"@, "Mat3x2U32"@, "Mat3x2F32"@, "Mat3x2F16"@, "Mat3x2Bool"@,
        "Mat3x3I32"@, "Mat3x3U32"@, "Mat3x3F32"@, "Mat3x3F16"@, "Mat3x3Bool"@,
        "Mat3x4I32"@, "Mat3x4U32"@, "Mat3x4F32"@, "Mat3x4F16"@, "Mat3x4Bool"@,
        "Mat4x2I32"@, "Mat4x2U32"@, "Mat4x2F32"@, "Mat4x2F16"@, "Mat4x2Bool"@,
        "Mat4x3I32"@, "Mat4x3U32"@, "Mat4x3F32"@, "Mat4x3F16"@, "Mat4x3Bool"@,
        "Mat4x4I32"@, "Mat4x4U32"@, "Mat4x4F32"@, "Mat4x4F16"@, "Mat4x4Bool"@,
        "f32"@, "f16"@, "i32"@, "u32"@, "bool"@,
    ]
}

/// The helper types the library offers inside a shader module.
pub open spec fn lib_helper_type_names() -> Seq<Seq<char>> {
    seq!["WgslScalar"@, "WgslGlobalId"@, "WgslConfigInput"@, "WgslVecInput"@, "WgslOutput"@]
}

/// The views of a list of string slices.
pub open spec fn str_views(s: Seq<&str>) -> Seq<Seq<char>> {
    s.map_values(|x: &str| x@)
}

/// The names of a list of user types.
pub open spec fn type_names(s: Seq<CustomType>) -> Seq<Seq<char>> {
    s.map_values(|c: CustomType| c.name.name@)
}

fn strings_of(names: &[&str]) -> (res: Vec<String>)
    ensures
        string_views(res@) == str_views(names@),
{
    let mut v: Vec<String> = Vec::new();
    let mut i: usize = 0;
    while i < names.len()
        invariant
            i <= names@.len(),
            v@.len() == i,
            string_views(v@) == str_views(names@.subrange(0, i as int)),
        decreases names@.len() - i,
    {
        let ghost old_v = v@;
        let s = owned(names[i]);
        v.push(s);
        proof {
            assert forall|j: int| 0 <= j < i + 1 implies #[trigger] string_views(v@)[j] == str_views(
                names@.subrange(0, i + 1),
            )[j] by {
                if j < i {
                    assert(v@[j] == old_v[j]);
                    assert(string_views(old_v)[j] == str_views(names@.subrange(0, i as int))[j]);
                }
            }
            assert(string_views(v@) =~= str_views(names@.subrange(0, i + 1)));
        }
        i = i + 1;
    }
    assert(names@.subrange(0, names@.len() as int) =~= names@);
    v
}

/// The types a module may use: WGSL's own, the library's helpers and the user's.
#[derive(Debug)]
pub struct AllowedRustTypes {
    pub wgsl_native_types: Vec<String>,
    pub lib_helper_types: Vec<String>,
    pub custom_types: Vec<CustomType>,
}

impl AllowedRustTypes {
    pub fn new(custom_types: Vec<CustomType>) -> (res: AllowedRustTypes)
        ensures
            string_views(res.wgsl_native_types@) == wgsl_native_type_names(),
            string_views(res.lib_helper_types@) == lib_helper_type_names(),
            res.custom_types == custom_types,
    {
        let native: [&str; 65] = [
            "Vec2I32", "Vec2U32", "Vec2F32", "Vec2F16", "Vec2Bool",
            "Vec3I32", "Vec3U32", "Vec3F32", "Vec3F16", "Vec3Bool",
            "Vec4I32", "Vec4U32", "Vec4F32", "Vec4F16", "Vec4Bool",
            "Mat2x2I32", "Mat2x2U32", "Mat2x2F32", "Mat2x2F16", "Mat2x2Bool",
            "Mat2x3U32", "Mat2x3I32", "Mat2x3F32", "Mat2x3F16", "Mat2x3Bool",
            "Mat2x4I32", "Mat2x4U32", "Mat2x4F32", "Mat2x4F16", "Mat2x4Bool",
            "Mat3x2I32", "Mat3x2U32", "Mat3x2F32", "Mat3x2F16", "Mat3x2Bool",
            "Mat3x3I32", "Mat3x3U32", "Mat3x3F32", "Mat3x3F16", "Mat3x3Bool",
            "Mat3x4I32", "Mat3x4U32", "Mat3x4F32", "Mat3x4F16", "Mat3x4Bool",
            "Mat4x2I32", "Mat4x2U32", "Mat4x2F32", "Mat4x2F16", "Mat4x2Bool",
            "Mat4x3I32", "Mat4x3U32", "Mat4x3F32", "Mat4x3F16", "Mat4x3Bool",
            "Mat4x4I32", "Mat4x4U32", "Mat4x4F32", "Mat4x4F16", "Mat4x4Bool",
            "f32", "f16", "i32", "u32", "bool",
        ];
        let helpers: [&str; 5] = ["WgslScalar", "WgslGlobalId", "WgslConfigInput", "WgslVecInput", "WgslOutput"];
        let wgsl_native_types = strings_of(&native);
        let lib_helper_types = strings_of(&helpers);
        assert(str_views(native@) =~= wgsl_native_type_names());
        assert(str_views(helpers@) =~= lib_helper_type_names());
        AllowedRustTypes { wgsl_native_types, lib_helper_types, custom_types }
    }

    pub fn add_user_type(&mut self, custom_type: CustomType)
        ensures
            final(self).custom_types@ == old(self).custom_types@.push(custom_type),
            final(self).wgsl_native_types == old(self).wgsl_native_types,
            final(self).lib_helper_types == old(self).lib_helper_types,
    {
        self.custom_types.push(custom_type);
    }

    /// The names of the user's types.
    pub fn custom_type_names(&self) -> (res: Vec<String>)
        ensures
            string_views(res@) == type_names(self.custom_types@),
    {
        let mut v: Vec<String> = Vec::new();
        let n = self.custom_types.len();
        let mut i: usize = 0;
        while i < n
            invariant
                n == self.custom_types@.len(),
                i <= n,
                v@.len() == i,
                string_views(v@) == type_names(self.custom_types@.subrange(0, i as int)),
            decreases n - i,
        {
            let ghost old_v = v@;
            v.push(self.custom_types[i].name.name.clone());
            proof {
                assert forall|j: int| 0 <= j < i + 1 implies #[trigger] string_views(v@)[j]
                    == type_names(self.custom_types@.subrange(0, i + 1))[j] by {
                    if j < i {
                        assert(v@[j] == old_v[j]);
                        assert(string_views(old_v)[j] == type_names(
                            self.custom_types@.subrange(0, i as int),
                        )[j]);
                    }
                }
                assert(string_views(v@) =~= type_names(self.custom_types@.subrange(0, i + 1)));
            }
            i = i + 1;
        }
        assert(self.custom_types@.subrange(0, n as int) =~= self.custom_types@);
        v
    }
}

/// The user types declared by these items, in order: each struct and each type
/// alias, by name, kind and source.
pub open spec fn declared_types(items: Seq<Item>) -> Seq<CustomTypeModel>
    decreases items.len(),
{
    if items.len() == 0 {
        Seq::empty()
    } else {
        let prefix = declared_types(items.drop_last());
        match items.last() {
            Item::Struct(s) => prefix.push((s.name@, kind_of(s.attrs@), s.tokens@)),
            Item::Type(t) => prefix.push((t.name@, kind_of(t.attrs@), t.tokens@)),
            _ => prefix,
        }
    }
}

/// The user types of a module's body (none for a module without one).
pub open spec fn module_types(module: ItemMod) -> Seq<CustomTypeModel> {
    match module.content {
        Some(items) => declared_types(items@),
        None => Seq::empty(),
    }
}

/// The module's user types, each with the case forms of its name.
pub open spec fn lists_module_types(types: Seq<CustomType>, module: ItemMod) -> bool {
    &&& types.map_values(|c: CustomType| custom_type_model(c)) == module_types(module)
    &&& forall|i: int| 0 <= i < types.len() ==> #[trigger] types[i].name.is_named(types[i].name.name@)
}

/// The types a module may use, its own structs and aliases among them.
pub fn get_custom_types(module: &ItemMod) -> (res: AllowedRustTypes)
    ensures
        string_views(res.wgsl_native_types@) == wgsl_native_type_names(),
        string_views(res.lib_helper_types@) == lib_helper_type_names(),
        lists_module_types(res.custom_types@, *module),
{
    let mut allowed = AllowedRustTypes::new(Vec::new());
    match &module.content {
        None => {
            assert(allowed.custom_types@.map_values(|c: CustomType| custom_type_model(c)) =~= Seq::<
                CustomTypeModel,
            >::empty());
        },
        Some(items) => {
            let n = items.len();
            let mut i: usize = 0;
            while i < n
                invariant
                    n == items@.len(),
                    i <= n,
                    string_views(allowed.wgsl_native_types@) == wgsl_native_type_names(),
                    string_views(allowed.lib_helper_types@) == lib_helper_type_names(),
                    allowed.custom_types@.map_values(|c: CustomType| custom_type_model(c))
                        == declared_types(items@.subrange(0, i as int)),
                    forall|j: int|
                        0 <= j < allowed.custom_types@.len() ==> #[trigger] allowed.custom_types@[j].name.is_named(
                            allowed.custom_types@[j].name.name@,
                        ),
                decreases n - i,
            {
                let ghost old_types = allowed.custom_types@;
                proof {
                    assert(items@.subrange(0, i + 1).drop_last() =~= items@.subrange(0, i as int));
                }
                match &items[i] {
                    Item::Struct(s) => {
                        let t = CustomType::new(&s.name, CustomTypeKind::from(&s.attrs), s.tokens.clone());
                        allowed.add_user_type(t);
                        proof {
                            assert(allowed.custom_types@.map_values(|c: CustomType| custom_type_model(c))
                                =~= old_types.map_values(|c: CustomType| custom_type_model(c)).push(
                                custom_type_model(t),
                            ));
                        }
                    },
                    Item::Type(ty) => {
                        let t = CustomType::new(&ty.name, CustomTypeKind::from(&ty.attrs), ty.tokens.clone());
                        allowed.add_user_type(t);
                        proof {
                            assert(allowed.custom_types@.map_values(|c: CustomType| custom_type_model(c))
                                =~= old_types.map_values(|c: CustomType| custom_type_model(c)).push(
                                custom_type_model(t),
                            ));
                        }
                    },
                    _ => {},
                }
                i = i + 1;
            }
            assert(items@.subrange(0, n as int) =~= items@);
        },
    }
    allowed
}

} // verus!
