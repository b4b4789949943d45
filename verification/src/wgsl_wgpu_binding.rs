//! Resource bindings: the `@group(..) @binding(..) var<..>` declarations of a module.
use vstd::prelude::*;
use crate::custom_type_name::{lowercase_of, to_lowercase_string};
use crate::text::{owned, str_eq};
use crate::wgsl_components::WgslOutputArray;

verus! {

/// The character of a decimal digit.
pub open spec fn digit_char(d: nat) -> char {
    if d == 0 {
        '0'
    } else if d == 1 {
        '1'
    } else if d == 2 {
        '2'
    } else if d == 3 {
        '3'
    } else if d == 4 {
        '4'
    } else if d == 5 {
        '5'
    } else if d == 6 {
        '6'
    } else if d == 7 {
        '7'
    } else if d == 8 {
        '8'
    } else {
        '9'
    }
}

/// The decimal representation of `n`, without leading zeros.
pub open spec fn decimal(n: nat) -> Seq<char>
    decreases n,
{
    if n < 10 {
        seq![digit_char(n)]
    } else {
        decimal(n / 10).push(digit_char(n % 10))
    }
}

fn digit_str(d: u32) -> (res: &'static str)
    requires
        d < 10,
    ensures
        res@ == seq![digit_char(d as nat)],
{
    proof {
        reveal_strlit("0");
        reveal_strlit("1");
        reveal_strlit("2");
        reveal_strlit("3");
        reveal_strlit("4");
        reveal_strlit("5");
        reveal_strlit("6");
        reveal_strlit("7");
        reveal_strlit("8");
        reveal_strlit("9");
    }
    let r = if d == 0 {
        "0"
    } else if d == 1 {
        "1"
    } else if d == 2 {
        "2"
    } else if d == 3 {
        "3"
    } else if d == 4 {
        "4"
    } else if d == 5 {
        "5"
    } else if d == 6 {
        "6"
    } else if d == 7 {
        "7"
    } else if d == 8 {
        "8"
    } else {
        "9"
    };
    assert(r@ =~= seq![digit_char(d as nat)]);
    r
}

/// `n` written in decimal, as `format!("{}", n)` writes it.
pub fn u32_to_decimal(n: u32) -> (res: String)
    ensures
        res@ == decimal(n as nat),
    decreases n,
{
    if n < 10 {
        owned(digit_str(n))
    } else {
        let mut s = u32_to_decimal(n / 10);
        s.append(digit_str(n % 10));
        s
    }
}

#[derive(Debug, Clone, Copy, PartialEq, Eq, Structural)]
pub enum WgpuBufferType {
    Storage,
    Uniform,
}

/// The address space keyword of a buffer type.
pub open spec fn buffer_type_text(t: WgpuBufferType) -> Seq<char> {
    match t {
        WgpuBufferType::Storage => "storage"@,
        WgpuBufferType::Uniform => "uniform"@,
    }
}

/// The buffer type named by an already lower-cased keyword.
pub open spec fn buffer_type_named(s: Seq<char>) -> Option<WgpuBufferType> {
    if s == "storage"@ {
        Some(WgpuBufferType::Storage)
    } else if s == "uniform"@ {
        Some(WgpuBufferType::Uniform)
    } else {
        None
    }
}

impl WgpuBufferType {
    pub fn to_string(&self) -> (res: String)
        ensures
            res@ == buffer_type_text(*self),
    {
        match self {
            WgpuBufferType::Storage => owned("storage"),
            WgpuBufferType::Uniform => owned("uniform"),
        }
    }

    /// The buffer type of a lower-case keyword.
    pub fn from_lowercase(s: &str) -> (res: Result<WgpuBufferType, String>)
        ensures
            match res {
                Ok(t) => buffer_type_named(s@) == Some(t),
                Err(e) => buffer_type_named(s@) is None && e@ == "Invalid buffer access type"@,
            },
    {
        if str_eq(s, "storage") {
            Ok(WgpuBufferType::Storage)
        } else if str_eq(s, "uniform") {
            Ok(WgpuBufferType::Uniform)
        } else {
            Err(owned("Invalid buffer access type"))
        }
    }

    /// The buffer type of a keyword, in any case.
    pub fn from_str(s: &str) -> (res: Result<WgpuBufferType, String>)
        ensures
            match res {
                Ok(t) => buffer_type_named(lowercase_of(s@)) == Some(t),
                Err(e) => buffer_type_named(lowercase_of(s@)) is None && e@
                    == "Invalid buffer access type"@,
            },
    {
        let lower = to_lowercase_string(s);
        WgpuBufferType::from_lowercase(lower.as_str())
    }
}

#[derive(Debug, Clone, Copy, PartialEq, Eq, Structural)]
pub enum WgpuBufferAccessMode {
    Read,
    ReadWrite,
}

/// The access mode keyword.
pub open spec fn access_mode_text(m: WgpuBufferAccessMode) -> Seq<char> {
    match m {
        WgpuBufferAccessMode::Read => "read"@,
        WgpuBufferAccessMode::ReadWrite => "read_write"@,
    }
}

/// The access mode named by an already lower-cased keyword.
pub open spec fn access_mode_named(s: Seq<char>) -> Option<WgpuBufferAccessMode> {
    if s == "read"@ {
        Some(WgpuBufferAccessMode::Read)
    } else if s == "read_write"@ {
        Some(WgpuBufferAccessMode::ReadWrite)
    } else {
        None
    }
}

impl WgpuBufferAccessMode {
    pub fn to_string(&self) -> (res: String)
        ensures
            res@ == access_mode_text(*self),
    {
        match self {
            WgpuBufferAccessMode::Read => owned("read"),
            WgpuBufferAccessMode::ReadWrite => owned("read_write"),
        }
    }

    /// The access mode of a lower-case keyword.
    pub fn from_lowercase(s: &str) -> (res: Result<WgpuBufferAccessMode, String>)
        ensures
            match res {
                Ok(m) => access_mode_named(s@) == Some(m),
                Err(e) => access_mode_named(s@) is None && e@ == "Invalid buffer access mode"@,
            },
    {
        if str_eq(s, "read") {
            Ok(WgpuBufferAccessMode::Read)
        } else if str_eq(s, "read_write") {
            Ok(WgpuBufferAccessMode::ReadWrite)
        } else {
            Err(owned("Invalid buffer access mode"))
        }
    }

    /// The access mode of a keyword, in any case.
    pub fn from_str(s: &str) -> (res: Result<WgpuBufferAccessMode, String>)
        ensures
            match res {
                Ok(m) => access_mode_named(lowercase_of(s@)) == Some(m),
                Err(e) => access_mode_named(lowercase_of(s@)) is None && e@
                    == "Invalid buffer access mode"@,
            },
    {
        let lower = to_lowercase_string(s);
        WgpuBufferAccessMode::from_lowercase(lower.as_str())
    }
}

/// One binding of a buffer to a group and an entry.
#[derive(Debug)]
pub struct WgslWgpuBinding {
    pub group_num: u32,
    pub entry_num: u32,
    pub buffer_type: WgpuBufferType,
    pub access: WgpuBufferAccessMode,
    pub name: String,
    pub type_decl: String,
}

/// The declaration of a binding, ending with a line break. Uniform buffers carry no
/// access mode.
pub open spec fn binding_text(b: WgslWgpuBinding) -> Seq<char> {
    let head = "@group("@ + decimal(b.group_num as nat) + ") @binding("@ + decimal(
        b.entry_num as nat,
    ) + ") var<"@ + buffer_type_text(b.buffer_type);
    let tail = "> "@ + b.name@ + ": "@ + b.type_decl@ + ";\n"@;
    if b.buffer_type == WgpuBufferType::Uniform {
        head + tail
    } else {
        head + ", "@ + access_mode_text(b.access) + tail
    }
}

impl WgslWgpuBinding {
    pub fn to_string(&self) -> (res: String)
        ensures
            res@ == binding_text(*self),
    {
        let mut s = owned("@group(");
        let g = u32_to_decimal(self.group_num);
        s.append(g.as_str());
        s.append(") @binding(");
        let e = u32_to_decimal(self.entry_num);
        s.append(e.as_str());
        s.append(") var<");
        let t = self.buffer_type.to_string();
        s.append(t.as_str());
        if self.buffer_type != WgpuBufferType::Uniform {
            s.append(", ");
            let a = self.access.to_string();
            s.append(a.as_str());
        }
        s.append("> ");
        s.append(self.name.as_str());
        s.append(": ");
        s.append(self.type_decl.as_str());
        s.append(";\n");
        s
    }

    pub fn uniform(group_num: u32, entry_num: u32, name: String, type_decl: &str) -> (res: WgslWgpuBinding)
        ensures
            res.group_num == group_num,
            res.entry_num == entry_num,
            res.buffer_type == WgpuBufferType::Uniform,
            res.access == WgpuBufferAccessMode::Read,
            res.name == name,
            res.type_decl@ == type_decl@,
    {
        WgslWgpuBinding {
            group_num,
            entry_num,
            buffer_type: WgpuBufferType::Uniform,
            access: WgpuBufferAccessMode::Read,
            name,
            type_decl: owned(type_decl),
        }
    }

    pub fn input_array(group_num: u32, entry_num: u32, name: String, type_decl: String) -> (res: WgslWgpuBinding)
        ensures
            res.group_num == group_num,
            res.entry_num == entry_num,
            res.buffer_type == WgpuBufferType::Storage,
            res.access == WgpuBufferAccessMode::Read,
            res.name == name,
            res.type_decl == type_decl,
    {
        WgslWgpuBinding {
            group_num,
            entry_num,
            buffer_type: WgpuBufferType::Storage,
            access: WgpuBufferAccessMode::Read,
            name,
            type_decl,
        }
    }

    pub fn output_array(group_num: u32, entry_num: u32, name: String, type_decl: String) -> (res: WgslWgpuBinding)
        ensures
            res.group_num == group_num,
            res.entry_num == entry_num,
            res.buffer_type == WgpuBufferType::Storage,
            res.access == WgpuBufferAccessMode::ReadWrite,
            res.name == name,
            res.type_decl == type_decl,
    {
        WgslWgpuBinding {
            group_num,
            entry_num,
            buffer_type: WgpuBufferType::Storage,
            access: WgpuBufferAccessMode::ReadWrite,
            name,
            type_decl,
        }
    }

    /// The binding of an output array's atomic counter, in the group of the array's
    /// own binding.
    pub fn counter(
        entry_number: u32,
        out_array: &WgslOutputArray,
        out_array_binding: &WgslWgpuBinding,
    ) -> (res: WgslWgpuBinding)
        requires
            out_array.atomic_counter_name is Some,
        ensures
            res.group_num == out_array_binding.group_num,
            res.entry_num == entry_number,
            res.buffer_type == WgpuBufferType::Storage,
            res.access == WgpuBufferAccessMode::ReadWrite,
            res.name@ == out_array.atomic_counter_name->Some_0@,
            res.type_decl@ == "atomic<u32>"@,
    {
        let name = match &out_array.atomic_counter_name {
            Some(n) => n.clone(),
            None => String::new(),
        };
        WgslWgpuBinding {
            group_num: out_array_binding.group_num,
            entry_num: entry_number,
            buffer_type: WgpuBufferType::Storage,
            access: WgpuBufferAccessMode::ReadWrite,
            name,
            type_decl: owned("atomic<u32>"),
        }
    }
}

} // verus!
