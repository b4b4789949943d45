//! The name of a user-defined type, and the names the library derives from it.
use vstd::prelude::*;
use crate::text::{concat2, owned};

verus! {

/// What `str::to_uppercase` returns for a string with these characters.
pub uninterp spec fn uppercase_of(s: Seq<char>) -> Seq<char>;

/// What `str::to_lowercase` returns for a string with these characters.
pub uninterp spec fn lowercase_of(s: Seq<char>) -> Seq<char>;

/// Every character is ASCII.
pub open spec fn is_ascii_text(s: Seq<char>) -> bool {
    forall|i: int| 0 <= i < s.len() ==> (s[i] as u32) < 128
}

/// An ASCII letter `a`..`z` in upper case; any other character as it is.
pub open spec fn ascii_upper_char(c: char) -> char {
    if 97 <= (c as u32) && (c as u32) <= 122 {
        ((c as u32) - 32) as char
    } else {
        c
    }
}

/// An ASCII letter `A`..`Z` in lower case; any other character as it is.
pub open spec fn ascii_lower_char(c: char) -> char {
    if 65 <= (c as u32) && (c as u32) <= 90 {
        ((c as u32) + 32) as char
    } else {
        c
    }
}

/// The characters with ASCII letters in upper case.
pub open spec fn ascii_uppercase(s: Seq<char>) -> Seq<char> {
    s.map_values(|c: char| ascii_upper_char(c))
}

/// The characters with ASCII letters in lower case.
pub open spec fn ascii_lowercase(s: Seq<char>) -> Seq<char> {
    s.map_values(|c: char| ascii_lower_char(c))
}

/// Calls `str::to_uppercase` (std), whose result is the Unicode uppercase mapping of
/// `s`. The contract names that result; of the mapping it states only the part std
/// documents for ASCII text, where `a`..`z` become `A`..`Z` and nothing else changes.
#[verifier::external_body]
pub(crate) fn to_uppercase_string(s: &str) -> (res: String)
    ensures
        res@ == uppercase_of(s@),
        is_ascii_text(s@) ==> res@ == ascii_uppercase(s@),
{
    s.to_uppercase()
}

/// Calls `str::to_lowercase` (std), whose result is the Unicode lowercase mapping of
/// `s`. The contract names that result; of the mapping it states only the part std
/// documents for ASCII text, where `A`..`Z` become `a`..`z` and nothing else changes.
#[verifier::external_body]
pub(crate) fn to_lowercase_string(s: &str) -> (res: String)
    ensures
        res@ == lowercase_of(s@),
        is_ascii_text(s@) ==> res@ == ascii_lowercase(s@),
{
    s.to_lowercase()
}

/// `{UPPER}_INPUT_ARRAY_LENGTH`
pub open spec fn input_array_length_name(upper: Seq<char>) -> Seq<char> {
    upper + "_INPUT_ARRAY_LENGTH"@
}

/// `{lower}_input_array`
pub open spec fn input_array_name(lower: Seq<char>) -> Seq<char> {
    lower + "_input_array"@
}

/// `{UPPER}_OUTPUT_ARRAY_LENGTH`
pub open spec fn output_array_length_name(upper: Seq<char>) -> Seq<char> {
    upper + "_OUTPUT_ARRAY_LENGTH"@
}

/// `{lower}_output_array`
pub open spec fn output_array_name(lower: Seq<char>) -> Seq<char> {
    lower + "_output_array"@
}

/// `{lower}_counter`
pub open spec fn counter_name(lower: Seq<char>) -> Seq<char> {
    lower + "_counter"@
}

/// `{lower}_output_array_index`
pub open spec fn index_name(lower: Seq<char>) -> Seq<char> {
    lower + "_output_array_index"@
}

/// The Rust code that rebuilds a `CustomTypeName` with these three strings.
pub open spec fn custom_type_name_initializer(name: Seq<char>, upper: Seq<char>, lower: Seq<char>) -> Seq<char> {
    "CustomTypeName {\n                name: \""@ + name + "\".to_string(),\n                upper: \""@
        + upper + "\".to_string(),\n                lower: \""@ + lower
        + "\".to_string(),\n            }"@
}

/// A user type's name with its upper- and lower-case forms.
#[derive(Debug, PartialEq)]
pub struct CustomTypeName {
    pub name: String,
    pub upper: String,
    pub lower: String,
}

impl CustomTypeName {
    /// The case forms are those that `to_uppercase` and `to_lowercase` give for `name`.
    pub open spec fn is_named(&self, name: Seq<char>) -> bool {
        &&& self.name@ == name
        &&& self.upper@ == uppercase_of(name)
        &&& self.lower@ == lowercase_of(name)
    }

    /// Rust code that constructs this value.
    pub fn to_struct_initializer(&self) -> (res: String)
        ensures
            res@ == custom_type_name_initializer(self.name@, self.upper@, self.lower@),
    {
        let mut s = owned("CustomTypeName {\n                name: \"");
        s.append(self.name.as_str());
        s.append("\".to_string(),\n                upper: \"");
        s.append(self.upper.as_str());
        s.append("\".to_string(),\n                lower: \"");
        s.append(self.lower.as_str());
        s.append("\".to_string(),\n            }");
        s
    }

    /// The name with its case forms; for an ASCII name these are its ASCII upper- and
    /// lower-case spellings.
    pub fn new(name: &String) -> (res: CustomTypeName)
        ensures
            res.is_named(name@),
            is_ascii_text(name@) ==> res.upper@ == ascii_uppercase(name@) && res.lower@
                == ascii_lowercase(name@),
    {
        let upper = to_uppercase_string(name.as_str());
        let lower = to_lowercase_string(name.as_str());
        CustomTypeName { name: name.clone(), upper, lower }
    }

    /// Whether this is the name `other`.
    pub fn eq(&self, other: &String) -> (res: bool)
        ensures
            res == (self.name@ == other@),
    {
        self.name == *other
    }

    /// The name of the uniform variable: the lower-case name.
    pub fn uniform(&self) -> (res: String)
        ensures
            res@ == self.lower@,
    {
        self.lower.clone()
    }

    pub fn input_array_length(&self) -> (res: String)
        ensures
            res@ == input_array_length_name(self.upper@),
    {
        concat2(self.upper.as_str(), "_INPUT_ARRAY_LENGTH")
    }

    pub fn input_array(&self) -> (res: String)
        ensures
            res@ == input_array_name(self.lower@),
    {
        concat2(self.lower.as_str(), "_input_array")
    }

    pub fn output_array_length(&self) -> (res: String)
        ensures
            res@ == output_array_length_name(self.upper@),
    {
        concat2(self.upper.as_str(), "_OUTPUT_ARRAY_LENGTH")
    }

    pub fn output_array(&self) -> (res: String)
        ensures
            res@ == output_array_name(self.lower@),
    {
        concat2(self.lower.as_str(), "_output_array")
    }

    pub fn counter(&self) -> (res: String)
        ensures
            res@ == counter_name(self.lower@),
    {
        concat2(self.lower.as_str(), "_counter")
    }

    pub fn index(&self) -> (res: String)
        ensures
            res@ == index_name(self.lower@),
    {
        concat2(self.lower.as_str(), "_output_array_index")
    }
}

} // verus!
