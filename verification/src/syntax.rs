//! The library's own model of the Rust syntax that a shader module may hold.
//!
//! The front end (a proc macro) parses the user's module and hands it over in
//! this shape; every transformation of the library works on these values.
use vstd::prelude::*;

verus! {

/// The generic arguments of one path segment.
#[derive(Debug, PartialEq)]
pub enum PathArguments {
    /// No arguments: `Foo`.
    NoArgs,
    /// Angle-bracketed arguments: `Foo<A, B>`.
    AngleBracketed(Vec<GenericArgument>),
    /// Parenthesized arguments: `Fn(A) -> B`.
    Parenthesized,
}

/// One argument between angle brackets.
#[derive(Debug, PartialEq)]
pub enum GenericArgument {
    Type(RustType),
    /// A lifetime, a const value, a binding or a constraint.
    Other,
}

/// One segment of a path, such as `vec_len::<Position>`.
#[derive(Debug, PartialEq)]
pub struct PathSegment {
    pub ident: String,
    pub arguments: PathArguments,
}

/// A path such as `WgslVecInput::vec_len::<Position>`.
#[derive(Debug, PartialEq)]
pub struct RustPath {
    pub leading_colon: bool,
    pub segments: Vec<PathSegment>,
}

/// The length expression of an array type `[T; N]`.
#[derive(Debug, PartialEq)]
pub enum ArrayLen {
    /// An integer literal, as written (suffix included).
    Int(String),
    /// A literal that is not an integer.
    OtherLit,
    /// Anything that is not a literal.
    NonLiteral,
}

/// A Rust type.
#[derive(Debug, PartialEq)]
pub enum RustType {
    Path(RustPath),
    Array { elem: Box<RustType>, len: ArrayLen },
    Slice(Box<RustType>),
    Tuple(Vec<RustType>),
    Group(Box<RustType>),
    /// Any other kind of type (references, pointers, trait objects, ...).
    Other,
}

/// A literal expression.
#[derive(Debug, PartialEq)]
pub enum Lit {
    /// An integer literal, as written.
    Int(String),
    /// A float literal, as written.
    Float(String),
    Bool(bool),
    /// A string, byte, char or other literal, as written.
    Other(String),
}

/// Expression kinds that the library rejects and whose contents it never reads.
#[derive(Debug, Clone, Copy, PartialEq, Eq, Structural)]
pub enum ExprKind {
    Async,
    Await,
    Cast,
    Closure,
    Const,
    Infer,
    Let,
    Macro,
    Match,
    MethodCall,
    Range,
    Try,
    TryBlock,
    Tuple,
    Unsafe,
    Yield,
    /// Any other expression (raw address-of, array repeat, ...).
    Other,
}

/// A `name: value` pair of a struct literal.
#[derive(Debug, PartialEq)]
pub struct FieldValue {
    pub member: String,
    pub expr: Expr,
}

/// A Rust expression.
#[derive(Debug, PartialEq)]
pub enum Expr {
    Lit(Lit),
    /// An array literal `[a, b]`.
    Array(Vec<Expr>),
    Assign { left: Box<Expr>, right: Box<Expr> },
    /// A binary operation; `op` is the operator as written (`+`, `<`, `+=`, ...).
    Binary { left: Box<Expr>, op: String, right: Box<Expr> },
    Block(Block),
    Break(Option<Box<Expr>>),
    Call { func: Box<Expr>, args: Vec<Expr> },
    Continue,
    /// Field access `base.member` (`member` is a name or a tuple index).
    Field { base: Box<Expr>, member: String },
    /// `for pat in expr { body }`.
    ForLoop { pat: Pat, expr: Box<Expr>, body: Block },
    Group(Box<Expr>),
    If { cond: Box<Expr>, then_branch: Block, else_branch: Option<Box<Expr>> },
    Index { expr: Box<Expr>, index: Box<Expr> },
    Loop(Block),
    Paren(Box<Expr>),
    Path(RustPath),
    /// A range `start..end` or, where `closed`, `start..=end`; either bound may be absent.
    Range { start: Option<Box<Expr>>, end: Option<Box<Expr>>, closed: bool },
    Reference { mutable: bool, expr: Box<Expr> },
    Return(Option<Box<Expr>>),
    Struct { path: RustPath, fields: Vec<FieldValue> },
    /// A unary operation; `op` is the operator as written (`!`, `-`, `*`).
    Unary { op: String, expr: Box<Expr> },
    /// Tokens that were not interpreted, as written.
    Verbatim(String),
    While { cond: Box<Expr>, body: Block },
    Unsupported(ExprKind),
}

/// A pattern, as it appears in `let` statements and function parameters.
#[derive(Debug, PartialEq)]
pub enum Pat {
    Ident(String),
    /// Any other pattern (typed, tuple, wildcard, ...).
    Other,
}

/// A statement.
#[derive(Debug, PartialEq)]
pub enum Stmt {
    Local { pat: Pat, init: Option<Expr> },
    Expr { expr: Expr, semi: bool },
    Item,
    Macro,
}

/// A block `{ ... }`.
#[derive(Debug, PartialEq)]
pub struct Block {
    pub stmts: Vec<Stmt>,
}

/// An outer attribute such as `#[wgsl_config]`.
#[derive(Debug, PartialEq)]
pub struct Attribute {
    pub path: RustPath,
}

/// A function parameter.
#[derive(Debug, PartialEq)]
pub enum FnArg {
    Typed { pat: Pat, ty: RustType },
    Receiver,
}

/// A function item; `tokens` is its source text.
#[derive(Debug, PartialEq)]
pub struct ItemFn {
    pub name: String,
    pub inputs: Vec<FnArg>,
    pub output: Option<RustType>,
    pub block: Block,
    pub tokens: String,
}

/// A struct field; `ident` is `None` for tuple-struct fields.
#[derive(Debug, PartialEq)]
pub struct Field {
    pub ident: Option<String>,
    pub ty: RustType,
}

/// A struct item; `tokens` is its source text.
#[derive(Debug, PartialEq)]
pub struct ItemStruct {
    pub attrs: Vec<Attribute>,
    pub name: String,
    pub fields: Vec<Field>,
    pub tokens: String,
}

/// A type alias `type Name = T;`; `tokens` is its source text.
#[derive(Debug, PartialEq)]
pub struct ItemType {
    pub attrs: Vec<Attribute>,
    pub name: String,
    pub ty: RustType,
    pub tokens: String,
}

/// A constant `const NAME: T = expr;`; `tokens` is its source text.
#[derive(Debug, PartialEq)]
pub struct ItemConst {
    pub name: String,
    pub ty: RustType,
    pub expr: Expr,
    pub tokens: String,
}

/// The tree of a `use` item.
#[derive(Debug, PartialEq)]
pub enum UseTree {
    Path { ident: String, tree: Box<UseTree> },
    Name(String),
    Rename,
    Glob,
    Group(Vec<UseTree>),
}

/// An item of the shader module.
#[derive(Debug, PartialEq)]
pub enum Item {
    Const(ItemConst),
    Struct(ItemStruct),
    Type(ItemType),
    Fn(ItemFn),
    Use(UseTree),
    Other,
}

/// The annotated module; `content` is `None` for `mod name;`.
#[derive(Debug, PartialEq)]
pub struct ItemMod {
    pub name: String,
    pub visibility: String,
    pub content: Option<Vec<Item>>,
}

} // verus!
