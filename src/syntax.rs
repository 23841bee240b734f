use vstd::prelude::*;

verus! {

/// One parameter of the generic list of an impl block.
#[derive(Clone, Copy, Debug, PartialEq, Eq, Structural)]
pub enum GenericParam {
    Type,
    Lifetime,
    Const,
}

/// One token of a type expression.
#[derive(Debug)]
pub enum Tok {
    /// An identifier (keywords included), as it is spelled.
    Ident(String),
    /// A single punctuation character.
    Punct(char),
    /// A literal or a delimited group.
    Other,
}

/// An implicit `self` parameter: `self`, `mut self`, `&self`, `&'a mut self`.
///
/// `reference` is `None` for a receiver taken by value and `Some(lifetime)`
/// for one taken by reference. `mutability` is the `mut` of the binding for a
/// by-value receiver and the `mut` of the reference otherwise.
pub struct Receiver<A, L> {
    pub attrs: A,
    pub reference: Option<Option<L>>,
    pub mutability: bool,
}

/// The type written for an explicit `self` of the wrapper type: the wrapper
/// type itself, or a reference to it.
pub enum SelfTy<L> {
    Value,
    Ref { lifetime: Option<L>, mutable: bool },
}

/// An explicit `self: <wrapper type>` parameter; `mutability` is the `mut`
/// of the binding.
pub struct TypedSelf<A, L> {
    pub attrs: A,
    pub mutability: bool,
    pub ty: SelfTy<L>,
}

/// A parameter of a method.
pub enum FnParam<A, L, P> {
    /// An implicit `self`.
    Receiver(Receiver<A, L>),
    /// `self` with the wrapper type written out.
    TypedSelf(TypedSelf<A, L>),
    /// Any other `pattern: Type` parameter.
    Typed(P),
}

/// A method: its parameters, and everything else about it (attributes,
/// visibility, qualifiers, name, generics, return type, body) as `sig`.
pub struct Method<A, L, P, R> {
    pub sig: R,
    pub inputs: Vec<FnParam<A, L, P>>,
}

/// A member of an impl block: a method, or anything else (a constant, an
/// associated type, a macro call).
pub enum Member<A, L, P, R> {
    Method(Method<A, L, P, R>),
    Other,
}

/// An impl block as written: `impl<generics> [Trait for] SelfTy { items }`.
pub struct ImplBlock<A, L, P, R> {
    pub attrs: A,
    pub generics: Vec<GenericParam>,
    pub is_trait_impl: bool,
    pub self_ty: Vec<Tok>,
    pub items: Vec<Member<A, L, P, R>>,
}

/// An inherent impl block for the type named `self_ty`, whose methods take
/// `wrapper_ty` (or a reference to it) as their `self` type.
pub struct RewrittenImpl<A, L, P, R> {
    pub attrs: A,
    pub self_ty: String,
    pub wrapper_ty: Vec<Tok>,
    pub items: Vec<Method<A, L, P, R>>,
}

/// Why a block cannot be rewritten. `index` is the position of the offending
/// member in the block.
#[derive(Clone, Copy, Debug, PartialEq, Eq, Structural)]
pub enum RewriteError {
    /// The block has a type or lifetime parameter.
    UnsupportedGenerics,
    /// The block implements a trait.
    NotInherentImpl,
    /// The self type is not of the shape `Wrapper<Type>`.
    MalformedSelfType,
    /// The member is not a method.
    UnsupportedMember { index: usize },
    /// The method has no parameter at all.
    StaticMethodUnsupported { index: usize },
    /// The method's first parameter is not an implicit `self`.
    NonStaticReceiverRequired { index: usize },
}

} // verus!
