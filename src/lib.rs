//! Rewrites an inherent impl block written for `Wrapper<Type>` into an impl
//! block for `Type` whose methods take the wrapper as an explicit receiver
//! type (`self: Wrapper<Type>`, `self: &Wrapper<Type>`, ...).
//!
//! The library works on a model of the block: everything the rewrite only
//! carries through (attributes, lifetimes, ordinary parameters, the rest of a
//! method's signature and its body) is a type parameter, so the rewrite is
//! proved to leave it untouched.

pub mod ident;
pub mod rewrite;
pub mod syntax;

pub use ident::parse_wrapped;
pub use rewrite::{rewrite_receiver, use_ast};
pub use syntax::{
    FnParam, GenericParam, ImplBlock, Member, Method, Receiver, RewriteError, RewrittenImpl, SelfTy,
    Tok, TypedSelf,
};
