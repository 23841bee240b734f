use vstd::prelude::*;

use crate::ident::{parse_wrapped, wrapped_name};
use crate::syntax::{
    FnParam, GenericParam, ImplBlock, Member, Method, Receiver, RewriteError, RewrittenImpl, SelfTy,
    Tok, TypedSelf,
};

verus! {

/// Relies on take_mut::take: the referenced value is handed to the closure
/// and replaced by what the closure returns (the process aborts if the
/// closure panics, which the `requires` rules out).
pub assume_specification<T, F>[ take_mut::take ](mut_ref: &mut T, closure: F)
    where
        F: FnOnce(T) -> T,
    requires
        call_requires(closure, (*old(mut_ref),)),
    ensures
        call_ensures(closure, (*old(mut_ref),), *final(mut_ref)),
;

/// The explicit `self` that replaces an implicit one: `self` and `mut self`
/// take the wrapper type by value and keep the binding's `mut`; `&self` and
/// `&'a mut self` take a reference to it with the same lifetime and
/// mutability, and never a `mut` binding.
pub open spec fn rewritten_receiver<A, L>(r: Receiver<A, L>) -> TypedSelf<A, L> {
    match r.reference {
        None => TypedSelf { attrs: r.attrs, mutability: r.mutability, ty: SelfTy::Value },
        Some(lifetime) => TypedSelf {
            attrs: r.attrs,
            mutability: false,
            ty: SelfTy::Ref { lifetime, mutable: r.mutability },
        },
    }
}

pub open spec fn rewritten_param<A, L, P>(p: FnParam<A, L, P>) -> FnParam<A, L, P> {
    match p {
        FnParam::Receiver(r) => FnParam::TypedSelf(rewritten_receiver(r)),
        _ => p,
    }
}

/// `out` is `m` with its first parameter rewritten and all else kept.
pub open spec fn rewrites_method<A, L, P, R>(m: Method<A, L, P, R>, out: Method<A, L, P, R>) -> bool {
    &&& m.inputs@.len() > 0
    &&& out.sig == m.sig
    &&& out.inputs@ == m.inputs@.update(0, rewritten_param(m.inputs@[0]))
}

/// Why the member at `index` cannot be rewritten, if it cannot.
pub open spec fn member_error<A, L, P, R>(m: Member<A, L, P, R>, index: int) -> Option<
    RewriteError,
> {
    match m {
        Member::Other => Some(RewriteError::UnsupportedMember { index: index as usize }),
        Member::Method(m) => if m.inputs@.len() == 0 {
            Some(RewriteError::StaticMethodUnsupported { index: index as usize })
        } else if !(m.inputs@[0] is Receiver) {
            Some(RewriteError::NonStaticReceiverRequired { index: index as usize })
        } else {
            None
        },
    }
}

/// The error of the first of the first `n` members that has one.
pub open spec fn first_member_error<A, L, P, R>(items: Seq<Member<A, L, P, R>>, n: nat) -> Option<
    RewriteError,
>
    decreases n,
{
    if n == 0 {
        None
    } else {
        match first_member_error(items, (n - 1) as nat) {
            Some(e) => Some(e),
            None => member_error(items[n - 1], n - 1),
        }
    }
}

pub open spec fn has_type_or_lifetime(generics: Seq<GenericParam>) -> bool {
    exists|i: int|
        0 <= i < generics.len() && (generics[i] == GenericParam::Type || generics[i]
            == GenericParam::Lifetime)
}

/// The error that rewriting `b` reports, if any: the block's generics, then
/// its trait, then its self type, then its members in order.
pub open spec fn block_error<A, L, P, R>(b: ImplBlock<A, L, P, R>) -> Option<RewriteError> {
    if has_type_or_lifetime(b.generics@) {
        Some(RewriteError::UnsupportedGenerics)
    } else if b.is_trait_impl {
        Some(RewriteError::NotInherentImpl)
    } else if wrapped_name(b.self_ty@) is None {
        Some(RewriteError::MalformedSelfType)
    } else {
        first_member_error(b.items@, b.items@.len())
    }
}

proof fn lemma_first_member_error<A, L, P, R>(items: Seq<Member<A, L, P, R>>, n: nat)
    requires
        n <= items.len(),
    ensures
        first_member_error(items, n) is None <==> forall|j: int|
            0 <= j < n ==> (#[trigger] member_error(items[j], j)) is None,
        first_member_error(items, n) is Some ==> exists|j: int|
            0 <= j < n && #[trigger] member_error(items[j], j) == first_member_error(items, n),
    decreases n,
{
    if n > 0 {
        lemma_first_member_error(items, (n - 1) as nat);
    }
}

proof fn lemma_first_member_error_kept<A, L, P, R>(
    items: Seq<Member<A, L, P, R>>,
    k: nat,
    n: nat,
)
    requires
        k <= n,
        first_member_error(items, k) is Some,
    ensures
        first_member_error(items, n) == first_member_error(items, k),
    decreases n - k,
{
    if n > k {
        lemma_first_member_error_kept(items, k, (n - 1) as nat);
    }
}

/// Rewrites an implicit `self` into an explicit one of the wrapper type.
pub fn rewrite_receiver<A, L>(r: Receiver<A, L>) -> (t: TypedSelf<A, L>)
    ensures
        t == rewritten_receiver(r),
        r.reference is None ==> t.ty is Value && t.mutability == r.mutability,
        r.reference is Some ==> !t.mutability && t.ty == (SelfTy::Ref {
            lifetime: r.reference.unwrap(),
            mutable: r.mutability,
        }),
        t.attrs == r.attrs,
{
    let Receiver { attrs, reference, mutability } = r;
    match reference {
        None => TypedSelf { attrs, mutability, ty: SelfTy::Value },
        Some(lifetime) => TypedSelf {
            attrs,
            mutability: false,
            ty: SelfTy::Ref { lifetime, mutable: mutability },
        },
    }
}

fn rewrite_param<A, L, P>(p: FnParam<A, L, P>) -> (q: FnParam<A, L, P>)
    ensures
        q == rewritten_param(p),
{
    match p {
        FnParam::Receiver(r) => FnParam::TypedSelf(rewrite_receiver(r)),
        _ => p,
    }
}

/// Rewrites the method at position `index` of its block.
fn rewrite_method<A, L, P, R>(m: Method<A, L, P, R>, index: usize) -> (r: Result<
    Method<A, L, P, R>,
    RewriteError,
>)
    ensures
        match r {
            Ok(out) => member_error(Member::Method(m), index as int) is None && rewrites_method(
                m,
                out,
            ),
            Err(e) => member_error(Member::Method(m), index as int) == Some(e),
        },
{
    let mut m = m;
    let ghost before = m;
    match m.inputs.first_mut() {
        None => Err(RewriteError::StaticMethodUnsupported { index }),
        Some(slot) => {
            if !matches!(slot, FnParam::Receiver(_)) {
                return Err(RewriteError::NonStaticReceiverRequired { index });
            }
            take_mut::take(slot, rewrite_param::<A, L, P>);
            assert(m.inputs@ == before.inputs@.update(0, rewritten_param(before.inputs@[0])));
            Ok(m)
        },
    }
}

fn has_unsupported_generics(generics: &Vec<GenericParam>) -> (r: bool)
    ensures
        r == has_type_or_lifetime(generics@),
{
    let mut i: usize = 0;
    while i < generics.len()
        invariant
            i <= generics@.len(),
            forall|j: int|
                0 <= j < i ==> generics@[j] != GenericParam::Type && generics@[j]
                    != GenericParam::Lifetime,
        decreases generics@.len() - i,
    {
        if generics[i] == GenericParam::Type || generics[i] == GenericParam::Lifetime {
            return true;
        }
        i += 1;
    }
    false
}

/// Turns `impl Wrapper<Type> { fn f(&self) ... }` into
/// `impl Type { fn f(self: &Wrapper<Type>) ... }`.
///
/// `_args` is the argument written with the attribute (the wrapped type's
/// name, if given); it is accepted and not consulted: the name is read from
/// the self type. On success every method keeps its place, its signature,
/// body and later parameters, and its first parameter is rewritten by
/// [`rewrite_receiver`]. The first problem found, in the order generics,
/// trait, self type, members, is reported and nothing is produced.
pub fn use_ast<A, L, P, R>(_args: &Vec<Tok>, input: ImplBlock<A, L, P, R>) -> (r: Result<
    RewrittenImpl<A, L, P, R>,
    RewriteError,
>)
    ensures
        r is Err <==> block_error(input) is Some,
        r is Err ==> block_error(input) == Some(r->Err_0),
        r is Ok ==> {
            let out = r->Ok_0;
            &&& out.attrs == input.attrs
            &&& out.self_ty@ == wrapped_name(input.self_ty@).unwrap()
            &&& out.wrapper_ty@ == input.self_ty@
            &&& out.items@.len() == input.items@.len()
            &&& forall|i: int|
                0 <= i < input.items@.len() ==> #[trigger] input.items@[i] is Method
                    && rewrites_method(input.items@[i]->Method_0, out.items@[i])
        },
        has_type_or_lifetime(input.generics@) ==> r == Err::<RewrittenImpl<A, L, P, R>, _>(
            RewriteError::UnsupportedGenerics,
        ),
        input.is_trait_impl ==> r is Err,
        wrapped_name(input.self_ty@) is None ==> r is Err,
        forall|i: int|
            0 <= i < input.items@.len() && !(#[trigger] input.items@[i] is Method) ==> r is Err,
        forall|i: int|
            0 <= i < input.items@.len() && #[trigger] input.items@[i] is Method && (
            input.items@[i]->Method_0.inputs@.len() == 0 || !(
            input.items@[i]->Method_0.inputs@[0] is Receiver)) ==> r is Err,
        r matches Err(RewriteError::UnsupportedMember { index }) ==> index < input.items@.len()
            && input.items@[index as int] is Other,
        r matches Err(RewriteError::StaticMethodUnsupported { index }) ==> index
            < input.items@.len() && input.items@[index as int] is Method
            && input.items@[index as int]->Method_0.inputs@.len() == 0,
        r matches Err(RewriteError::NonStaticReceiverRequired { index }) ==> index
            < input.items@.len() && input.items@[index as int] is Method
            && input.items@[index as int]->Method_0.inputs@.len() > 0 && !(
            input.items@[index as int]->Method_0.inputs@[0] is Receiver),
{
    let ghost items0 = input.items@;
    proof {
        lemma_first_member_error(items0, items0.len());
    }
    if has_unsupported_generics(&input.generics) {
        return Err(RewriteError::UnsupportedGenerics);
    }
    if input.is_trait_impl {
        return Err(RewriteError::NotInherentImpl);
    }
    let self_ty = match parse_wrapped(&input.self_ty) {
        Some(name) => name,
        None => return Err(RewriteError::MalformedSelfType),
    };
    let ImplBlock { attrs, generics: _, is_trait_impl: _, self_ty: wrapper_ty, items } = input;
    let mut rest = items;
    let mut out: Vec<Method<A, L, P, R>> = Vec::new();
    let n = rest.len();
    let mut i: usize = 0;
    while i < n
        invariant
            items0 == input.items@,
            !has_type_or_lifetime(input.generics@),
            !input.is_trait_impl,
            wrapped_name(input.self_ty@) is Some,
            n == items0.len(),
            i <= n,
            rest@ == items0.subrange(i as int, n as int),
            out@.len() == i,
            first_member_error(items0, i as nat) is None,
            forall|j: int|
                0 <= j < i ==> #[trigger] items0[j] is Method && rewrites_method(
                    items0[j]->Method_0,
                    out@[j],
                ),
        decreases n - i,
    {
        let item = rest.remove(0);
        assert(item == items0[i as int]);
        match item {
            Member::Other => {
                proof {
                    assert(first_member_error(items0, (i + 1) as nat) == member_error(
                        items0[i as int],
                        i as int,
                    ));
                    lemma_first_member_error_kept(items0, (i + 1) as nat, n as nat);
                }
                return Err(RewriteError::UnsupportedMember { index: i });
            },
            Member::Method(m) => {
                match rewrite_method(m, i) {
                    Ok(rewritten) => {
                        out.push(rewritten);
                    },
                    Err(e) => {
                        proof {
                            lemma_first_member_error_kept(items0, (i + 1) as nat, n as nat);
                        }
                        return Err(e);
                    },
                }
            },
        }
        i += 1;
    }
    proof {
        lemma_first_member_error(items0, n as nat);
        assert forall|j: int| 0 <= j < n implies !(#[trigger] items0[j] is Method && (
        items0[j]->Method_0.inputs@.len() == 0 || !(items0[j]->Method_0.inputs@[0] is Receiver))) by {
            assert(member_error(items0[j], j) is None);
        }
    }
    Ok(RewrittenImpl { attrs, self_ty, wrapper_ty, items: out })
}

} // verus!
