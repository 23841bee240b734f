use arbitrary_wrappers::{
    use_ast, FnParam, GenericParam, ImplBlock, Member, Method, Receiver,
    RewriteError, RewrittenImpl, SelfTy, Tok, TypedSelf,
};

type Attrs = Vec<&'static str>;
type Param = FnParam<Attrs, &'static str, &'static str>;
type Block = ImplBlock<Attrs, &'static str, &'static str, &'static str>;
type Output = RewrittenImpl<Attrs, &'static str, &'static str, &'static str>;

fn ident(s: &str) -> Tok {
    Tok::Ident(s.to_string())
}

fn wrapper_of(wrapper: &str, inner: &str) -> Vec<Tok> {
    vec![ident(wrapper), Tok::Punct('<'), ident(inner), Tok::Punct('>')]
}

fn by_value(mutability: bool) -> Param {
    FnParam::Receiver(Receiver { attrs: vec![], reference: None, mutability })
}

fn by_ref(lifetime: Option<&'static str>, mutability: bool) -> Param {
    FnParam::Receiver(Receiver { attrs: vec![], reference: Some(lifetime), mutability })
}

fn method(sig: &'static str, inputs: Vec<Param>) -> Member<Attrs, &'static str, &'static str, &'static str> {
    Member::Method(Method { sig, inputs })
}

fn block(generics: Vec<GenericParam>, is_trait_impl: bool, self_ty: Vec<Tok>,
         items: Vec<Member<Attrs, &'static str, &'static str, &'static str>>) -> Block {
    ImplBlock { attrs: vec!["#[doc = \"block\"]"], generics, is_trait_impl, self_ty, items }
}

fn rewrite(b: Block) -> Result<Output, RewriteError> {
    use_ast(&vec![], b)
}

fn typed_self(p: &Param) -> &TypedSelf<Attrs, &'static str> {
    match p {
        FnParam::TypedSelf(t) => t,
        _ => panic!("first parameter was not rewritten"),
    }
}

fn is_by_value(t: &TypedSelf<Attrs, &'static str>) -> bool {
    matches!(t.ty, SelfTy::Value)
}

fn ref_parts(t: &TypedSelf<Attrs, &'static str>) -> Option<(Option<&'static str>, bool)> {
    match &t.ty {
        SelfTy::Ref { lifetime, mutable } => Some((*lifetime, *mutable)),
        SelfTy::Value => None,
    }
}

#[test]
fn ui() {
    // a method without parameters
    let static_method = block(
        vec![],
        false,
        wrapper_of("Wrapper", "Type"),
        vec![method("fn method() -> i32 { 0 }", vec![])],
    );
    assert_eq!(
        rewrite(static_method).err(),
        Some(RewriteError::StaticMethodUnsupported { index: 0 })
    );

    // a constant among the methods
    let unexpected_item = block(
        vec![],
        false,
        wrapper_of("Wrapper", "Type"),
        vec![Member::Other, method("fn method(self) -> i32 { self.0 }", vec![by_value(false)])],
    );
    assert_eq!(
        rewrite(unexpected_item).err(),
        Some(RewriteError::UnsupportedMember { index: 0 })
    );

    // `impl<U> Wrapper<Type, U>`
    let generics = block(
        vec![GenericParam::Type],
        false,
        vec![ident("Wrapper"), Tok::Punct('<'), ident("Type"), Tok::Punct(','), ident("U"), Tok::Punct('>')],
        vec![method("fn method(self) -> U { self.1 }", vec![by_value(false)])],
    );
    assert_eq!(rewrite(generics).err(), Some(RewriteError::UnsupportedGenerics));
}

#[test]
fn it_works() {
    let b = block(
        vec![],
        false,
        wrapper_of("Wrapper", "Type"),
        vec![
            method("fn method() -> i32 { self.0 }", vec![by_value(false)]),
            method("fn mut_() {}", vec![by_ref(None, true)]),
            method("fn ref_() {}", vec![by_ref(None, false)]),
        ],
    );
    let out = rewrite(b).ok().unwrap();
    assert_eq!(out.self_ty, "Type");
    assert_eq!(out.attrs, vec!["#[doc = \"block\"]"]);
    assert_eq!(format!("{:?}", out.wrapper_ty), format!("{:?}", wrapper_of("Wrapper", "Type")));
    assert_eq!(out.items.len(), 3);
    let sigs: Vec<&str> = out.items.iter().map(|m| m.sig).collect();
    assert_eq!(sigs, vec!["fn method() -> i32 { self.0 }", "fn mut_() {}", "fn ref_() {}"]);
    for m in &out.items {
        assert_eq!(m.inputs.len(), 1);
        assert!(!typed_self(&m.inputs[0]).mutability);
    }
    assert!(is_by_value(typed_self(&out.items[0].inputs[0])));
    assert_eq!(ref_parts(typed_self(&out.items[1].inputs[0])), Some((None, true)));
    assert_eq!(ref_parts(typed_self(&out.items[2].inputs[0])), Some((None, false)));
}
