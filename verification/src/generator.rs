//! What the emitter of a trait looks like: its name, the generic arguments
//! it is applied to, and one dispatch method for each method of the trait.

use crate::declaration::texts_of;
use crate::declaration::ConstParam;
use crate::declaration::ConstParamView;
use crate::declaration::FnArg;
use crate::declaration::GenericParam;
use crate::declaration::GenericParamView;
use crate::declaration::Generics;
use crate::declaration::GenericsView;
use crate::declaration::ItemTrait;
use crate::declaration::ItemTraitView;
use crate::declaration::LifetimeParam;
use crate::declaration::ReturnType;
use crate::declaration::Signature;
use crate::declaration::SignatureView;
use crate::declaration::TraitItem;
use crate::declaration::TypeParam;
use crate::declaration::TypeParamView;
use crate::sequences::lemma_filter_push;
use crate::text::contains;
use crate::text::joined;
use crate::text::occurs_in;
use vstd::prelude::*;
use vstd::string::StringExecFns;

verus! {

/// One dispatch method of an emitter: the name of the trait's method, whether
/// it awaits its listeners, and the patterns whose values it hands on.
#[derive(Debug, PartialEq, Eq)]
pub struct Dispatch {
    pub ident: String,
    pub is_async: bool,
    pub arguments: Vec<String>,
}

/// The emitter of a trait: its name, the generic arguments that it and the
/// trait are applied to, and its dispatch methods.
#[derive(Debug, PartialEq, Eq)]
pub struct EmitterDef {
    pub name: String,
    pub generic_input: Generics,
    pub methods: Vec<Dispatch>,
}

/// A dispatch method as texts.
pub struct DispatchView {
    pub ident: Seq<char>,
    pub is_async: bool,
    pub arguments: Seq<Seq<char>>,
}

/// An emitter as texts.
pub struct EmitterDefView {
    pub name: Seq<char>,
    pub generic_input: GenericsView,
    pub methods: Seq<DispatchView>,
}

impl View for Dispatch {
    type V = DispatchView;

    open spec fn view(&self) -> DispatchView {
        DispatchView {
            ident: self.ident@,
            is_async: self.is_async,
            arguments: texts_of(self.arguments@),
        }
    }
}

impl View for EmitterDef {
    type V = EmitterDefView;

    open spec fn view(&self) -> EmitterDefView {
        EmitterDefView {
            name: self.name@,
            generic_input: self.generic_input@,
            methods: self.methods@.map_values(|d: Dispatch| d@),
        }
    }
}

/// The name of a trait's emitter: the name asked for, or without one the
/// trait's name followed by `Emitter`.
pub open spec fn emitter_name_of(trait_name: Seq<char>, asked: Option<Seq<char>>) -> Seq<char> {
    match asked {
        Some(name) => name,
        None => trait_name + "Emitter"@,
    }
}

/// Whether a return type is a future by its text: it names `Future` by its
/// path in `core` or in `std`, tokens one blank apart.
pub open spec fn returns_future(output: Option<Seq<char>>) -> bool {
    match output {
        Some(ty) => occurs_in(ty, "core :: future :: Future"@) || occurs_in(
            ty,
            "std :: future :: Future"@,
        ),
        None => false,
    }
}

/// The test that a parameter passes when it is no receiver.
pub open spec fn is_typed() -> spec_fn(Option<Seq<char>>) -> bool {
    |arg: Option<Seq<char>>| arg is Some
}

/// The patterns of the parameters that are no receiver, in their order.
pub open spec fn forwarded(inputs: Seq<Option<Seq<char>>>) -> Seq<Seq<char>> {
    inputs.filter(is_typed()).map_values(|arg: Option<Seq<char>>| arg->0)
}

/// The dispatch method for a method of the trait: it has the method's name
/// and hands on every parameter but the receiver; it awaits its listeners
/// if the method is declared `async` or returns a future.
pub open spec fn dispatch_of(sig: SignatureView) -> DispatchView {
    DispatchView {
        ident: sig.ident,
        is_async: sig.asyncness || returns_future(sig.output),
        arguments: forwarded(sig.inputs),
    }
}

/// The test that an item passes when it is a method.
pub open spec fn is_method() -> spec_fn(Option<SignatureView>) -> bool {
    |item: Option<SignatureView>| item is Some
}

/// The dispatch methods for a trait's items: one for each method, in the
/// order of the methods; other items give none.
pub open spec fn dispatches_of(items: Seq<Option<SignatureView>>) -> Seq<DispatchView> {
    items.filter(is_method()).map_values(|item: Option<SignatureView>| dispatch_of(item->0))
}

/// A generic parameter as an emitter names it: a lifetime as it is declared;
/// a type by its name alone, without attributes, bounds or default; a const
/// by its name and type, without attributes or default.
pub open spec fn stripped(param: GenericParamView) -> GenericParamView {
    match param {
        GenericParamView::Lifetime(p) => param,
        GenericParamView::Type(p) => GenericParamView::Type(
            TypeParamView {
                attrs: Seq::empty(),
                ident: p.ident,
                bounds: Seq::empty(),
                default: None,
            },
        ),
        GenericParamView::Const(p) => GenericParamView::Const(
            ConstParamView { attrs: Seq::empty(), ident: p.ident, ty: p.ty, default: None },
        ),
    }
}

/// The generics of a declaration with every parameter stripped; the `where`
/// clause stays.
pub open spec fn generic_input_of(generics: GenericsView) -> GenericsView {
    GenericsView {
        params: generics.params.map_values(|p: GenericParamView| stripped(p)),
        where_clause: generics.where_clause,
    }
}

/// The emitter of a trait declaration.
pub open spec fn emitter_def_of(input: ItemTraitView, asked: Option<Seq<char>>) -> EmitterDefView {
    EmitterDefView {
        name: emitter_name_of(input.ident, asked),
        generic_input: generic_input_of(input.generics),
        methods: dispatches_of(input.items),
    }
}

/// The name of the emitter of the trait `trait_name`, where `asked` is the
/// name that the declaration asks for, if it does.
pub fn emitter_name(trait_name: &str, asked: Option<&str>) -> (name: String)
    ensures
        name@ == emitter_name_of(
            trait_name@,
            match asked {
                Some(n) => Some(n@),
                None => None,
            },
        ),
{
    match asked {
        Some(n) => String::from_str(n),
        None => joined(trait_name, "Emitter"),
    }
}

/// Whether a method with the return type `output` returns a future.
pub fn is_async_trait(output: &ReturnType) -> (found: bool)
    ensures
        found == returns_future(output@),
{
    match output {
        ReturnType::Type(ty) => contains(ty.as_str(), "core :: future :: Future") || contains(
            ty.as_str(),
            "std :: future :: Future",
        ),
        ReturnType::Default => false,
    }
}

/// A copy of `texts`.
fn copied(texts: &Vec<String>) -> (copy: Vec<String>)
    ensures
        texts_of(copy@) == texts_of(texts@),
{
    let mut copy: Vec<String> = Vec::new();
    let mut i: usize = 0;
    while i < texts.len()
        invariant
            i <= texts.len(),
            copy@.len() == i,
            forall|j: int| 0 <= j < i ==> copy@[j]@ == texts@[j]@,
        decreases texts.len() - i,
    {
        copy.push(texts[i].clone());
        i += 1;
    }
    assert(texts_of(copy@) =~= texts_of(texts@));
    copy
}

/// The patterns that the dispatch method for a method with the parameters
/// `inputs` hands on.
fn forwarded_patterns(inputs: &Vec<FnArg>) -> (patterns: Vec<String>)
    ensures
        texts_of(patterns@) == forwarded(inputs@.map_values(|a: FnArg| a@)),
{
    let ghost args = inputs@.map_values(|a: FnArg| a@);
    let mut patterns: Vec<String> = Vec::new();
    let mut i: usize = 0;
    while i < inputs.len()
        invariant
            i <= inputs.len(),
            args == inputs@.map_values(|a: FnArg| a@),
            texts_of(patterns@) == forwarded(args.take(i as int)),
        decreases inputs.len() - i,
    {
        proof {
            assert(args.take(i + 1) =~= args.take(i as int).push(args[i as int]));
            lemma_filter_push(args.take(i as int), args[i as int], is_typed());
        }
        match &inputs[i] {
            FnArg::Typed(pat) => {
                let ghost kept = args.take(i as int).filter(is_typed());
                patterns.push(pat.clone());
                proof {
                    let pattern_of = |arg: Option<Seq<char>>| arg->0;
                    assert(args[i as int] == Some(pat@));
                    assert(args.take(i + 1).filter(is_typed()) == kept.push(args[i as int]));
                    assert(kept.push(args[i as int]).map_values(pattern_of) =~= kept.map_values(
                        pattern_of,
                    ).push(pat@));
                    assert(texts_of(patterns@) =~= forwarded(args.take(i + 1)));
                }
            },
            FnArg::Receiver => {},
        }
        i += 1;
    }
    assert(args.take(i as int) =~= args);
    patterns
}

/// The dispatch method for the method with the signature `sig`.
pub fn generate_dispatch(sig: &Signature) -> (dispatch: Dispatch)
    ensures
        dispatch@ == dispatch_of(sig@),
{
    Dispatch {
        ident: sig.ident.clone(),
        is_async: sig.asyncness || is_async_trait(&sig.output),
        arguments: forwarded_patterns(&sig.inputs),
    }
}

/// The dispatch methods of the emitter of a trait with the items
/// `trait_items`: one for each method, in the order of the methods.
pub fn generate_emitter_impl(trait_items: &Vec<TraitItem>) -> (impl_items: Vec<Dispatch>)
    ensures
        impl_items@.map_values(|d: Dispatch| d@) == dispatches_of(
            trait_items@.map_values(|i: TraitItem| i@),
        ),
{
    let ghost items = trait_items@.map_values(|i: TraitItem| i@);
    let mut impl_items: Vec<Dispatch> = Vec::new();
    let mut i: usize = 0;
    while i < trait_items.len()
        invariant
            i <= trait_items.len(),
            items == trait_items@.map_values(|i: TraitItem| i@),
            impl_items@.map_values(|d: Dispatch| d@) == dispatches_of(items.take(i as int)),
        decreases trait_items.len() - i,
    {
        proof {
            assert(items.take(i + 1) =~= items.take(i as int).push(items[i as int]));
            lemma_filter_push(items.take(i as int), items[i as int], is_method());
        }
        match &trait_items[i] {
            TraitItem::Fn(sig) => {
                let ghost kept = items.take(i as int).filter(is_method());
                impl_items.push(generate_dispatch(sig));
                proof {
                    let dispatch_for = |item: Option<SignatureView>| dispatch_of(item->0);
                    assert(items[i as int] == Some(sig@));
                    assert(items.take(i + 1).filter(is_method()) == kept.push(items[i as int]));
                    assert(kept.push(items[i as int]).map_values(dispatch_for) =~= kept.map_values(
                        dispatch_for,
                    ).push(dispatch_of(sig@)));
                    assert(impl_items@.map_values(|d: Dispatch| d@) =~= dispatches_of(
                        items.take(i + 1),
                    ));
                }
            },
            TraitItem::Other => {},
        }
        i += 1;
    }
    assert(items.take(i as int) =~= items);
    impl_items
}

/// The generic parameter `param` as an emitter names it.
pub fn strip_param(param: &GenericParam) -> (out: GenericParam)
    ensures
        out@ == stripped(param@),
{
    match param {
        GenericParam::Lifetime(p) => GenericParam::Lifetime(
            LifetimeParam {
                attrs: copied(&p.attrs),
                lifetime: p.lifetime.clone(),
                bounds: copied(&p.bounds),
            },
        ),
        GenericParam::Type(p) => {
            let out = GenericParam::Type(
                TypeParam {
                    attrs: Vec::new(),
                    ident: p.ident.clone(),
                    bounds: Vec::new(),
                    default: None,
                },
            );
            assert(out@->Type_0.attrs =~= Seq::empty());
            assert(out@->Type_0.bounds =~= Seq::empty());
            out
        },
        GenericParam::Const(p) => {
            let out = GenericParam::Const(
                ConstParam {
                    attrs: Vec::new(),
                    ident: p.ident.clone(),
                    ty: p.ty.clone(),
                    default: None,
                },
            );
            assert(out@->Const_0.attrs =~= Seq::empty());
            out
        },
    }
}

/// The generics that an emitter and its trait are applied to: those of the
/// declaration, each parameter stripped, with the `where` clause as it is.
pub fn generate_generic_input(generics: &Generics) -> (gen_generics: Generics)
    ensures
        gen_generics@ == generic_input_of(generics@),
{
    let mut params: Vec<GenericParam> = Vec::new();
    let mut i: usize = 0;
    while i < generics.params.len()
        invariant
            i <= generics.params.len(),
            params@.len() == i,
            forall|j: int| 0 <= j < i ==> params@[j]@ == stripped(generics.params@[j]@),
        decreases generics.params.len() - i,
    {
        params.push(strip_param(&generics.params[i]));
        i += 1;
    }
    let where_clause = match &generics.where_clause {
        Some(clause) => Some(clause.clone()),
        None => None,
    };
    let gen_generics = Generics { params, where_clause };
    assert(gen_generics@.params =~= generic_input_of(generics@).params);
    gen_generics
}

/// The emitter of the trait declaration `input`, under the name `asked` if
/// the declaration asks for one.
pub fn generate_emitter_def(input: &ItemTrait, asked: Option<&str>) -> (def: EmitterDef)
    ensures
        def@ == emitter_def_of(
            input@,
            match asked {
                Some(n) => Some(n@),
                None => None,
            },
        ),
{
    EmitterDef {
        name: emitter_name(input.ident.as_str(), asked),
        generic_input: generate_generic_input(&input.generics),
        methods: generate_emitter_impl(&input.items),
    }
}

} // verus!
