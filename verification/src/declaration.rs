//! A trait declaration as the generator reads it: names, generic parameters
//! and method signatures, each piece of syntax held as its token text.

use vstd::prelude::*;

verus! {

/// The texts of `texts`, first to last.
pub open spec fn texts_of(texts: Seq<String>) -> Seq<Seq<char>> {
    texts.map_values(|t: String| t@)
}

/// The text of `text`, if there is one.
pub open spec fn text_of(text: Option<String>) -> Option<Seq<char>> {
    match text {
        Some(t) => Some(t@),
        None => None,
    }
}

/// A lifetime parameter with its attributes and bounds, such as `'a: 'b`.
#[derive(Debug, PartialEq, Eq)]
pub struct LifetimeParam {
    pub attrs: Vec<String>,
    pub lifetime: String,
    pub bounds: Vec<String>,
}

/// A type parameter with its attributes, bounds and default, such as
/// `T: Send = u8`.
#[derive(Debug, PartialEq, Eq)]
pub struct TypeParam {
    pub attrs: Vec<String>,
    pub ident: String,
    pub bounds: Vec<String>,
    pub default: Option<String>,
}

/// A const parameter with its attributes, type and default, such as
/// `const N: usize = 4`.
#[derive(Debug, PartialEq, Eq)]
pub struct ConstParam {
    pub attrs: Vec<String>,
    pub ident: String,
    pub ty: String,
    pub default: Option<String>,
}

/// One generic parameter of a declaration.
#[derive(Debug, PartialEq, Eq)]
pub enum GenericParam {
    Lifetime(LifetimeParam),
    Type(TypeParam),
    Const(ConstParam),
}

/// The generic parameters of a declaration and its `where` clause.
#[derive(Debug, PartialEq, Eq)]
pub struct Generics {
    pub params: Vec<GenericParam>,
    pub where_clause: Option<String>,
}

/// A lifetime parameter as texts.
pub struct LifetimeParamView {
    pub attrs: Seq<Seq<char>>,
    pub lifetime: Seq<char>,
    pub bounds: Seq<Seq<char>>,
}

/// A type parameter as texts.
pub struct TypeParamView {
    pub attrs: Seq<Seq<char>>,
    pub ident: Seq<char>,
    pub bounds: Seq<Seq<char>>,
    pub default: Option<Seq<char>>,
}

/// A const parameter as texts.
pub struct ConstParamView {
    pub attrs: Seq<Seq<char>>,
    pub ident: Seq<char>,
    pub ty: Seq<char>,
    pub default: Option<Seq<char>>,
}

/// A generic parameter as texts.
pub enum GenericParamView {
    Lifetime(LifetimeParamView),
    Type(TypeParamView),
    Const(ConstParamView),
}

/// Generic parameters and a `where` clause as texts.
pub struct GenericsView {
    pub params: Seq<GenericParamView>,
    pub where_clause: Option<Seq<char>>,
}

impl View for LifetimeParam {
    type V = LifetimeParamView;

    open spec fn view(&self) -> LifetimeParamView {
        LifetimeParamView {
            attrs: texts_of(self.attrs@),
            lifetime: self.lifetime@,
            bounds: texts_of(self.bounds@),
        }
    }
}

impl View for TypeParam {
    type V = TypeParamView;

    open spec fn view(&self) -> TypeParamView {
        TypeParamView {
            attrs: texts_of(self.attrs@),
            ident: self.ident@,
            bounds: texts_of(self.bounds@),
            default: text_of(self.default),
        }
    }
}

impl View for ConstParam {
    type V = ConstParamView;

    open spec fn view(&self) -> ConstParamView {
        ConstParamView {
            attrs: texts_of(self.attrs@),
            ident: self.ident@,
            ty: self.ty@,
            default: text_of(self.default),
        }
    }
}

impl View for GenericParam {
    type V = GenericParamView;

    open spec fn view(&self) -> GenericParamView {
        match self {
            GenericParam::Lifetime(p) => GenericParamView::Lifetime(p@),
            GenericParam::Type(p) => GenericParamView::Type(p@),
            GenericParam::Const(p) => GenericParamView::Const(p@),
        }
    }
}

impl View for Generics {
    type V = GenericsView;

    open spec fn view(&self) -> GenericsView {
        GenericsView {
            params: self.params@.map_values(|p: GenericParam| p@),
            where_clause: text_of(self.where_clause),
        }
    }
}

/// What a method returns: nothing written, or a type.
#[derive(Debug, PartialEq, Eq)]
pub enum ReturnType {
    Default,
    Type(String),
}

/// One parameter of a method: the receiver, or a pattern with a type, of
/// which the pattern is held.
#[derive(Debug, PartialEq, Eq)]
pub enum FnArg {
    Receiver,
    Typed(String),
}

/// The signature of a method, as far as the generator reads it.
#[derive(Debug, PartialEq, Eq)]
pub struct Signature {
    pub asyncness: bool,
    pub ident: String,
    pub inputs: Vec<FnArg>,
    pub output: ReturnType,
}

/// One item of a trait's body: a method, or anything else.
#[derive(Debug, PartialEq, Eq)]
pub enum TraitItem {
    Fn(Signature),
    Other,
}

/// A trait declaration.
#[derive(Debug, PartialEq, Eq)]
pub struct ItemTrait {
    pub ident: String,
    pub generics: Generics,
    pub items: Vec<TraitItem>,
}

/// A signature as texts: a parameter is its pattern, or nothing for the
/// receiver; the return type is its text, or nothing where none is written.
pub struct SignatureView {
    pub asyncness: bool,
    pub ident: Seq<char>,
    pub inputs: Seq<Option<Seq<char>>>,
    pub output: Option<Seq<char>>,
}

/// A trait declaration as texts: an item is its signature, or nothing where
/// it is no method.
pub struct ItemTraitView {
    pub ident: Seq<char>,
    pub generics: GenericsView,
    pub items: Seq<Option<SignatureView>>,
}

impl View for ReturnType {
    type V = Option<Seq<char>>;

    open spec fn view(&self) -> Option<Seq<char>> {
        match self {
            ReturnType::Default => None,
            ReturnType::Type(ty) => Some(ty@),
        }
    }
}

impl View for FnArg {
    type V = Option<Seq<char>>;

    open spec fn view(&self) -> Option<Seq<char>> {
        match self {
            FnArg::Receiver => None,
            FnArg::Typed(pat) => Some(pat@),
        }
    }
}

impl View for Signature {
    type V = SignatureView;

    open spec fn view(&self) -> SignatureView {
        SignatureView {
            asyncness: self.asyncness,
            ident: self.ident@,
            inputs: self.inputs@.map_values(|a: FnArg| a@),
            output: self.output@,
        }
    }
}

impl View for TraitItem {
    type V = Option<SignatureView>;

    open spec fn view(&self) -> Option<SignatureView> {
        match self {
            TraitItem::Fn(sig) => Some(sig@),
            TraitItem::Other => None,
        }
    }
}

impl View for ItemTrait {
    type V = ItemTraitView;

    open spec fn view(&self) -> ItemTraitView {
        ItemTraitView {
            ident: self.ident@,
            generics: self.generics@,
            items: self.items@.map_values(|i: TraitItem| i@),
        }
    }
}

} // verus!
