//! The shape of an annotated union declaration, as plain values.
//!
//! A declaration arrives from the host's syntax layer already broken into
//! names and type texts; everything the generator reads is held here, so the
//! analysis and the synthesis can be stated over sequences of characters.

use vstd::prelude::*;

verus! {

/// The payload of one variant, as the declaration shows it: no payload,
/// an ordered tuple of payload type texts, or named fields (an unsupported
/// shape that generation rejects).
pub enum PayloadShape {
    Unit,
    Tuple(Vec<String>),
    Named,
}

/// Mathematical form of [`PayloadShape`].
pub enum ShapeView {
    Unit,
    Tuple(Seq<Seq<char>>),
    Named,
}

impl View for PayloadShape {
    type V = ShapeView;

    open spec fn view(&self) -> ShapeView {
        match self {
            PayloadShape::Unit => ShapeView::Unit,
            PayloadShape::Tuple(ts) => ShapeView::Tuple(ts.deep_view()),
            PayloadShape::Named => ShapeView::Named,
        }
    }
}

/// One variant of the union, before validation: its name, an optional
/// explicit builder-method name, and its payload shape.
pub struct RawVariant {
    pub name: String,
    pub builder_override: Option<String>,
    pub shape: PayloadShape,
}

/// Mathematical form of [`RawVariant`].
pub struct RawVariantView {
    pub name: Seq<char>,
    pub builder_override: Option<Seq<char>>,
    pub shape: ShapeView,
}

impl View for RawVariant {
    type V = RawVariantView;

    open spec fn view(&self) -> RawVariantView {
        RawVariantView {
            name: self.name@,
            builder_override: match self.builder_override {
                Option::Some(s) => Option::Some(s@),
                Option::None => Option::None,
            },
            shape: self.shape@,
        }
    }
}

/// The whole annotated union declaration, before validation.
pub struct RawDecl {
    pub visibility: String,
    pub name: String,
    pub matcher_override: Option<String>,
    pub has_generics: bool,
    pub variants: Vec<RawVariant>,
}

/// Mathematical form of [`RawDecl`].
pub struct RawDeclView {
    pub visibility: Seq<char>,
    pub name: Seq<char>,
    pub matcher_override: Option<Seq<char>>,
    pub has_generics: bool,
    pub variants: Seq<RawVariantView>,
}

impl View for RawDecl {
    type V = RawDeclView;

    open spec fn view(&self) -> RawDeclView {
        RawDeclView {
            visibility: self.visibility@,
            name: self.name@,
            matcher_override: match self.matcher_override {
                Option::Some(s) => Option::Some(s@),
                Option::None => Option::None,
            },
            has_generics: self.has_generics,
            variants: raw_variant_views(self.variants@),
        }
    }
}

/// A validated payload: named fields can no longer occur.
#[derive(Debug)]
pub enum Payload {
    Unit,
    Tuple(Vec<String>),
}

/// Mathematical form of [`Payload`].
pub enum PayloadView {
    Unit,
    Tuple(Seq<Seq<char>>),
}

impl View for Payload {
    type V = PayloadView;

    open spec fn view(&self) -> PayloadView {
        match self {
            Payload::Unit => PayloadView::Unit,
            Payload::Tuple(ts) => PayloadView::Tuple(ts.deep_view()),
        }
    }
}

/// A validated variant: its name, the resolved builder-method name, and its
/// payload.
#[derive(Debug)]
pub struct Variant {
    pub name: String,
    pub builder_name: String,
    pub payload: Payload,
}

/// Mathematical form of [`Variant`].
pub struct VariantView {
    pub name: Seq<char>,
    pub builder_name: Seq<char>,
    pub payload: PayloadView,
}

impl View for Variant {
    type V = VariantView;

    open spec fn view(&self) -> VariantView {
        VariantView { name: self.name@, builder_name: self.builder_name@, payload: self.payload@ }
    }
}

/// A validated declaration: everything synthesis needs, with every name
/// resolved.
#[derive(Debug)]
pub struct Decl {
    pub visibility: String,
    pub enum_name: String,
    pub matcher_name: String,
    pub variants: Vec<Variant>,
}

/// Mathematical form of [`Decl`].
pub struct DeclView {
    pub visibility: Seq<char>,
    pub enum_name: Seq<char>,
    pub matcher_name: Seq<char>,
    pub variants: Seq<VariantView>,
}

impl View for Decl {
    type V = DeclView;

    open spec fn view(&self) -> DeclView {
        DeclView {
            visibility: self.visibility@,
            enum_name: self.enum_name@,
            matcher_name: self.matcher_name@,
            variants: variant_views(self.variants@),
        }
    }
}

/// The views of a sequence of raw variants.
pub open spec fn raw_variant_views(vs: Seq<RawVariant>) -> Seq<RawVariantView> {
    vs.map_values(|v: RawVariant| v@)
}

/// The views of a sequence of validated variants.
pub open spec fn variant_views(vs: Seq<Variant>) -> Seq<VariantView> {
    vs.map_values(|v: Variant| v@)
}

/// True of the characters that may open an identifier.
pub open spec fn spec_is_ident_start(c: char) -> bool {
    ('a' <= c && c <= 'z') || ('A' <= c && c <= 'Z') || c == '_'
}

/// True of the characters that may continue an identifier.
pub open spec fn spec_is_ident_char(c: char) -> bool {
    spec_is_ident_start(c) || ('0' <= c && c <= '9')
}

/// A usable identifier: non-empty, an identifier head followed by identifier
/// characters, and not the lone underscore.
pub open spec fn spec_is_ident(s: Seq<char>) -> bool {
    &&& 0 < s.len()
    &&& spec_is_ident_start(s[0])
    &&& (forall|i: int| 1 <= i < s.len() ==> spec_is_ident_char(#[trigger] s[i]))
    &&& !(s.len() == 1 && s[0] == '_')
}

/// Decides [`spec_is_ident`] on a string slice.
pub fn is_ident(s: &str) -> (r: bool)
    ensures
        r == spec_is_ident(s@),
{
    let n = s.unicode_len();
    if n == 0 {
        return false;
    }
    let c0 = s.get_char(0);
    if !(('a' <= c0 && c0 <= 'z') || ('A' <= c0 && c0 <= 'Z') || c0 == '_') {
        return false;
    }
    if n == 1 && c0 == '_' {
        return false;
    }
    let mut i: usize = 1;
    while i < n
        invariant
            1 <= i <= n,
            n == s@.len(),
            forall|j: int| 1 <= j < i ==> spec_is_ident_char(#[trigger] s@[j]),
        decreases n - i,
    {
        let c = s.get_char(i);
        if !(('a' <= c && c <= 'z') || ('A' <= c && c <= 'Z') || c == '_' || ('0' <= c && c
            <= '9')) {
            return false;
        }
        i += 1;
    }
    true
}

} // verus!
