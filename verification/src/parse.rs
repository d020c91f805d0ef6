//! Validation of a raw union declaration.
//!
//! The analysis stage: every name is checked, the builder-method name of
//! each variant and the dispatcher type's name are resolved, and a variant
//! with named fields is rejected. Nothing is emitted here; a malformed
//! declaration yields a descriptive error and no output.

use vstd::prelude::*;
use crate::decl::{
    is_ident, raw_variant_views, spec_is_ident, variant_views, Payload, PayloadShape, PayloadView,
    RawDecl, RawDeclView, RawVariant, RawVariantView, ShapeView, Decl, DeclView, Variant,
    VariantView,
};
use crate::names::{default_matcher_name, snake_case, spec_default_matcher_name, spec_snake};

verus! {

/// Why a declaration was rejected; each error carries the offending name.
#[derive(Debug)]
pub enum ParseError {
    /// The union declares generic parameters, an unsupported shape.
    GenericsNotSupported,
    /// The union's own name is not a usable identifier.
    InvalidUnionName { name: String },
    /// The declaration-level dispatcher-name override is not a usable
    /// identifier.
    InvalidMatcherOverride { name: String },
    /// A variant's name is not a usable identifier.
    InvalidVariantName { name: String },
    /// A variant declares named fields, an unsupported payload shape.
    NamedFieldsNotSupported { variant: String },
    /// A variant-level builder-name override is not a usable identifier.
    InvalidBuilderOverride { variant: String, name: String },
}

/// Mathematical form of [`ParseError`].
pub enum ParseErrorView {
    GenericsNotSupported,
    InvalidUnionName { name: Seq<char> },
    InvalidMatcherOverride { name: Seq<char> },
    InvalidVariantName { name: Seq<char> },
    NamedFieldsNotSupported { variant: Seq<char> },
    InvalidBuilderOverride { variant: Seq<char>, name: Seq<char> },
}

impl View for ParseError {
    type V = ParseErrorView;

    open spec fn view(&self) -> ParseErrorView {
        match self {
            ParseError::GenericsNotSupported => ParseErrorView::GenericsNotSupported,
            ParseError::InvalidUnionName { name } => ParseErrorView::InvalidUnionName {
                name: name@,
            },
            ParseError::InvalidMatcherOverride { name } => ParseErrorView::InvalidMatcherOverride {
                name: name@,
            },
            ParseError::InvalidVariantName { name } => ParseErrorView::InvalidVariantName {
                name: name@,
            },
            ParseError::NamedFieldsNotSupported { variant } => {
                ParseErrorView::NamedFieldsNotSupported { variant: variant@ }
            },
            ParseError::InvalidBuilderOverride { variant, name } => {
                ParseErrorView::InvalidBuilderOverride { variant: variant@, name: name@ }
            },
        }
    }
}

/// The message a rejected declaration is reported with.
pub open spec fn spec_message(e: ParseErrorView) -> Seq<char> {
    match e {
        ParseErrorView::GenericsNotSupported => {
            "generic parameters on the union are not supported"@
        },
        ParseErrorView::InvalidUnionName { name } => {
            "union name `"@ + name + "` is not a usable identifier"@
        },
        ParseErrorView::InvalidMatcherOverride { name } => {
            "matcher name `"@ + name + "` is not a usable identifier"@
        },
        ParseErrorView::InvalidVariantName { name } => {
            "variant name `"@ + name + "` is not a usable identifier"@
        },
        ParseErrorView::NamedFieldsNotSupported { variant } => {
            "variant `"@ + variant + "` has named fields, which are not supported"@
        },
        ParseErrorView::InvalidBuilderOverride { variant, name } => {
            "builder name `"@ + name + "` for variant `"@ + variant
                + "` is not a usable identifier"@
        },
    }
}

impl ParseError {
    /// Renders the error as the message [`spec_message`] prescribes.
    pub fn message(&self) -> (r: String)
        ensures
            r@ == spec_message(self@),
    {
        match self {
            ParseError::GenericsNotSupported => {
                let out = String::from_str("generic parameters on the union are not supported");
                out
            },
            ParseError::InvalidUnionName { name } => {
                let mut out = String::from_str("union name `");
                out.append(name.as_str());
                out.append("` is not a usable identifier");
                assert(out@ =~= spec_message(self@));
                out
            },
            ParseError::InvalidMatcherOverride { name } => {
                let mut out = String::from_str("matcher name `");
                out.append(name.as_str());
                out.append("` is not a usable identifier");
                assert(out@ =~= spec_message(self@));
                out
            },
            ParseError::InvalidVariantName { name } => {
                let mut out = String::from_str("variant name `");
                out.append(name.as_str());
                out.append("` is not a usable identifier");
                assert(out@ =~= spec_message(self@));
                out
            },
            ParseError::NamedFieldsNotSupported { variant } => {
                let mut out = String::from_str("variant `");
                out.append(variant.as_str());
                out.append("` has named fields, which are not supported");
                assert(out@ =~= spec_message(self@));
                out
            },
            ParseError::InvalidBuilderOverride { variant, name } => {
                let mut out = String::from_str("builder name `");
                out.append(name.as_str());
                out.append("` for variant `");
                out.append(variant.as_str());
                out.append("` is not a usable identifier");
                assert(out@ =~= spec_message(self@));
                out
            },
        }
    }
}

/// Validates one variant: its name must be a usable identifier, named fields
/// are rejected, and its builder-method name is the explicit override when
/// one is given (checked), else the snake-case form of the variant's name.
pub open spec fn spec_check_variant(v: RawVariantView) -> Result<VariantView, ParseErrorView> {
    if !spec_is_ident(v.name) {
        Result::Err(ParseErrorView::InvalidVariantName { name: v.name })
    } else if v.shape is Named {
        Result::Err(ParseErrorView::NamedFieldsNotSupported { variant: v.name })
    } else {
        match v.builder_override {
            Option::Some(o) => {
                if !spec_is_ident(o) {
                    Result::Err(
                        ParseErrorView::InvalidBuilderOverride { variant: v.name, name: o },
                    )
                } else {
                    Result::Ok(
                        VariantView {
                            name: v.name,
                            builder_name: o,
                            payload: spec_payload_of(v.shape),
                        },
                    )
                }
            },
            Option::None => Result::Ok(
                VariantView {
                    name: v.name,
                    builder_name: spec_snake(v.name),
                    payload: spec_payload_of(v.shape),
                },
            ),
        }
    }
}

/// The validated payload of a shape that is not named-fields.
pub open spec fn spec_payload_of(s: ShapeView) -> PayloadView {
    match s {
        ShapeView::Unit => PayloadView::Unit,
        ShapeView::Tuple(ts) => PayloadView::Tuple(ts),
        ShapeView::Named => PayloadView::Unit,
    }
}

/// Validates the variants from position `i` on, in declaration order; the
/// first offending variant decides the error.
pub open spec fn spec_parse_variants(vs: Seq<RawVariantView>, i: int) -> Result<
    Seq<VariantView>,
    ParseErrorView,
>
    decreases vs.len() - i,
{
    if i < 0 || i >= vs.len() {
        Result::Ok(Seq::empty())
    } else {
        match spec_check_variant(vs[i]) {
            Result::Err(e) => Result::Err(e),
            Result::Ok(v) => match spec_parse_variants(vs, i + 1) {
                Result::Err(e) => Result::Err(e),
                Result::Ok(rest) => Result::Ok(seq![v] + rest),
            },
        }
    }
}

/// Validates a whole declaration: generics are rejected, the union's name
/// and the optional dispatcher-name override are checked, the dispatcher's
/// name is resolved, and every variant is validated in order.
pub open spec fn spec_parse(d: RawDeclView) -> Result<DeclView, ParseErrorView> {
    if d.has_generics {
        Result::Err(ParseErrorView::GenericsNotSupported)
    } else if !spec_is_ident(d.name) {
        Result::Err(ParseErrorView::InvalidUnionName { name: d.name })
    } else if d.matcher_override is Some && !spec_is_ident(d.matcher_override->0) {
        Result::Err(ParseErrorView::InvalidMatcherOverride { name: d.matcher_override->0 })
    } else {
        match spec_parse_variants(d.variants, 0) {
            Result::Err(e) => Result::Err(e),
            Result::Ok(vs) => Result::Ok(
                DeclView {
                    visibility: d.visibility,
                    enum_name: d.name,
                    matcher_name: match d.matcher_override {
                        Option::Some(m) => m,
                        Option::None => spec_default_matcher_name(d.name),
                    },
                    variants: vs,
                },
            ),
        }
    }
}

fn check_variant(v: &RawVariant) -> (r: Result<Variant, ParseError>)
    ensures
        match r {
            Result::Ok(out) => spec_check_variant(v@) == Result::Ok::<
                VariantView,
                ParseErrorView,
            >(out@),
            Result::Err(e) => spec_check_variant(v@) == Result::Err::<
                VariantView,
                ParseErrorView,
            >(e@),
        },
{
    if !is_ident(v.name.as_str()) {
        return Result::Err(ParseError::InvalidVariantName { name: v.name.clone() });
    }
    let payload = match &v.shape {
        PayloadShape::Unit => Payload::Unit,
        PayloadShape::Tuple(ts) => Payload::Tuple(ts.clone()),
        PayloadShape::Named => {
            return Result::Err(ParseError::NamedFieldsNotSupported { variant: v.name.clone() });
        },
    };
    let builder_name = match &v.builder_override {
        Option::Some(o) => {
            if !is_ident(o.as_str()) {
                return Result::Err(
                    ParseError::InvalidBuilderOverride { variant: v.name.clone(), name: o.clone() },
                );
            }
            o.clone()
        },
        Option::None => snake_case(v.name.as_str()),
    };
    Result::Ok(Variant { name: v.name.clone(), builder_name, payload })
}

fn parse_variants(vs: &Vec<RawVariant>, i: usize) -> (r: Result<Vec<Variant>, ParseError>)
    requires
        i <= vs@.len(),
    ensures
        match r {
            Result::Ok(out) => spec_parse_variants(raw_variant_views(vs@), i as int)
                == Result::Ok::<Seq<VariantView>, ParseErrorView>(variant_views(out@)),
            Result::Err(e) => spec_parse_variants(raw_variant_views(vs@), i as int)
                == Result::Err::<Seq<VariantView>, ParseErrorView>(e@),
        },
    decreases vs@.len() - i,
{
    if i == vs.len() {
        let out: Vec<Variant> = Vec::new();
        assert(variant_views(out@) =~= Seq::<VariantView>::empty());
        return Result::Ok(out);
    }
    let v = match check_variant(&vs[i]) {
        Result::Ok(v) => v,
        Result::Err(e) => {
            assert(raw_variant_views(vs@)[i as int] == vs@[i as int]@);
            return Result::Err(e);
        },
    };
    assert(raw_variant_views(vs@)[i as int] == vs@[i as int]@);
    match parse_variants(vs, i + 1) {
        Result::Ok(mut rest) => {
            let ghost old_rest = rest@;
            rest.insert(0, v);
            proof {
                assert forall|j: int| 0 <= j < rest@.len() implies #[trigger] variant_views(
                    rest@,
                )[j] == (seq![v@] + variant_views(old_rest))[j] by {
                    if j > 0 {
                        assert(rest@[j] == old_rest[j - 1]);
                        assert(variant_views(old_rest)[j - 1] == old_rest[j - 1]@);
                    }
                }
                assert(variant_views(rest@) =~= seq![v@] + variant_views(old_rest));
            }
            Result::Ok(rest)
        },
        Result::Err(e) => Result::Err(e),
    }
}

/// Validates a raw declaration as [`spec_parse`] prescribes: the structured
/// declaration on success, and on a malformed input the error naming the
/// first offending construct.
pub fn parse(raw: &RawDecl) -> (r: Result<Decl, ParseError>)
    ensures
        match r {
            Result::Ok(d) => spec_parse(raw@) == Result::Ok::<DeclView, ParseErrorView>(d@),
            Result::Err(e) => spec_parse(raw@) == Result::Err::<DeclView, ParseErrorView>(e@),
        },
{
    if raw.has_generics {
        return Result::Err(ParseError::GenericsNotSupported);
    }
    if !is_ident(raw.name.as_str()) {
        return Result::Err(ParseError::InvalidUnionName { name: raw.name.clone() });
    }
    let matcher_name = match &raw.matcher_override {
        Option::Some(m) => {
            if !is_ident(m.as_str()) {
                return Result::Err(ParseError::InvalidMatcherOverride { name: m.clone() });
            }
            m.clone()
        },
        Option::None => default_matcher_name(raw.name.as_str()),
    };
    match parse_variants(&raw.variants, 0) {
        Result::Ok(variants) => Result::Ok(
            Decl {
                visibility: raw.visibility.clone(),
                enum_name: raw.name.clone(),
                matcher_name,
                variants,
            },
        ),
        Result::Err(e) => Result::Err(e),
    }
}

/// Builder-name law: an explicit override is reproduced verbatim; without
/// one the name is the deterministic snake-case transform of the variant's
/// name, which never holds an upper-case letter.
pub proof fn lemma_builder_name_resolution(v: RawVariantView)
    requires
        spec_check_variant(v) is Ok,
    ensures
        v.builder_override is Some ==> (spec_check_variant(v)->Ok_0).builder_name
            == v.builder_override->0,
        v.builder_override is None ==> (spec_check_variant(v)->Ok_0).builder_name == spec_snake(
            v.name,
        ),
        v.builder_override is None ==> forall|j: int|
            0 <= j < (spec_check_variant(v)->Ok_0).builder_name.len() ==> !crate::names::spec_is_upper(
                #[trigger] (spec_check_variant(v)->Ok_0).builder_name[j],
            ),
{
    if v.builder_override is None {
        crate::names::lemma_snake_lower(v.name);
    }
}

/// Dispatcher-name law: with a declaration-level override the dispatcher's
/// name is the override exactly; without one it is the union's name with
/// the fixed suffix appended.
pub proof fn lemma_matcher_name_resolution(d: RawDeclView)
    requires
        spec_parse(d) is Ok,
    ensures
        d.matcher_override is Some ==> (spec_parse(d)->Ok_0).matcher_name == d.matcher_override->0,
        d.matcher_override is None ==> (spec_parse(d)->Ok_0).matcher_name
            == spec_default_matcher_name(d.name),
{
}

/// Rejection law: a declaration holding any variant with named fields is
/// never accepted; validation ends in an error.
pub proof fn lemma_named_fields_rejected(d: RawDeclView)
    requires
        exists|i: int| 0 <= i < d.variants.len() && d.variants[i].shape is Named,
    ensures
        spec_parse(d) is Err,
{
    if !d.has_generics && spec_is_ident(d.name) && !(d.matcher_override is Some && !spec_is_ident(
        d.matcher_override->0,
    )) {
        let k = choose|i: int| 0 <= i < d.variants.len() && d.variants[i].shape is Named;
        lemma_variants_named_rejected(d.variants, 0, k);
    }
}

proof fn lemma_variants_named_rejected(vs: Seq<RawVariantView>, i: int, k: int)
    requires
        0 <= i <= k < vs.len(),
        vs[k].shape is Named,
    ensures
        spec_parse_variants(vs, i) is Err,
    decreases k - i,
{
    if i == k {
        assert(spec_check_variant(vs[i]) is Err);
    } else {
        lemma_variants_named_rejected(vs, i + 1, k);
    }
}

} // verus!
