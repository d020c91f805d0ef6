//! Synthesis of the dispatcher's source text.
//!
//! Given a validated declaration, this stage emits the complete companion
//! type: the struct with one optional child slot per variant, the builder
//! surface, and the widget implementation that routes the host framework's
//! five lifecycle calls to the child of the currently active variant. The
//! emitted text is a pure function of the declaration — [`spec_code_of`]
//! gives it character by character — so synthesis is deterministic.

use vstd::prelude::*;
use crate::decl::{variant_views, Decl, DeclView, Payload, PayloadView, Variant, VariantView};
use crate::names::{spec_dec, write_dec};

verus! {

/// The payload types of a tuple variant, joined with `, `.
pub open spec fn spec_ty_list_upto(ts: Seq<Seq<char>>, i: int) -> Seq<char>
    decreases i,
{
    if i <= 0 {
        Seq::empty()
    } else if i == 1 {
        ts[0]
    } else {
        spec_ty_list_upto(ts, i - 1) + ", "@ + ts[i - 1]
    }
}

/// The type the variant's child widget works over: `()` for no payload, the
/// payload type itself for a single payload, and the tuple of the payload
/// types otherwise.
pub open spec fn spec_type_text(p: PayloadView) -> Seq<char> {
    match p {
        PayloadView::Unit => "()"@,
        PayloadView::Tuple(ts) => {
            if ts.len() == 0 {
                "()"@
            } else if ts.len() == 1 {
                ts[0]
            } else {
                "("@ + spec_ty_list_upto(ts, ts.len() as int) + ")"@
            }
        },
    }
}

/// The `j`-th binding of a variant pattern: the prefix, `p`, and the index.
pub open spec fn spec_bind(prefix: Seq<char>, j: int) -> Seq<char> {
    prefix + "p"@ + spec_dec(j as nat)
}

/// The first `i` pattern bindings, joined with `, `.
pub open spec fn spec_bind_list_upto(prefix: Seq<char>, i: int) -> Seq<char>
    decreases i,
{
    if i <= 0 {
        Seq::empty()
    } else if i == 1 {
        spec_bind(prefix, 0)
    } else {
        spec_bind_list_upto(prefix, i - 1) + ", "@ + spec_bind(prefix, i - 1)
    }
}

/// What follows the variant's path in a `match` pattern: nothing for no
/// payload, else the parenthesized bindings.
pub open spec fn spec_pattern_text(p: PayloadView, prefix: Seq<char>) -> Seq<char> {
    match p {
        PayloadView::Unit => Seq::empty(),
        PayloadView::Tuple(ts) => "("@ + spec_bind_list_upto(prefix, ts.len() as int) + ")"@,
    }
}

/// The first `i` cloned bindings, joined with `, `.
pub open spec fn spec_clone_list_upto(i: int) -> Seq<char>
    decreases i,
{
    if i <= 0 {
        Seq::empty()
    } else if i == 1 {
        spec_bind(Seq::empty(), 0) + ".clone()"@
    } else {
        spec_clone_list_upto(i - 1) + ", "@ + spec_bind(Seq::empty(), i - 1) + ".clone()"@
    }
}

/// The expression handed to the child widget as the variant-payload half of
/// its data: `()` for no payload, the cloned binding for a single payload,
/// and the tuple of cloned bindings otherwise.
pub open spec fn spec_values_text(p: PayloadView) -> Seq<char> {
    match p {
        PayloadView::Unit => "()"@,
        PayloadView::Tuple(ts) => {
            if ts.len() == 0 {
                "()"@
            } else if ts.len() == 1 {
                spec_clone_list_upto(1)
            } else {
                "("@ + spec_clone_list_upto(ts.len() as int) + ")"@
            }
        },
    }
}

/// The first `i` projections of the mutated payload, joined with `, `.
pub open spec fn spec_proj_list_upto(i: int) -> Seq<char>
    decreases i,
{
    if i <= 0 {
        Seq::empty()
    } else if i == 1 {
        "d.1.0"@
    } else {
        spec_proj_list_upto(i - 1) + ", d.1."@ + spec_dec((i - 1) as nat)
    }
}

/// The expression that rebuilds the union value from the payload half `d.1`
/// after the child widget may have mutated it.
pub open spec fn spec_rebuild_text(e: Seq<char>, name: Seq<char>, p: PayloadView) -> Seq<char> {
    match p {
        PayloadView::Unit => e + "::"@ + name,
        PayloadView::Tuple(ts) => {
            if ts.len() == 0 {
                e + "::"@ + name + "()"@
            } else if ts.len() == 1 {
                e + "::"@ + name + "(d.1)"@
            } else {
                e + "::"@ + name + "("@ + spec_proj_list_upto(ts.len() as int) + ")"@
            }
        },
    }
}

/// Appends [`spec_type_text`] of the payload to `out`.
fn emit_type_text(out: &mut String, p: &Payload)
    ensures
        final(out)@ == old(out)@ + spec_type_text(p@),
{
    match p {
        Payload::Unit => {
            out.append("()");
        },
        Payload::Tuple(ts) => {
            if ts.len() == 0 {
                out.append("()");
            } else if ts.len() == 1 {
                out.append(ts[0].as_str());
                assert(out@ =~= old(out)@ + spec_type_text(p@));
            } else {
                out.append("(");
                let n = ts.len();
                let mut i: usize = 0;
                assert(out@ =~= old(out)@ + "("@ + spec_ty_list_upto(ts.deep_view(), 0));
                while i < n
                    invariant
                        i <= n,
                        1 < n == ts@.len(),
                        out@ == old(out)@ + "("@ + spec_ty_list_upto(ts.deep_view(), i as int),
                    decreases n - i,
                {
                    if i > 0 {
                        out.append(", ");
                    }
                    out.append(ts[i].as_str());
                    assert(ts.deep_view()[i as int] == ts@[i as int]@);
                    assert(out@ =~= old(out)@ + "("@ + spec_ty_list_upto(
                        ts.deep_view(),
                        i as int + 1,
                    ));
                    i += 1;
                }
                out.append(")");
                assert(out@ =~= old(out)@ + spec_type_text(p@));
            }
        },
    }
}

/// Appends [`spec_pattern_text`] of the payload to `out`.
fn emit_pattern_text(out: &mut String, p: &Payload, prefix: &str)
    ensures
        final(out)@ == old(out)@ + spec_pattern_text(p@, prefix@),
{
    match p {
        Payload::Unit => {
            assert(out@ =~= old(out)@ + spec_pattern_text(p@, prefix@));
        },
        Payload::Tuple(ts) => {
            out.append("(");
            let n = ts.len();
            let mut i: usize = 0;
            assert(out@ =~= old(out)@ + "("@ + spec_bind_list_upto(prefix@, 0));
            while i < n
                invariant
                    i <= n,
                    n == ts@.len(),
                    out@ == old(out)@ + "("@ + spec_bind_list_upto(prefix@, i as int),
                decreases n - i,
            {
                if i > 0 {
                    out.append(", ");
                }
                out.append(prefix);
                out.append("p");
                write_dec(out, i);
                assert(out@ =~= old(out)@ + "("@ + spec_bind_list_upto(prefix@, i as int + 1));
                i += 1;
            }
            out.append(")");
            assert(out@ =~= old(out)@ + spec_pattern_text(p@, prefix@));
        },
    }
}

/// Appends [`spec_values_text`] of the payload to `out`.
fn emit_values_text(out: &mut String, p: &Payload)
    ensures
        final(out)@ == old(out)@ + spec_values_text(p@),
{
    match p {
        Payload::Unit => {
            out.append("()");
        },
        Payload::Tuple(ts) => {
            if ts.len() == 0 {
                out.append("()");
            } else if ts.len() == 1 {
                out.append("p0.clone()");
                assert("p0.clone()"@ =~= spec_clone_list_upto(1)) by {
                    reveal_strlit("p0.clone()");
                    reveal_strlit("p");
                    reveal_strlit(".clone()");
                    assert(spec_dec(0) =~= seq!['0']);
                    assert(spec_bind(Seq::empty(), 0) =~= seq!['p', '0']);
                }
                assert(out@ =~= old(out)@ + spec_values_text(p@));
            } else {
                out.append("(");
                let n = ts.len();
                let mut i: usize = 0;
                assert(out@ =~= old(out)@ + "("@ + spec_clone_list_upto(0));
                while i < n
                    invariant
                        i <= n,
                        1 < n == ts@.len(),
                        out@ == old(out)@ + "("@ + spec_clone_list_upto(i as int),
                    decreases n - i,
                {
                    if i > 0 {
                        out.append(", ");
                    }
                    out.append("p");
                    write_dec(out, i);
                    out.append(".clone()");
                    assert(out@ =~= old(out)@ + "("@ + spec_clone_list_upto(i as int + 1));
                    i += 1;
                }
                out.append(")");
                assert(out@ =~= old(out)@ + spec_values_text(p@));
            }
        },
    }
}

/// Appends [`spec_rebuild_text`] for the variant to `out`.
fn emit_rebuild_text(out: &mut String, e: &str, name: &str, p: &Payload)
    ensures
        final(out)@ == old(out)@ + spec_rebuild_text(e@, name@, p@),
{
    out.append(e);
    out.append("::");
    out.append(name);
    match p {
        Payload::Unit => {
            assert(out@ =~= old(out)@ + spec_rebuild_text(e@, name@, p@));
        },
        Payload::Tuple(ts) => {
            if ts.len() == 0 {
                out.append("()");
                assert(out@ =~= old(out)@ + spec_rebuild_text(e@, name@, p@));
            } else if ts.len() == 1 {
                out.append("(d.1)");
                assert(out@ =~= old(out)@ + spec_rebuild_text(e@, name@, p@));
            } else {
                out.append("(");
                let n = ts.len();
                let mut i: usize = 0;
                assert(out@ =~= old(out)@ + e@ + "::"@ + name@ + "("@ + spec_proj_list_upto(0));
                while i < n
                    invariant
                        i <= n,
                        1 < n == ts@.len(),
                        out@ == old(out)@ + e@ + "::"@ + name@ + "("@ + spec_proj_list_upto(
                            i as int,
                        ),
                    decreases n - i,
                {
                    if i == 0 {
                        out.append("d.1.0");
                        assert("d.1.0"@ =~= spec_proj_list_upto(1)) by {
                            reveal_strlit("d.1.0");
                        }
                    } else {
                        out.append(", d.1.");
                        write_dec(out, i);
                    }
                    assert(out@ =~= old(out)@ + e@ + "::"@ + name@ + "("@ + spec_proj_list_upto(
                        i as int + 1,
                    ));
                    i += 1;
                }
                out.append(")");
                assert(out@ =~= old(out)@ + spec_rebuild_text(e@, name@, p@));
            }
        },
    }
}

/// One child-slot field of the dispatcher struct.
pub open spec fn spec_field_code(v: VariantView) -> Seq<char> {
    "    "@ + v.builder_name + ": Option<::druid::WidgetPod<(Shared, "@ + spec_type_text(v.payload)
        + "), Box<dyn ::druid::Widget<(Shared, "@ + spec_type_text(v.payload) + ")>>>>,\n"@
}

/// One empty-slot initializer in the constructor.
pub open spec fn spec_default_code(v: VariantView) -> Seq<char> {
    "            "@ + v.builder_name + ": None,\n"@
}

/// One chained builder setter: it installs the boxed child widget for the
/// variant, typed over the pair of the shared state and the variant's
/// payload shape.
pub open spec fn spec_builder_fn_code(v: VariantView) -> Seq<char> {
    "    pub fn "@ + v.builder_name + "(mut self, widget: impl ::druid::Widget<(Shared, "@
        + spec_type_text(v.payload) + ")> + 'static) -> Self {\n        self."@ + v.builder_name
        + " = Some(::druid::WidgetPod::new(Box::new(widget)));\n        self\n    }\n\n"@
}

/// One "added to tree" check: a variant with neither its own child nor a
/// default installed earns a non-fatal diagnostic.
pub open spec fn spec_check_code(m: Seq<char>, v: VariantView) -> Seq<char> {
    "            if self.default_.is_none() && self."@ + v.builder_name
        + ".is_none() {\n                ::log::warn!(\"{}::{} variant of {:?} has not been set.\", stringify!("@
        + m + "), stringify!("@ + v.builder_name + "), ctx.widget_id());\n            }\n"@
}

/// One event-routing arm: forward the event with the shared state, then
/// project the possibly mutated payload back into the aggregate value.
pub open spec fn spec_event_arm_code(e: Seq<char>, v: VariantView) -> Seq<char> {
    "                "@ + e + "::"@ + v.name + spec_pattern_text(v.payload, Seq::empty())
        + " => match &mut self."@ + v.builder_name
        + " {\n                    Some(widget) => {\n                        let mut d = (data.0.clone(), "@
        + spec_values_text(v.payload)
        + ");\n                        widget.event(ctx, event, &mut d, env);\n                        *data = (d.0, "@
        + spec_rebuild_text(e, v.name, v.payload)
        + ");\n                    },\n                    None => (),\n                },\n"@
}

/// One lifecycle-routing arm: a read-only forward to the variant's child.
pub open spec fn spec_lifecycle_arm_code(e: Seq<char>, v: VariantView) -> Seq<char> {
    "            "@ + e + "::"@ + v.name + spec_pattern_text(v.payload, Seq::empty())
        + " => match &mut self."@ + v.builder_name
        + " {\n                Some(widget) => widget.lifecycle(ctx, event, &(data.0.clone(), "@
        + spec_values_text(v.payload) + "), env),\n                None => (),\n            },\n"@
}

/// One update-routing arm: it fires only when old and new values hold the
/// same variant.
pub open spec fn spec_update_arm_code(e: Seq<char>, v: VariantView) -> Seq<char> {
    "            ("@ + e + "::"@ + v.name + spec_pattern_text(v.payload, "_old_"@) + ", "@ + e
        + "::"@ + v.name + spec_pattern_text(v.payload, Seq::empty()) + ") => match &mut self."@
        + v.builder_name + " {\n                Some(widget) => widget.update(ctx, &(data.0.clone(), "@
        + spec_values_text(v.payload) + "), env),\n                None => (),\n            },\n"@
}

/// One layout-routing arm: measure the child, place it, and report its
/// size; without a child the minimal size the constraints allow.
pub open spec fn spec_layout_arm_code(e: Seq<char>, v: VariantView) -> Seq<char> {
    "            "@ + e + "::"@ + v.name + spec_pattern_text(v.payload, Seq::empty())
        + " => match &mut self."@ + v.builder_name
        + " {\n                Some(widget) => {\n                    let size = widget.layout(ctx, bc, &(data.0.clone(), "@
        + spec_values_text(v.payload)
        + "), env);\n                    widget.set_layout_rect(ctx, &(data.0.clone(), "@
        + spec_values_text(v.payload)
        + "), env, size.to_rect());\n                    size\n                },\n                None => bc.min(),\n            },\n"@
}

/// One paint-routing arm.
pub open spec fn spec_paint_arm_code(e: Seq<char>, v: VariantView) -> Seq<char> {
    "            "@ + e + "::"@ + v.name + spec_pattern_text(v.payload, Seq::empty())
        + " => match &mut self."@ + v.builder_name
        + " {\n                Some(widget) => widget.paint(ctx, &(data.0.clone(), "@
        + spec_values_text(v.payload) + "), env),\n                None => (),\n            },\n"@
}

fn emit_field_code(out: &mut String, v: &Variant)
    ensures
        final(out)@ == old(out)@ + spec_field_code(v@),
{
    out.append("    ");
    out.append(v.builder_name.as_str());
    out.append(": Option<::druid::WidgetPod<(Shared, ");
    emit_type_text(out, &v.payload);
    out.append("), Box<dyn ::druid::Widget<(Shared, ");
    emit_type_text(out, &v.payload);
    out.append(")>>>>,\n");
    assert(out@ =~= old(out)@ + spec_field_code(v@));
}

fn emit_default_code(out: &mut String, v: &Variant)
    ensures
        final(out)@ == old(out)@ + spec_default_code(v@),
{
    out.append("            ");
    out.append(v.builder_name.as_str());
    out.append(": None,\n");
    assert(out@ =~= old(out)@ + spec_default_code(v@));
}

fn emit_builder_fn_code(out: &mut String, v: &Variant)
    ensures
        final(out)@ == old(out)@ + spec_builder_fn_code(v@),
{
    out.append("    pub fn ");
    out.append(v.builder_name.as_str());
    out.append("(mut self, widget: impl ::druid::Widget<(Shared, ");
    emit_type_text(out, &v.payload);
    out.append(")> + 'static) -> Self {\n        self.");
    out.append(v.builder_name.as_str());
    out.append(" = Some(::druid::WidgetPod::new(Box::new(widget)));\n        self\n    }\n\n");
    assert(out@ =~= old(out)@ + spec_builder_fn_code(v@));
}

fn emit_check_code(out: &mut String, m: &str, v: &Variant)
    ensures
        final(out)@ == old(out)@ + spec_check_code(m@, v@),
{
    out.append("            if self.default_.is_none() && self.");
    out.append(v.builder_name.as_str());
    out.append(
        ".is_none() {\n                ::log::warn!(\"{}::{} variant of {:?} has not been set.\", stringify!(",
    );
    out.append(m);
    out.append("), stringify!(");
    out.append(v.builder_name.as_str());
    out.append("), ctx.widget_id());\n            }\n");
    assert(out@ =~= old(out)@ + spec_check_code(m@, v@));
}

fn emit_event_arm_code(out: &mut String, e: &str, v: &Variant)
    ensures
        final(out)@ == old(out)@ + spec_event_arm_code(e@, v@),
{
    out.append("                ");
    out.append(e);
    out.append("::");
    out.append(v.name.as_str());
    emit_pattern_text(out, &v.payload, "");
    out.append(" => match &mut self.");
    out.append(v.builder_name.as_str());
    out.append(" {\n                    Some(widget) => {\n                        let mut d = (data.0.clone(), ");
    emit_values_text(out, &v.payload);
    out.append(");\n                        widget.event(ctx, event, &mut d, env);\n                        *data = (d.0, ");
    emit_rebuild_text(out, e, v.name.as_str(), &v.payload);
    out.append(");\n                    },\n                    None => (),\n                },\n");
    proof {
        reveal_strlit("");
        assert(""@ =~= Seq::<char>::empty());
    }
    assert(out@ =~= old(out)@ + spec_event_arm_code(e@, v@));
}

fn emit_lifecycle_arm_code(out: &mut String, e: &str, v: &Variant)
    ensures
        final(out)@ == old(out)@ + spec_lifecycle_arm_code(e@, v@),
{
    out.append("            ");
    out.append(e);
    out.append("::");
    out.append(v.name.as_str());
    emit_pattern_text(out, &v.payload, "");
    out.append(" => match &mut self.");
    out.append(v.builder_name.as_str());
    out.append(" {\n                Some(widget) => widget.lifecycle(ctx, event, &(data.0.clone(), ");
    emit_values_text(out, &v.payload);
    out.append("), env),\n                None => (),\n            },\n");
    proof {
        reveal_strlit("");
        assert(""@ =~= Seq::<char>::empty());
    }
    assert(out@ =~= old(out)@ + spec_lifecycle_arm_code(e@, v@));
}

fn emit_update_arm_code(out: &mut String, e: &str, v: &Variant)
    ensures
        final(out)@ == old(out)@ + spec_update_arm_code(e@, v@),
{
    out.append("            (");
    out.append(e);
    out.append("::");
    out.append(v.name.as_str());
    emit_pattern_text(out, &v.payload, "_old_");
    out.append(", ");
    out.append(e);
    out.append("::");
    out.append(v.name.as_str());
    emit_pattern_text(out, &v.payload, "");
    out.append(") => match &mut self.");
    out.append(v.builder_name.as_str());
    out.append(" {\n                Some(widget) => widget.update(ctx, &(data.0.clone(), ");
    emit_values_text(out, &v.payload);
    out.append("), env),\n                None => (),\n            },\n");
    proof {
        reveal_strlit("");
        assert(""@ =~= Seq::<char>::empty());
    }
    assert(out@ =~= old(out)@ + spec_update_arm_code(e@, v@));
}

fn emit_layout_arm_code(out: &mut String, e: &str, v: &Variant)
    ensures
        final(out)@ == old(out)@ + spec_layout_arm_code(e@, v@),
{
    out.append("            ");
    out.append(e);
    out.append("::");
    out.append(v.name.as_str());
    emit_pattern_text(out, &v.payload, "");
    out.append(" => match &mut self.");
    out.append(v.builder_name.as_str());
    out.append(" {\n                Some(widget) => {\n                    let size = widget.layout(ctx, bc, &(data.0.clone(), ");
    emit_values_text(out, &v.payload);
    out.append("), env);\n                    widget.set_layout_rect(ctx, &(data.0.clone(), ");
    emit_values_text(out, &v.payload);
    out.append("), env, size.to_rect());\n                    size\n                },\n                None => bc.min(),\n            },\n");
    proof {
        reveal_strlit("");
        assert(""@ =~= Seq::<char>::empty());
    }
    assert(out@ =~= old(out)@ + spec_layout_arm_code(e@, v@));
}

fn emit_paint_arm_code(out: &mut String, e: &str, v: &Variant)
    ensures
        final(out)@ == old(out)@ + spec_paint_arm_code(e@, v@),
{
    out.append("            ");
    out.append(e);
    out.append("::");
    out.append(v.name.as_str());
    emit_pattern_text(out, &v.payload, "");
    out.append(" => match &mut self.");
    out.append(v.builder_name.as_str());
    out.append(" {\n                Some(widget) => widget.paint(ctx, &(data.0.clone(), ");
    emit_values_text(out, &v.payload);
    out.append("), env),\n                None => (),\n            },\n");
    proof {
        reveal_strlit("");
        assert(""@ =~= Seq::<char>::empty());
    }
    assert(out@ =~= old(out)@ + spec_paint_arm_code(e@, v@));
}

/// The child-slot fields of the first `i` variants, in declaration order.
pub open spec fn spec_fields_upto(vs: Seq<VariantView>, i: int) -> Seq<char>
    decreases i,
{
    if i <= 0 {
        Seq::empty()
    } else {
        spec_fields_upto(vs, i - 1) + spec_field_code(vs[i - 1])
    }
}

fn emit_fields(out: &mut String, vars: &Vec<Variant>)
    ensures
        final(out)@ == old(out)@ + spec_fields_upto(variant_views(vars@), vars@.len() as int),
{
    let n = vars.len();
    let mut i: usize = 0;
    assert(out@ =~= old(out)@ + spec_fields_upto(variant_views(vars@), 0));
    while i < n
        invariant
            i <= n,
            n == vars@.len(),
            out@ == old(out)@ + spec_fields_upto(variant_views(vars@), i as int),
        decreases n - i,
    {
        emit_field_code(out, &vars[i]);
        proof {
            assert(variant_views(vars@)[i as int] == vars@[i as int]@);
            assert(out@ =~= old(out)@ + spec_fields_upto(variant_views(vars@), i as int + 1));
        }
        i += 1;
    }
}

/// The empty-slot initializers of the first `i` variants, in declaration order.
pub open spec fn spec_defaults_upto(vs: Seq<VariantView>, i: int) -> Seq<char>
    decreases i,
{
    if i <= 0 {
        Seq::empty()
    } else {
        spec_defaults_upto(vs, i - 1) + spec_default_code(vs[i - 1])
    }
}

fn emit_defaults(out: &mut String, vars: &Vec<Variant>)
    ensures
        final(out)@ == old(out)@ + spec_defaults_upto(variant_views(vars@), vars@.len() as int),
{
    let n = vars.len();
    let mut i: usize = 0;
    assert(out@ =~= old(out)@ + spec_defaults_upto(variant_views(vars@), 0));
    while i < n
        invariant
            i <= n,
            n == vars@.len(),
            out@ == old(out)@ + spec_defaults_upto(variant_views(vars@), i as int),
        decreases n - i,
    {
        emit_default_code(out, &vars[i]);
        proof {
            assert(variant_views(vars@)[i as int] == vars@[i as int]@);
            assert(out@ =~= old(out)@ + spec_defaults_upto(variant_views(vars@), i as int + 1));
        }
        i += 1;
    }
}

/// The chained setters of the first `i` variants, in declaration order.
pub open spec fn spec_builders_upto(vs: Seq<VariantView>, i: int) -> Seq<char>
    decreases i,
{
    if i <= 0 {
        Seq::empty()
    } else {
        spec_builders_upto(vs, i - 1) + spec_builder_fn_code(vs[i - 1])
    }
}

fn emit_builders(out: &mut String, vars: &Vec<Variant>)
    ensures
        final(out)@ == old(out)@ + spec_builders_upto(variant_views(vars@), vars@.len() as int),
{
    let n = vars.len();
    let mut i: usize = 0;
    assert(out@ =~= old(out)@ + spec_builders_upto(variant_views(vars@), 0));
    while i < n
        invariant
            i <= n,
            n == vars@.len(),
            out@ == old(out)@ + spec_builders_upto(variant_views(vars@), i as int),
        decreases n - i,
    {
        emit_builder_fn_code(out, &vars[i]);
        proof {
            assert(variant_views(vars@)[i as int] == vars@[i as int]@);
            assert(out@ =~= old(out)@ + spec_builders_upto(variant_views(vars@), i as int + 1));
        }
        i += 1;
    }
}

/// The "added to tree" warning checks of the first `i` variants, in declaration order.
pub open spec fn spec_checks_upto(m: Seq<char>, vs: Seq<VariantView>, i: int) -> Seq<char>
    decreases i,
{
    if i <= 0 {
        Seq::empty()
    } else {
        spec_checks_upto(m, vs, i - 1) + spec_check_code(m, vs[i - 1])
    }
}

fn emit_checks(out: &mut String, m: &str, vars: &Vec<Variant>)
    ensures
        final(out)@ == old(out)@ + spec_checks_upto(m@, variant_views(vars@), vars@.len() as int),
{
    let n = vars.len();
    let mut i: usize = 0;
    assert(out@ =~= old(out)@ + spec_checks_upto(m@, variant_views(vars@), 0));
    while i < n
        invariant
            i <= n,
            n == vars@.len(),
            out@ == old(out)@ + spec_checks_upto(m@, variant_views(vars@), i as int),
        decreases n - i,
    {
        emit_check_code(out, m, &vars[i]);
        proof {
            assert(variant_views(vars@)[i as int] == vars@[i as int]@);
            assert(out@ =~= old(out)@ + spec_checks_upto(m@, variant_views(vars@), i as int + 1));
        }
        i += 1;
    }
}

/// The event-routing arms of the first `i` variants, in declaration order.
pub open spec fn spec_event_arms_upto(e: Seq<char>, vs: Seq<VariantView>, i: int) -> Seq<char>
    decreases i,
{
    if i <= 0 {
        Seq::empty()
    } else {
        spec_event_arms_upto(e, vs, i - 1) + spec_event_arm_code(e, vs[i - 1])
    }
}

fn emit_event_arms(out: &mut String, e: &str, vars: &Vec<Variant>)
    ensures
        final(out)@ == old(out)@ + spec_event_arms_upto(e@, variant_views(vars@), vars@.len() as int),
{
    let n = vars.len();
    let mut i: usize = 0;
    assert(out@ =~= old(out)@ + spec_event_arms_upto(e@, variant_views(vars@), 0));
    while i < n
        invariant
            i <= n,
            n == vars@.len(),
            out@ == old(out)@ + spec_event_arms_upto(e@, variant_views(vars@), i as int),
        decreases n - i,
    {
        emit_event_arm_code(out, e, &vars[i]);
        proof {
            assert(variant_views(vars@)[i as int] == vars@[i as int]@);
            assert(out@ =~= old(out)@ + spec_event_arms_upto(e@, variant_views(vars@), i as int + 1));
        }
        i += 1;
    }
}

/// The lifecycle-routing arms of the first `i` variants, in declaration order.
pub open spec fn spec_lifecycle_arms_upto(e: Seq<char>, vs: Seq<VariantView>, i: int) -> Seq<char>
    decreases i,
{
    if i <= 0 {
        Seq::empty()
    } else {
        spec_lifecycle_arms_upto(e, vs, i - 1) + spec_lifecycle_arm_code(e, vs[i - 1])
    }
}

fn emit_lifecycle_arms(out: &mut String, e: &str, vars: &Vec<Variant>)
    ensures
        final(out)@ == old(out)@ + spec_lifecycle_arms_upto(e@, variant_views(vars@), vars@.len() as int),
{
    let n = vars.len();
    let mut i: usize = 0;
    assert(out@ =~= old(out)@ + spec_lifecycle_arms_upto(e@, variant_views(vars@), 0));
    while i < n
        invariant
            i <= n,
            n == vars@.len(),
            out@ == old(out)@ + spec_lifecycle_arms_upto(e@, variant_views(vars@), i as int),
        decreases n - i,
    {
        emit_lifecycle_arm_code(out, e, &vars[i]);
        proof {
            assert(variant_views(vars@)[i as int] == vars@[i as int]@);
            assert(out@ =~= old(out)@ + spec_lifecycle_arms_upto(e@, variant_views(vars@), i as int + 1));
        }
        i += 1;
    }
}

/// The update-routing arms of the first `i` variants, in declaration order.
pub open spec fn spec_update_arms_upto(e: Seq<char>, vs: Seq<VariantView>, i: int) -> Seq<char>
    decreases i,
{
    if i <= 0 {
        Seq::empty()
    } else {
        spec_update_arms_upto(e, vs, i - 1) + spec_update_arm_code(e, vs[i - 1])
    }
}

fn emit_update_arms(out: &mut String, e: &str, vars: &Vec<Variant>)
    ensures
        final(out)@ == old(out)@ + spec_update_arms_upto(e@, variant_views(vars@), vars@.len() as int),
{
    let n = vars.len();
    let mut i: usize = 0;
    assert(out@ =~= old(out)@ + spec_update_arms_upto(e@, variant_views(vars@), 0));
    while i < n
        invariant
            i <= n,
            n == vars@.len(),
            out@ == old(out)@ + spec_update_arms_upto(e@, variant_views(vars@), i as int),
        decreases n - i,
    {
        emit_update_arm_code(out, e, &vars[i]);
        proof {
            assert(variant_views(vars@)[i as int] == vars@[i as int]@);
            assert(out@ =~= old(out)@ + spec_update_arms_upto(e@, variant_views(vars@), i as int + 1));
        }
        i += 1;
    }
}

/// The layout-routing arms of the first `i` variants, in declaration order.
pub open spec fn spec_layout_arms_upto(e: Seq<char>, vs: Seq<VariantView>, i: int) -> Seq<char>
    decreases i,
{
    if i <= 0 {
        Seq::empty()
    } else {
        spec_layout_arms_upto(e, vs, i - 1) + spec_layout_arm_code(e, vs[i - 1])
    }
}

fn emit_layout_arms(out: &mut String, e: &str, vars: &Vec<Variant>)
    ensures
        final(out)@ == old(out)@ + spec_layout_arms_upto(e@, variant_views(vars@), vars@.len() as int),
{
    let n = vars.len();
    let mut i: usize = 0;
    assert(out@ =~= old(out)@ + spec_layout_arms_upto(e@, variant_views(vars@), 0));
    while i < n
        invariant
            i <= n,
            n == vars@.len(),
            out@ == old(out)@ + spec_layout_arms_upto(e@, variant_views(vars@), i as int),
        decreases n - i,
    {
        emit_layout_arm_code(out, e, &vars[i]);
        proof {
            assert(variant_views(vars@)[i as int] == vars@[i as int]@);
            assert(out@ =~= old(out)@ + spec_layout_arms_upto(e@, variant_views(vars@), i as int + 1));
        }
        i += 1;
    }
}

/// The paint-routing arms of the first `i` variants, in declaration order.
pub open spec fn spec_paint_arms_upto(e: Seq<char>, vs: Seq<VariantView>, i: int) -> Seq<char>
    decreases i,
{
    if i <= 0 {
        Seq::empty()
    } else {
        spec_paint_arms_upto(e, vs, i - 1) + spec_paint_arm_code(e, vs[i - 1])
    }
}

fn emit_paint_arms(out: &mut String, e: &str, vars: &Vec<Variant>)
    ensures
        final(out)@ == old(out)@ + spec_paint_arms_upto(e@, variant_views(vars@), vars@.len() as int),
{
    let n = vars.len();
    let mut i: usize = 0;
    assert(out@ =~= old(out)@ + spec_paint_arms_upto(e@, variant_views(vars@), 0));
    while i < n
        invariant
            i <= n,
            n == vars@.len(),
            out@ == old(out)@ + spec_paint_arms_upto(e@, variant_views(vars@), i as int),
        decreases n - i,
    {
        emit_paint_arm_code(out, e, &vars[i]);
        proof {
            assert(variant_views(vars@)[i as int] == vars@[i as int]@);
            assert(out@ =~= old(out)@ + spec_paint_arms_upto(e@, variant_views(vars@), i as int + 1));
        }
        i += 1;
    }
}

/// The visibility prefix of the struct: the declared visibility and a
/// space, or nothing when the declaration had none.
pub open spec fn spec_vis_text(vis: Seq<char>) -> Seq<char> {
    if vis.len() == 0 {
        Seq::empty()
    } else {
        vis + " "@
    }
}

/// The companion accessor on the union type: a static method returning a
/// fresh dispatcher builder.
pub open spec fn spec_accessor_code(d: DeclView) -> Seq<char> {
    "impl "@ + d.enum_name + " {\n    pub fn matcher<Shared: ::druid::Data>() -> "@
        + d.matcher_name + "<Shared> {\n        "@ + d.matcher_name + "::new()\n    }\n}\n\n"@
}

/// The dispatcher struct: one optional child slot per variant, the default
/// slot, and the last observed discriminant.
pub open spec fn spec_struct_code(d: DeclView) -> Seq<char> {
    spec_vis_text(d.visibility) + "struct "@ + d.matcher_name + "<Shared: ::druid::Data> {\n"@
        + spec_fields_upto(d.variants, d.variants.len() as int)
        + "    default_: Option<Box<dyn ::druid::Widget<"@ + d.enum_name
        + ">>>,\n    discriminant_: Option<::std::mem::Discriminant<"@ + d.enum_name
        + ">>,\n}\n\n"@
}

/// The builder surface: the empty constructor, the `default` and
/// `default_empty` setters, and one chained setter per variant.
pub open spec fn spec_builder_impl_code(d: DeclView) -> Seq<char> {
    "impl<Shared> "@ + d.matcher_name
        + "<Shared> where Shared: ::druid::Data {\n    pub fn new() -> Self {\n        Self {\n"@
        + spec_defaults_upto(d.variants, d.variants.len() as int)
        + "            default_: None,\n            discriminant_: None,\n        }\n    }\n\n    pub fn default(mut self, widget: impl ::druid::Widget<"@
        + d.enum_name
        + "> + 'static) -> Self {\n        self.default_ = Some(Box::new(widget));\n        self\n    }\n\n    pub fn default_empty(mut self) -> Self {\n        self.default_ = Some(Box::new(::druid::widget::SizedBox::empty()));\n        self\n    }\n\n"@
        + spec_builders_upto(d.variants, d.variants.len() as int) + "}\n\n"@
}

/// The event routine: events are routed only while the recorded
/// discriminant matches the value's current variant.
pub open spec fn spec_event_fn_code(d: DeclView) -> Seq<char> {
    "    fn event(&mut self, ctx: &mut ::druid::EventCtx, event: &::druid::Event, data: &mut (Shared, "@
        + d.enum_name
        + "), env: &::druid::Env) {\n        if self.discriminant_ == Some(::std::mem::discriminant(&data.1)) {\n            match &mut data.1 {\n"@
        + spec_event_arms_upto(d.enum_name, d.variants, d.variants.len() as int)
        + "            }\n        }\n    }\n\n"@
}

/// The lifecycle routine: the sole place the recorded discriminant is
/// refreshed, the per-variant warnings on "added to tree", and the forward
/// to the current variant's child.
pub open spec fn spec_lifecycle_fn_code(d: DeclView) -> Seq<char> {
    "    fn lifecycle(&mut self, ctx: &mut ::druid::LifeCycleCtx, event: &::druid::LifeCycle, data: &(Shared, "@
        + d.enum_name
        + "), env: &::druid::Env) {\n        self.discriminant_ = Some(::std::mem::discriminant(&data.1));\n        if let ::druid::LifeCycle::WidgetAdded = event {\n"@
        + spec_checks_upto(d.matcher_name, d.variants, d.variants.len() as int)
        + "        }\n        match &data.1 {\n"@
        + spec_lifecycle_arms_upto(d.enum_name, d.variants, d.variants.len() as int)
        + "        }\n    }\n\n"@
}

/// The update routine: per-variant forwarding when the variant is
/// unchanged, and a children-changed signal when it is not.
pub open spec fn spec_update_fn_code(d: DeclView) -> Seq<char> {
    "    fn update(&mut self, ctx: &mut ::druid::UpdateCtx, old_data: &(Shared, "@ + d.enum_name
        + "), data: &(Shared, "@ + d.enum_name
        + "), env: &::druid::Env) {\n        match (&old_data.1, &data.1) {\n"@
        + spec_update_arms_upto(d.enum_name, d.variants, d.variants.len() as int)
        + "            _ => {\n                ctx.children_changed();\n            },\n        }\n    }\n\n"@
}

/// The layout routine: measure and place the current variant's child, or
/// report the minimal size the constraints allow.
pub open spec fn spec_layout_fn_code(d: DeclView) -> Seq<char> {
    "    fn layout(&mut self, ctx: &mut ::druid::LayoutCtx, bc: &::druid::BoxConstraints, data: &(Shared, "@
        + d.enum_name + "), env: &::druid::Env) -> ::druid::Size {\n        match &data.1 {\n"@
        + spec_layout_arms_upto(d.enum_name, d.variants, d.variants.len() as int)
        + "        }\n    }\n\n"@
}

/// The paint routine: forward to the current variant's child, if any.
pub open spec fn spec_paint_fn_code(d: DeclView) -> Seq<char> {
    "    fn paint(&mut self, ctx: &mut ::druid::PaintCtx, data: &(Shared, "@ + d.enum_name
        + "), env: &::druid::Env) {\n        match &data.1 {\n"@
        + spec_paint_arms_upto(d.enum_name, d.variants, d.variants.len() as int)
        + "        }\n    }\n}\n"@
}

/// The widget implementation: the five lifecycle routines over the pair of
/// the shared state and the union value.
pub open spec fn spec_widget_impl_code(d: DeclView) -> Seq<char> {
    "impl<Shared> ::druid::Widget<(Shared, "@ + d.enum_name + ")> for "@ + d.matcher_name
        + "<Shared> where Shared: ::druid::Data {\n"@ + spec_event_fn_code(d)
        + spec_lifecycle_fn_code(d) + spec_update_fn_code(d) + spec_layout_fn_code(d)
        + spec_paint_fn_code(d)
}

/// The complete generated text for a validated declaration.
pub open spec fn spec_code_of(d: DeclView) -> Seq<char> {
    spec_accessor_code(d) + spec_struct_code(d) + spec_builder_impl_code(d)
        + spec_widget_impl_code(d)
}

fn emit_accessor_code(out: &mut String, d: &Decl)
    ensures
        final(out)@ == old(out)@ + spec_accessor_code(d@),
{
    out.append("impl ");
    out.append(d.enum_name.as_str());
    out.append(" {\n    pub fn matcher<Shared: ::druid::Data>() -> ");
    out.append(d.matcher_name.as_str());
    out.append("<Shared> {\n        ");
    out.append(d.matcher_name.as_str());
    out.append("::new()\n    }\n}\n\n");
    assert(out@ =~= old(out)@ + spec_accessor_code(d@));
}

fn emit_struct_code(out: &mut String, d: &Decl)
    ensures
        final(out)@ == old(out)@ + spec_struct_code(d@),
{
    if !d.visibility.as_str().is_empty() {
        out.append(d.visibility.as_str());
        out.append(" ");
    }
    out.append("struct ");
    out.append(d.matcher_name.as_str());
    out.append("<Shared: ::druid::Data> {\n");
    emit_fields(out, &d.variants);
    out.append("    default_: Option<Box<dyn ::druid::Widget<");
    out.append(d.enum_name.as_str());
    out.append(">>>,\n    discriminant_: Option<::std::mem::Discriminant<");
    out.append(d.enum_name.as_str());
    out.append(">>,\n}\n\n");
    assert(out@ =~= old(out)@ + spec_struct_code(d@));
}

fn emit_builder_impl_code(out: &mut String, d: &Decl)
    ensures
        final(out)@ == old(out)@ + spec_builder_impl_code(d@),
{
    out.append("impl<Shared> ");
    out.append(d.matcher_name.as_str());
    out.append("<Shared> where Shared: ::druid::Data {\n    pub fn new() -> Self {\n        Self {\n");
    emit_defaults(out, &d.variants);
    out.append("            default_: None,\n            discriminant_: None,\n        }\n    }\n\n    pub fn default(mut self, widget: impl ::druid::Widget<");
    out.append(d.enum_name.as_str());
    out.append("> + 'static) -> Self {\n        self.default_ = Some(Box::new(widget));\n        self\n    }\n\n    pub fn default_empty(mut self) -> Self {\n        self.default_ = Some(Box::new(::druid::widget::SizedBox::empty()));\n        self\n    }\n\n");
    emit_builders(out, &d.variants);
    out.append("}\n\n");
    assert(out@ =~= old(out)@ + spec_builder_impl_code(d@));
}

fn emit_event_fn_code(out: &mut String, d: &Decl)
    ensures
        final(out)@ == old(out)@ + spec_event_fn_code(d@),
{
    out.append("    fn event(&mut self, ctx: &mut ::druid::EventCtx, event: &::druid::Event, data: &mut (Shared, ");
    out.append(d.enum_name.as_str());
    out.append("), env: &::druid::Env) {\n        if self.discriminant_ == Some(::std::mem::discriminant(&data.1)) {\n            match &mut data.1 {\n");
    emit_event_arms(out, d.enum_name.as_str(), &d.variants);
    out.append("            }\n        }\n    }\n\n");
    assert(out@ =~= old(out)@ + spec_event_fn_code(d@));
}

fn emit_lifecycle_fn_code(out: &mut String, d: &Decl)
    ensures
        final(out)@ == old(out)@ + spec_lifecycle_fn_code(d@),
{
    out.append("    fn lifecycle(&mut self, ctx: &mut ::druid::LifeCycleCtx, event: &::druid::LifeCycle, data: &(Shared, ");
    out.append(d.enum_name.as_str());
    out.append("), env: &::druid::Env) {\n        self.discriminant_ = Some(::std::mem::discriminant(&data.1));\n        if let ::druid::LifeCycle::WidgetAdded = event {\n");
    emit_checks(out, d.matcher_name.as_str(), &d.variants);
    out.append("        }\n        match &data.1 {\n");
    emit_lifecycle_arms(out, d.enum_name.as_str(), &d.variants);
    out.append("        }\n    }\n\n");
    assert(out@ =~= old(out)@ + spec_lifecycle_fn_code(d@));
}

fn emit_update_fn_code(out: &mut String, d: &Decl)
    ensures
        final(out)@ == old(out)@ + spec_update_fn_code(d@),
{
    out.append("    fn update(&mut self, ctx: &mut ::druid::UpdateCtx, old_data: &(Shared, ");
    out.append(d.enum_name.as_str());
    out.append("), data: &(Shared, ");
    out.append(d.enum_name.as_str());
    out.append("), env: &::druid::Env) {\n        match (&old_data.1, &data.1) {\n");
    emit_update_arms(out, d.enum_name.as_str(), &d.variants);
    out.append("            _ => {\n                ctx.children_changed();\n            },\n        }\n    }\n\n");
    assert(out@ =~= old(out)@ + spec_update_fn_code(d@));
}

fn emit_layout_fn_code(out: &mut String, d: &Decl)
    ensures
        final(out)@ == old(out)@ + spec_layout_fn_code(d@),
{
    out.append("    fn layout(&mut self, ctx: &mut ::druid::LayoutCtx, bc: &::druid::BoxConstraints, data: &(Shared, ");
    out.append(d.enum_name.as_str());
    out.append("), env: &::druid::Env) -> ::druid::Size {\n        match &data.1 {\n");
    emit_layout_arms(out, d.enum_name.as_str(), &d.variants);
    out.append("        }\n    }\n\n");
    assert(out@ =~= old(out)@ + spec_layout_fn_code(d@));
}

fn emit_paint_fn_code(out: &mut String, d: &Decl)
    ensures
        final(out)@ == old(out)@ + spec_paint_fn_code(d@),
{
    out.append("    fn paint(&mut self, ctx: &mut ::druid::PaintCtx, data: &(Shared, ");
    out.append(d.enum_name.as_str());
    out.append("), env: &::druid::Env) {\n        match &data.1 {\n");
    emit_paint_arms(out, d.enum_name.as_str(), &d.variants);
    out.append("        }\n    }\n}\n");
    assert(out@ =~= old(out)@ + spec_paint_fn_code(d@));
}

fn emit_widget_impl_code(out: &mut String, d: &Decl)
    ensures
        final(out)@ == old(out)@ + spec_widget_impl_code(d@),
{
    out.append("impl<Shared> ::druid::Widget<(Shared, ");
    out.append(d.enum_name.as_str());
    out.append(")> for ");
    out.append(d.matcher_name.as_str());
    out.append("<Shared> where Shared: ::druid::Data {\n");
    emit_event_fn_code(out, d);
    emit_lifecycle_fn_code(out, d);
    emit_update_fn_code(out, d);
    emit_layout_fn_code(out, d);
    emit_paint_fn_code(out, d);
    assert(out@ =~= old(out)@ + spec_widget_impl_code(d@));
}

/// Emits the dispatcher's complete source text for a validated declaration:
/// exactly [`spec_code_of`], character for character, so running synthesis
/// twice on the same declaration yields byte-identical output.
pub fn synthesize(d: &Decl) -> (r: String)
    ensures
        r@ == spec_code_of(d@),
{
    let mut out = String::new();
    emit_accessor_code(&mut out, d);
    emit_struct_code(&mut out, d);
    emit_builder_impl_code(&mut out, d);
    emit_widget_impl_code(&mut out, d);
    assert(out@ =~= spec_code_of(d@));
    out
}

/// Builder-setter law: for every payload shape the setter's text embeds,
/// as the child widget's data type, exactly the text of that shape — `()`
/// for no payload, the payload type itself for a single payload, and the
/// parenthesized tuple of the payload types otherwise.
pub proof fn lemma_setter_type_matches_shape(v: VariantView)
    ensures
        spec_builder_fn_code(v) == "    pub fn "@ + v.builder_name
            + "(mut self, widget: impl ::druid::Widget<(Shared, "@ + spec_type_text(v.payload)
            + ")> + 'static) -> Self {\n        self."@ + v.builder_name
            + " = Some(::druid::WidgetPod::new(Box::new(widget)));\n        self\n    }\n\n"@,
        v.payload is Unit ==> spec_type_text(v.payload) == "()"@,
        v.payload is Tuple && v.payload->0.len() == 0 ==> spec_type_text(v.payload) == "()"@,
        v.payload is Tuple && v.payload->0.len() == 1 ==> spec_type_text(v.payload)
            == v.payload->0[0],
        v.payload is Tuple && v.payload->0.len() > 1 ==> spec_type_text(v.payload) == "("@
            + spec_ty_list_upto(v.payload->0, v.payload->0.len() as int) + ")"@,
{
}

/// Idempotence law: the generated text is a function of the validated
/// declaration alone, so two synthesis runs over the same declaration and
/// configuration produce byte-identical output.
pub proof fn lemma_synthesis_deterministic(a: DeclView, b: DeclView)
    requires
        a == b,
    ensures
        spec_code_of(a) == spec_code_of(b),
{
}

} // verus!
