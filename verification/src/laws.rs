//! The properties the composer guarantees across calls, written out
//! and proved over the contracts of [`crate::compose`] and the
//! attribute-store semantics of [`crate::plan`].

use vstd::prelude::*;
use crate::attr::{Attr, AttrValue, last_value, lemma_last_value_concat};
use crate::compose::{FreshHandles, base_rig, sky_sets, texture_sets};
use crate::plan::{
    AttrSet,
    RigPlan,
    effective_value,
    lemma_creation_writes_empty,
    set_writes,
    writes,
};

verus! {

/// Every successful composition, whichever variant made it, plans
/// exactly four nodes — rotation transform, environment light,
/// attributes, shader, in that order — and exactly three connections,
/// the second under `surfaceshader` and the third under
/// `geometryattributes`.
pub proof fn lemma_rig_topology(p: RigPlan, fresh: FreshHandles, angle_bits: u64, visible: bool)
    requires
        base_rig(p, fresh, angle_bits, visible),
    ensures
        p.nodes@.len() == 4,
        p.nodes@[0].kind is Rotation,
        p.nodes@[1].kind is Environment,
        p.nodes@[2].kind is Attributes,
        p.nodes@[3].kind is Shader,
        p.connections@.len() == 3,
        p.connections@[0].slot is None,
        p.connections@[1].slot matches Some(s) && s@ == "surfaceshader"@,
        p.connections@[2].slot matches Some(s) && s@ == "geometryattributes"@,
{
}

/// A composition given no caller root handle returns the allocator's
/// fresh identifier as its root: the root is then non-empty, and two
/// such calls, whose allocator produced distinct identifiers, return
/// distinct roots.
///
/// The premises are the ensures of the composition functions for
/// `handle` absent, together with the allocator's contract
/// [`FreshHandles::wf`].
pub proof fn lemma_generated_roots(
    p1: RigPlan,
    p2: RigPlan,
    fresh1: FreshHandles,
    fresh2: FreshHandles,
)
    requires
        p1.root@ == fresh1.root@,
        p2.root@ == fresh2.root@,
        fresh1.wf(),
        fresh2.wf(),
        fresh1.root@ != fresh2.root@,
    ensures
        p1.root@.len() > 0,
        p2.root@.len() > 0,
        p1.root@ != p2.root@,
{
}

/// Creating the base rig's nodes writes nothing on the shader: the
/// shader's own creation attribute list is empty, and the one
/// non-empty list, the attributes node's, stands under a different
/// handle. What the shader ends up with is therefore decided by the
/// set-attribute calls alone.
proof fn lemma_base_rig_shader_writes(
    p: RigPlan,
    fresh: FreshHandles,
    angle_bits: u64,
    visible: bool,
)
    requires
        base_rig(p, fresh, angle_bits, visible),
        fresh.attributes@ != fresh.shader@,
    ensures
        writes(p, p.shader@) == set_writes(p.attribute_sets@, p.shader@),
{
    assert forall|i: int|
        0 <= i < p.nodes@.len() implies p.nodes@[i].handle@ != p.shader@ || p.nodes@[i].attrs@.len()
        == 0 by {
        assert(i == 0 || i == 1 || i == 2 || i == 3);
    }
    lemma_creation_writes_empty(p.nodes@, p.shader@);
    assert(Seq::<Attr>::empty() + set_writes(p.attribute_sets@, p.shader@) =~= set_writes(
        p.attribute_sets@,
        p.shader@,
    ));
}

/// One set-attribute call on `h` writes exactly its attribute list.
proof fn lemma_set_writes_one(sets: Seq<AttrSet>, h: Seq<char>)
    requires
        sets.len() == 1,
        sets[0].handle@ == h,
    ensures
        set_writes(sets, h) == sets[0].attrs@,
{
    assert(sets.drop_last().len() == 0);
    assert(set_writes(sets.drop_last(), h) == Seq::<Attr>::empty());
    assert(sets.last() == sets[0]);
    assert(Seq::<Attr>::empty() + sets[0].attrs@ =~= sets[0].attrs@);
}

/// Two set-attribute calls on `h` write their attribute lists in call
/// order.
proof fn lemma_set_writes_two(sets: Seq<AttrSet>, h: Seq<char>)
    requires
        sets.len() == 2,
        sets[0].handle@ == h,
        sets[1].handle@ == h,
    ensures
        set_writes(sets, h) == sets[0].attrs@ + sets[1].attrs@,
{
    let first = sets.drop_last();
    lemma_set_writes_one(first, h);
    assert(sets.last() == sets[1]);
    assert(first[0] == sets[0]);
}

/// Caller overrides win on the image-based variant: whenever the
/// override list leaves a value under a name, that value — not a
/// computed one — is what the shader ends up with.
pub proof fn lemma_override_wins_texture(
    p: RigPlan,
    fresh: FreshHandles,
    angle_bits: u64,
    exposure_bits: u32,
    visible: bool,
    texture: Seq<char>,
    args: Seq<Attr>,
    name: Seq<char>,
    v: AttrValue,
)
    requires
        base_rig(p, fresh, angle_bits, visible),
        texture_sets(p, texture, exposure_bits, args),
        fresh.wf(),
        last_value(args, name) == Some(v),
    ensures
        effective_value(p, p.shader@, name) == Some(v),
{
    assert(args.len() > 0);
    lemma_base_rig_shader_writes(p, fresh, angle_bits, visible);
    lemma_set_writes_two(p.attribute_sets@, p.shader@);
    lemma_last_value_concat(p.attribute_sets@[0].attrs@, args, name);
}

/// Caller overrides win on the procedural-sky variant, as on the
/// image-based one.
pub proof fn lemma_override_wins_sky(
    p: RigPlan,
    fresh: FreshHandles,
    angle_bits: u64,
    exposure_bits: u32,
    visible: bool,
    args: Seq<Attr>,
    name: Seq<char>,
    v: AttrValue,
)
    requires
        base_rig(p, fresh, angle_bits, visible),
        sky_sets(p, exposure_bits, args),
        fresh.wf(),
        last_value(args, name) == Some(v),
    ensures
        effective_value(p, p.shader@, name) == Some(v),
{
    assert(args.len() > 0);
    lemma_base_rig_shader_writes(p, fresh, angle_bits, visible);
    lemma_set_writes_two(p.attribute_sets@, p.shader@);
    lemma_last_value_concat(p.attribute_sets@[0].attrs@, args, name);
}

/// Without an override for `intensity`, the image-based variant leaves
/// the shader's intensity at the value computed from the exposure: two
/// raised to `exposure_bits` stops.
pub proof fn lemma_intensity_computed_texture(
    p: RigPlan,
    fresh: FreshHandles,
    angle_bits: u64,
    exposure_bits: u32,
    visible: bool,
    texture: Seq<char>,
    args: Seq<Attr>,
)
    requires
        base_rig(p, fresh, angle_bits, visible),
        texture_sets(p, texture, exposure_bits, args),
        fresh.wf(),
        last_value(args, "intensity"@) is None,
    ensures
        effective_value(p, p.shader@, "intensity"@) == Some(AttrValue::Stops(exposure_bits)),
{
    lemma_base_rig_shader_writes(p, fresh, angle_bits, visible);
    let attrs0 = p.attribute_sets@[0].attrs@;
    reveal_strlit("intensity");
    reveal_strlit("image");
    assert(attrs0.last() == attrs0[2]);
    assert("image"@.len() == 5);
    assert("intensity"@.len() == 9);
    assert(attrs0[2].name@ != "intensity"@);
    assert(attrs0.drop_last().len() == 2);
    assert(attrs0.drop_last().last() == attrs0[1]);
    assert(last_value(attrs0.drop_last(), "intensity"@) == Some(attrs0[1].value));
    assert(last_value(attrs0, "intensity"@) == Some(attrs0[1].value));
    if args.len() == 0 {
        lemma_set_writes_one(p.attribute_sets@, p.shader@);
    } else {
        lemma_set_writes_two(p.attribute_sets@, p.shader@);
        lemma_last_value_concat(attrs0, args, "intensity"@);
    }
}

/// Without an override for `intensity`, the procedural-sky variant
/// leaves the shader's intensity at the value computed from the
/// exposure, as the image-based one does.
pub proof fn lemma_intensity_computed_sky(
    p: RigPlan,
    fresh: FreshHandles,
    angle_bits: u64,
    exposure_bits: u32,
    visible: bool,
    args: Seq<Attr>,
)
    requires
        base_rig(p, fresh, angle_bits, visible),
        sky_sets(p, exposure_bits, args),
        fresh.wf(),
        last_value(args, "intensity"@) is None,
    ensures
        effective_value(p, p.shader@, "intensity"@) == Some(AttrValue::Stops(exposure_bits)),
{
    lemma_base_rig_shader_writes(p, fresh, angle_bits, visible);
    let attrs0 = p.attribute_sets@[0].attrs@;
    assert(attrs0.last() == attrs0[1]);
    assert(last_value(attrs0, "intensity"@) == Some(attrs0[1].value));
    if args.len() == 0 {
        lemma_set_writes_one(p.attribute_sets@, p.shader@);
    } else {
        lemma_set_writes_two(p.attribute_sets@, p.shader@);
        lemma_last_value_concat(attrs0, args, "intensity"@);
    }
}

} // verus!
