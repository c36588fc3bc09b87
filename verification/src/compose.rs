//! The rig composer: one call assembles the fixed four-node
//! environment-light subgraph as a [`RigPlan`].
//!
//! Every variant shares the same base rig — rotation transform,
//! environment light, attributes node, shader — and differs only in the
//! attributes it writes on the shader afterwards. The caller may supply
//! the root handle; every other handle, and the root when none is
//! supplied, comes from the scene system's identifier allocator, whose
//! output the caller passes in as [`FreshHandles`].

use vstd::prelude::*;
use crate::attr::{Attr, AttrValue};
use crate::plan::{AttrSet, Connection, NodeKind, NodeSpec, RigPlan};

verus! {

/// Identifiers drawn from the scene system's allocator for one
/// composition call, one per node the rig may need to name.
///
/// The allocator — not this crate — guarantees that they are non-empty
/// and distinct; [`FreshHandles::wf`] states that contract.
pub struct FreshHandles {
    /// Names the rotation transform when the caller supplies no root
    /// handle.
    pub root: String,
    /// Names the environment light node.
    pub light: String,
    /// Names the attributes node.
    pub attributes: String,
    /// Names the shader node.
    pub shader: String,
}

impl FreshHandles {
    /// What the external allocator promises of freshly generated
    /// identifiers: each is non-empty, and no two are equal.
    pub open spec fn wf(self) -> bool {
        &&& self.root@.len() > 0
        &&& self.light@.len() > 0
        &&& self.attributes@.len() > 0
        &&& self.shader@.len() > 0
        &&& self.root@ != self.light@
        &&& self.root@ != self.attributes@
        &&& self.root@ != self.shader@
        &&& self.light@ != self.attributes@
        &&& self.light@ != self.shader@
        &&& self.attributes@ != self.shader@
    }
}

/// `a` is the entry `name`, holding the integer `value`.
pub open spec fn is_int_attr(a: Attr, name: Seq<char>, value: i32) -> bool {
    &&& a.name@ == name
    &&& a.value == (AttrValue::Int(value))
}

/// `a` is the entry `name`, holding a value given in stops whose bit
/// pattern is `stops_bits`.
pub open spec fn is_stops_attr(a: Attr, name: Seq<char>, stops_bits: u32) -> bool {
    &&& a.name@ == name
    &&& a.value == (AttrValue::Stops(stops_bits))
}

/// `a` is the entry `name`, holding the string `value`.
pub open spec fn is_str_attr(a: Attr, name: Seq<char>, value: Seq<char>) -> bool {
    &&& a.name@ == name
    &&& a.value matches AttrValue::Str(s) && s@ == value
}

/// `c` connects `source` as a child of `target` under `slot` (`None`
/// meaning the context's default relation).
pub open spec fn connection_is(
    c: Connection,
    source: Seq<char>,
    target: Seq<char>,
    slot: Option<Seq<char>>,
) -> bool {
    &&& c.source@ == source
    &&& c.target@ == target
    &&& match slot {
        Option::None => c.slot is None,
        Option::Some(s) => c.slot matches Some(cs) && cs@ == s,
    }
}

/// The shared four-node topology every variant builds: a rotation
/// transform at the root; an environment light under it; an attributes
/// node carrying the camera-visibility toggle, connected to the light
/// under `geometryattributes`; and an initially empty shader connected
/// to the attributes node under `surfaceshader`.
pub open spec fn base_rig(p: RigPlan, fresh: FreshHandles, angle_bits: u64, visible: bool) -> bool {
    &&& p.nodes@.len() == 4
    &&& p.nodes@[0].handle@ == p.root@
    &&& p.nodes@[0].kind == (NodeKind::Rotation { angle_degrees_bits: angle_bits })
    &&& p.nodes@[0].attrs@.len() == 0
    &&& p.nodes@[1].handle@ == fresh.light@
    &&& p.nodes@[1].kind == NodeKind::Environment
    &&& p.nodes@[1].attrs@.len() == 0
    &&& p.nodes@[2].handle@ == fresh.attributes@
    &&& p.nodes@[2].kind == NodeKind::Attributes
    &&& p.nodes@[2].attrs@.len() == 1
    &&& is_int_attr(p.nodes@[2].attrs@[0], "visibility.camera"@, if visible { 1 } else { 0 })
    &&& p.nodes@[3].handle@ == fresh.shader@
    &&& p.nodes@[3].kind == NodeKind::Shader
    &&& p.nodes@[3].attrs@.len() == 0
    &&& p.shader@ == fresh.shader@
    &&& p.connections@.len() == 3
    &&& connection_is(p.connections@[0], fresh.light@, p.root@, Option::None)
    &&& connection_is(
        p.connections@[1],
        fresh.shader@,
        fresh.attributes@,
        Option::Some("surfaceshader"@),
    )
    &&& connection_is(
        p.connections@[2],
        fresh.attributes@,
        fresh.light@,
        Option::Some("geometryattributes"@),
    )
}

/// The set-attribute calls of the image-based variant: one call writing
/// the environment-light shader reference, the intensity in stops and
/// the image path, then — only when the caller supplied overrides — a
/// second call replaying them verbatim, so they win.
pub open spec fn texture_sets(
    p: RigPlan,
    texture: Seq<char>,
    exposure_bits: u32,
    args: Seq<Attr>,
) -> bool {
    &&& p.attribute_sets@.len() == (if args.len() == 0 {
        1int
    } else {
        2int
    })
    &&& p.attribute_sets@[0].handle@ == p.shader@
    &&& p.attribute_sets@[0].attrs@.len() == 3
    &&& is_str_attr(p.attribute_sets@[0].attrs@[0], "shaderfilename"@, "${DELIGHT}/osl/environmentLight"@)
    &&& is_stops_attr(p.attribute_sets@[0].attrs@[1], "intensity"@, exposure_bits)
    &&& is_str_attr(p.attribute_sets@[0].attrs@[2], "image"@, texture)
    &&& args.len() > 0 ==> p.attribute_sets@[1].handle@ == p.shader@
        && p.attribute_sets@[1].attrs@ == args
}

/// The set-attribute calls of the procedural-sky variant: as
/// [`texture_sets`], but the shader reference is the sky shader and no
/// image path is written.
pub open spec fn sky_sets(p: RigPlan, exposure_bits: u32, args: Seq<Attr>) -> bool {
    &&& p.attribute_sets@.len() == (if args.len() == 0 {
        1int
    } else {
        2int
    })
    &&& p.attribute_sets@[0].handle@ == p.shader@
    &&& p.attribute_sets@[0].attrs@.len() == 2
    &&& is_str_attr(p.attribute_sets@[0].attrs@[0], "shaderfilename"@, "${DELIGHT}/osl/dlSky"@)
    &&& is_stops_attr(p.attribute_sets@[0].attrs@[1], "intensity"@, exposure_bits)
    &&& args.len() > 0 ==> p.attribute_sets@[1].handle@ == p.shader@
        && p.attribute_sets@[1].attrs@ == args
}

/// Plans the base environment rig: the four nodes and three
/// connections shared by every variant, with an empty shader left for
/// the caller or a variant to fill in.
///
/// `handle` names the rig root when supplied; otherwise the root is
/// `fresh.root`. `angle` is a rotation about the vertical axis, in
/// degrees, as the bit pattern of a double-precision value (`None`
/// meaning no rotation); `visible` says whether the camera sees the
/// environment (`None` meaning visible).
pub fn environment(
    handle: Option<String>,
    fresh: FreshHandles,
    angle: Option<u64>,
    visible: Option<bool>,
) -> (p: RigPlan)
    ensures
        base_rig(p, fresh, angle.unwrap_or(0), visible.unwrap_or(true)),
        handle matches Some(h) ==> p.root@ == h@,
        handle is None ==> p.root@ == fresh.root@,
        p.attribute_sets@.len() == 0,
{
    let FreshHandles { root: generated_root, light, attributes, shader } = fresh;
    let root = match handle {
        Some(h) => h,
        None => generated_root,
    };
    let camera_visibility: i32 = if visible.unwrap_or(true) {
        1
    } else {
        0
    };
    let mut visibility_attrs: Vec<Attr> = Vec::new();
    visibility_attrs.push(
        Attr {
            name: String::from_str("visibility.camera"),
            value: AttrValue::Int(camera_visibility),
        },
    );

    let mut nodes: Vec<NodeSpec> = Vec::new();
    nodes.push(
        NodeSpec {
            handle: root.clone(),
            kind: NodeKind::Rotation { angle_degrees_bits: angle.unwrap_or(0) },
            attrs: Vec::new(),
        },
    );
    nodes.push(NodeSpec { handle: light.clone(), kind: NodeKind::Environment, attrs: Vec::new() });
    nodes.push(
        NodeSpec { handle: attributes.clone(), kind: NodeKind::Attributes, attrs: visibility_attrs },
    );
    nodes.push(NodeSpec { handle: shader.clone(), kind: NodeKind::Shader, attrs: Vec::new() });

    let mut connections: Vec<Connection> = Vec::new();
    connections.push(Connection { source: light.clone(), target: root.clone(), slot: None });
    connections.push(
        Connection {
            source: shader.clone(),
            target: attributes.clone(),
            slot: Some(String::from_str("surfaceshader")),
        },
    );
    connections.push(
        Connection {
            source: attributes,
            target: light,
            slot: Some(String::from_str("geometryattributes")),
        },
    );

    RigPlan { nodes, connections, attribute_sets: Vec::new(), root, shader }
}

/// Plans an image-based environment light: the base rig, whose shader
/// is then pointed at the built-in environment-light shader, given an
/// intensity of two raised to `exposure` stops (`None` meaning zero
/// stops, so an intensity of one), and handed `texture` as its
/// latitude-longitude image path. Caller-supplied `args` are written
/// after the computed attributes, so they take precedence.
///
/// `exposure` is the bit pattern of a single-precision value in stops.
pub fn environment_texture(
    handle: Option<String>,
    fresh: FreshHandles,
    texture: String,
    angle: Option<u64>,
    exposure: Option<u32>,
    visible: Option<bool>,
    args: Vec<Attr>,
) -> (p: RigPlan)
    ensures
        base_rig(p, fresh, angle.unwrap_or(0), visible.unwrap_or(true)),
        handle matches Some(h) ==> p.root@ == h@,
        handle is None ==> p.root@ == fresh.root@,
        texture_sets(p, texture@, exposure.unwrap_or(0), args@),
{
    let mut p = environment(handle, fresh, angle, visible);

    let mut shader_attrs: Vec<Attr> = Vec::new();
    shader_attrs.push(
        Attr {
            name: String::from_str("shaderfilename"),
            value: AttrValue::Str(String::from_str("${DELIGHT}/osl/environmentLight")),
        },
    );
    shader_attrs.push(
        Attr { name: String::from_str("intensity"), value: AttrValue::Stops(exposure.unwrap_or(0)) },
    );
    shader_attrs.push(Attr { name: String::from_str("image"), value: AttrValue::Str(texture) });
    p.attribute_sets.push(AttrSet { handle: p.shader.clone(), attrs: shader_attrs });

    if args.len() > 0 {
        p.attribute_sets.push(AttrSet { handle: p.shader.clone(), attrs: args });
    }
    p
}

/// Plans a procedural sky environment light: the base rig, whose
/// shader is then pointed at the built-in physically-based sky shader
/// with an intensity of two raised to `exposure` stops (`None` meaning
/// zero stops). Caller-supplied `args` are written after the computed
/// attributes, so they take precedence.
///
/// `exposure` is the bit pattern of a single-precision value in stops.
pub fn environment_sky(
    handle: Option<String>,
    fresh: FreshHandles,
    angle: Option<u64>,
    exposure: Option<u32>,
    visible: Option<bool>,
    args: Vec<Attr>,
) -> (p: RigPlan)
    ensures
        base_rig(p, fresh, angle.unwrap_or(0), visible.unwrap_or(true)),
        handle matches Some(h) ==> p.root@ == h@,
        handle is None ==> p.root@ == fresh.root@,
        sky_sets(p, exposure.unwrap_or(0), args@),
{
    let mut p = environment(handle, fresh, angle, visible);

    let mut shader_attrs: Vec<Attr> = Vec::new();
    shader_attrs.push(
        Attr {
            name: String::from_str("shaderfilename"),
            value: AttrValue::Str(String::from_str("${DELIGHT}/osl/dlSky")),
        },
    );
    shader_attrs.push(
        Attr { name: String::from_str("intensity"), value: AttrValue::Stops(exposure.unwrap_or(0)) },
    );
    p.attribute_sets.push(AttrSet { handle: p.shader.clone(), attrs: shader_attrs });

    if args.len() > 0 {
        p.attribute_sets.push(AttrSet { handle: p.shader.clone(), attrs: args });
    }
    p
}

} // verus!
