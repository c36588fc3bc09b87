//! The plan a composition call produces: an explicit record of every
//! node creation, connection and attribute write the rig needs, in the
//! order an executor must replay them against the scene context.
//!
//! The scene context's attribute store is last-write-wins per node and
//! name, across calls. [`effective_value`] says which value a plan
//! leaves under a name once it has been replayed, and
//! [`RigPlan::effective_attribute`] computes it.

use vstd::prelude::*;
use crate::attr::{Attr, AttrValue, copy_value, last_value, lemma_last_value_push};

verus! {

/// The scene node types a rig is made of.
#[derive(Debug, PartialEq, Eq)]
pub enum NodeKind {
    /// A transform node rotating about the vertical (up) axis.
    ///
    /// The held value is the bit pattern of a double-precision angle in
    /// degrees. The rotation written to the scene is that angle times a
    /// full turn per 90 degrees — four times a standard
    /// degrees-to-radians conversion. The factor is kept deliberately:
    /// existing scenes depend on it.
    Rotation { angle_degrees_bits: u64 },
    /// An environment light node.
    Environment,
    /// An attributes node: a bundle of named values attached to a light
    /// to control per-instance toggles such as camera visibility.
    Attributes,
    /// A shader node.
    Shader,
}

/// One node to create: its handle, its type, and the attributes set at
/// creation.
#[derive(Debug, PartialEq, Eq)]
pub struct NodeSpec {
    pub handle: String,
    pub kind: NodeKind,
    pub attrs: Vec<Attr>,
}

/// One connection to make: `source` becomes a child of `target` under
/// `slot`, or under the context's default relation when `slot` is
/// `None`.
#[derive(Debug, PartialEq, Eq)]
pub struct Connection {
    pub source: String,
    pub target: String,
    pub slot: Option<String>,
}

/// One call of the context's set-attribute primitive: the attributes to
/// write on the node named by `handle`.
#[derive(Debug, PartialEq, Eq)]
pub struct AttrSet {
    pub handle: String,
    pub attrs: Vec<Attr>,
}

/// Everything one composition call asks of the scene context, plus the
/// two handles the caller keeps: the rig root and the shader.
#[derive(Debug, PartialEq, Eq)]
pub struct RigPlan {
    /// Nodes to create, in order.
    pub nodes: Vec<NodeSpec>,
    /// Connections to make, in order, after the nodes exist.
    pub connections: Vec<Connection>,
    /// Set-attribute calls to issue, in order, after the connections.
    pub attribute_sets: Vec<AttrSet>,
    /// The handle the caller reuses to re-address the whole rig.
    pub root: String,
    /// The handle of the rig's shader node, the point of further
    /// customization.
    pub shader: String,
}

/// The attribute entries that creating `nodes` writes on the node named
/// `h`, in order.
pub open spec fn creation_writes(nodes: Seq<NodeSpec>, h: Seq<char>) -> Seq<Attr>
    decreases nodes.len(),
{
    if nodes.len() == 0 {
        Seq::empty()
    } else {
        creation_writes(nodes.drop_last(), h) + (if nodes.last().handle@ == h {
            nodes.last().attrs@
        } else {
            Seq::<Attr>::empty()
        })
    }
}

/// The attribute entries that replaying `sets` writes on the node named
/// `h`, in order.
pub open spec fn set_writes(sets: Seq<AttrSet>, h: Seq<char>) -> Seq<Attr>
    decreases sets.len(),
{
    if sets.len() == 0 {
        Seq::empty()
    } else {
        set_writes(sets.drop_last(), h) + (if sets.last().handle@ == h {
            sets.last().attrs@
        } else {
            Seq::<Attr>::empty()
        })
    }
}

/// Every attribute entry the whole plan writes on the node named `h`,
/// in replay order: creation attributes first, then the set-attribute
/// calls.
pub open spec fn writes(p: RigPlan, h: Seq<char>) -> Seq<Attr> {
    creation_writes(p.nodes@, h) + set_writes(p.attribute_sets@, h)
}

/// The value observed under `name` on the node named `h` once the plan
/// has been replayed: the last write wins.
pub open spec fn effective_value(p: RigPlan, h: Seq<char>, name: Seq<char>) -> Option<AttrValue> {
    last_value(writes(p, h), name)
}

/// Creating one more node extends the writes by that node's
/// contribution.
proof fn lemma_creation_writes_step(nodes: Seq<NodeSpec>, h: Seq<char>, i: int)
    requires
        0 <= i < nodes.len(),
    ensures
        creation_writes(nodes.take(i + 1), h) == creation_writes(nodes.take(i), h) + (if nodes[i].handle@ == h {
            nodes[i].attrs@
        } else {
            Seq::<Attr>::empty()
        }),
{
    assert(nodes.take(i + 1).drop_last() =~= nodes.take(i));
    assert(nodes.take(i + 1).last() == nodes[i]);
}

/// Replaying one more set-attribute call extends the writes by its
/// contribution.
proof fn lemma_set_writes_step(sets: Seq<AttrSet>, h: Seq<char>, i: int)
    requires
        0 <= i < sets.len(),
    ensures
        set_writes(sets.take(i + 1), h) == set_writes(sets.take(i), h) + (if sets[i].handle@ == h {
            sets[i].attrs@
        } else {
            Seq::<Attr>::empty()
        }),
{
    assert(sets.take(i + 1).drop_last() =~= sets.take(i));
    assert(sets.take(i + 1).last() == sets[i]);
}

/// Nodes that write nothing on `h` — their handle differs or their
/// creation attribute list is empty — leave no creation writes on `h`.
pub proof fn lemma_creation_writes_empty(nodes: Seq<NodeSpec>, h: Seq<char>)
    requires
        forall|i: int|
            0 <= i < nodes.len() ==> nodes[i].handle@ != h || nodes[i].attrs@.len() == 0,
    ensures
        creation_writes(nodes, h) == Seq::<Attr>::empty(),
    decreases nodes.len(),
{
    if nodes.len() > 0 {
        lemma_creation_writes_empty(nodes.drop_last(), h);
        if nodes.last().handle@ == h {
            assert(nodes.last() == nodes[nodes.len() - 1]);
            assert(nodes.last().attrs@ =~= Seq::<Attr>::empty());
        }
        assert(creation_writes(nodes, h) =~= Seq::<Attr>::empty());
    }
}

/// Scan one attribute list in write order, carrying the value the
/// writes before it left under `name`.
fn scan_attrs(
    r0: Option<AttrValue>,
    attrs: &Vec<Attr>,
    name: &String,
    Ghost(prefix): Ghost<Seq<Attr>>,
) -> (r: Option<AttrValue>)
    requires
        r0 == last_value(prefix, name@),
    ensures
        r == last_value(prefix + attrs@, name@),
{
    let mut r = r0;
    let mut j: usize = 0;
    while j < attrs.len()
        invariant
            j <= attrs.len(),
            r == last_value(prefix + attrs@.take(j as int), name@),
        decreases attrs.len() - j,
    {
        proof {
            assert(prefix + attrs@.take(j + 1) =~= (prefix + attrs@.take(j as int)).push(
                attrs@[j as int],
            ));
            lemma_last_value_push(prefix + attrs@.take(j as int), attrs@[j as int], name@);
        }
        if attrs[j].name == *name {
            r = Some(copy_value(&attrs[j].value));
        }
        j = j + 1;
    }
    proof {
        assert(prefix + attrs@.take(attrs@.len() as int) =~= prefix + attrs@);
    }
    r
}

impl RigPlan {
    /// The two handles a caller keeps after composing a rig: the rig
    /// root and the shader.
    pub fn handles(&self) -> (r: (String, String))
        ensures
            r.0@ == self.root@,
            r.1@ == self.shader@,
    {
        (self.root.clone(), self.shader.clone())
    }

    /// The value observed under `name` on the node named `handle` once
    /// this plan has been replayed, `None` when the plan never writes
    /// the name there.
    pub fn effective_attribute(&self, handle: &String, name: &String) -> (r: Option<AttrValue>)
        ensures
            r == effective_value(*self, handle@, name@),
    {
        let ghost h = handle@;
        let mut r: Option<AttrValue> = None;
        proof {
            assert(self.nodes@.take(0) =~= Seq::<NodeSpec>::empty());
        }
        let mut i: usize = 0;
        while i < self.nodes.len()
            invariant
                i <= self.nodes.len(),
                h == handle@,
                r == last_value(creation_writes(self.nodes@.take(i as int), h), name@),
            decreases self.nodes.len() - i,
        {
            proof {
                lemma_creation_writes_step(self.nodes@, h, i as int);
            }
            if self.nodes[i].handle == *handle {
                r = scan_attrs(
                    r,
                    &self.nodes[i].attrs,
                    name,
                    Ghost(creation_writes(self.nodes@.take(i as int), h)),
                );
            } else {
                proof {
                    assert(creation_writes(self.nodes@.take(i + 1), h) =~= creation_writes(
                        self.nodes@.take(i as int),
                        h,
                    ));
                }
            }
            i = i + 1;
        }
        let ghost cw = creation_writes(self.nodes@, h);
        proof {
            assert(self.nodes@.take(self.nodes@.len() as int) =~= self.nodes@);
            assert(self.attribute_sets@.take(0) =~= Seq::<AttrSet>::empty());
            assert(cw + set_writes(self.attribute_sets@.take(0), h) =~= cw);
        }
        let mut k: usize = 0;
        while k < self.attribute_sets.len()
            invariant
                k <= self.attribute_sets.len(),
                h == handle@,
                cw == creation_writes(self.nodes@, h),
                r == last_value(cw + set_writes(self.attribute_sets@.take(k as int), h), name@),
            decreases self.attribute_sets.len() - k,
        {
            proof {
                lemma_set_writes_step(self.attribute_sets@, h, k as int);
            }
            if self.attribute_sets[k].handle == *handle {
                proof {
                    assert(cw + set_writes(self.attribute_sets@.take(k + 1), h) =~= (cw
                        + set_writes(self.attribute_sets@.take(k as int), h))
                        + self.attribute_sets@[k as int].attrs@);
                }
                r = scan_attrs(
                    r,
                    &self.attribute_sets[k].attrs,
                    name,
                    Ghost(cw + set_writes(self.attribute_sets@.take(k as int), h)),
                );
            } else {
                proof {
                    assert(cw + set_writes(self.attribute_sets@.take(k + 1), h) =~= cw
                        + set_writes(self.attribute_sets@.take(k as int), h));
                }
            }
            k = k + 1;
        }
        proof {
            assert(self.attribute_sets@.take(self.attribute_sets@.len() as int)
                =~= self.attribute_sets@);
        }
        r
    }
}

} // verus!
