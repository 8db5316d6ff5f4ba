use vstd::prelude::*;

use crate::handles::BufferHandle;
use crate::resources::{index_range_fits, Material, Mesh};

verus! {

/// The pass a render object is drawn in.
#[derive(Clone, Copy, Debug, PartialEq, Eq, Structural)]
pub enum PassType {
    Opaque,
    Transparent,
}

/// One frame's request to draw a mesh with a material, once per instance
/// transform held in `instances`.
#[derive(Clone, Copy, Debug, PartialEq, Eq, Structural)]
pub struct RenderObject {
    pub mesh: Mesh,
    pub material: Material,
    pub pass: PassType,
    pub instances: BufferHandle,
    pub instances_len: u32,
}

/// The objects of `objects` that belong to `pass`, in their order.
pub open spec fn in_pass(objects: Seq<RenderObject>, pass: PassType) -> Seq<RenderObject>
    decreases objects.len(),
{
    if objects.len() == 0 {
        seq![]
    } else {
        let earlier = in_pass(objects.drop_last(), pass);
        if objects.last().pass == pass {
            earlier.push(objects.last())
        } else {
            earlier
        }
    }
}

/// Every object's index range ends within 32 bits.
pub open spec fn index_ranges_fit(objects: Seq<RenderObject>) -> bool {
    forall|i: int| 0 <= i < objects.len() ==> index_range_fits(#[trigger] objects[i].mesh)
}

/// Selecting a pass keeps only objects of the list.
pub proof fn in_pass_keeps_fit(objects: Seq<RenderObject>, pass: PassType)
    requires
        index_ranges_fit(objects),
    ensures
        index_ranges_fit(in_pass(objects, pass)),
    decreases objects.len(),
{
    if objects.len() > 0 {
        let earlier = objects.drop_last();
        assert(index_ranges_fit(earlier)) by {
            assert forall|i: int| 0 <= i < earlier.len() implies index_range_fits(
                #[trigger] earlier[i].mesh,
            ) by {
                assert(earlier[i] == objects[i]);
            }
        }
        in_pass_keeps_fit(earlier, pass);
        assert(index_range_fits(objects[objects.len() - 1].mesh));
    }
}

} // verus!
