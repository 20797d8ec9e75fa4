use vstd::prelude::*;

use crate::gfx::raw::config::{Attribute, Order, StepMode};
use crate::gfx::raw::layout::BindGroupLayout;

verus! {

/// How the vertices of one vertex buffer are laid out.
#[derive(Debug, Clone)]
pub struct VertexBufferLayout {
    pub array_stride: u64,
    pub step_mode: StepMode,
    pub attributes: Vec<Attribute>,
}

/// What a pipeline is made from.
#[derive(Debug, Clone)]
pub struct PipelineConfig {
    pub shader_source: String,
    pub vertex_buffer_layouts: Vec<VertexBufferLayout>,
    pub bind_group_layouts: Vec<(Order, BindGroupLayout)>,
    pub depth_stencil_write_enabled: bool,
}

impl PipelineConfig {
    /// The order in which the pipeline takes its bind group layouts.
    pub fn layout_order(&self) -> (order: Vec<usize>)
        ensures
            arranges(order@, self.bind_group_layouts@.len()),
            rises(order@, orders(self.bind_group_layouts@)),
    {
        layout_order(&self.bind_group_layouts)
    }
}

/// Whether `order` names each of the first `count` places once.
pub open spec fn arranges(order: Seq<usize>, count: nat) -> bool {
    &&& order.len() == count
    &&& order.no_duplicates()
    &&& forall|i: int| 0 <= i < order.len() ==> #[trigger] order[i] < count
}

/// Whether `order` takes the numbers `keys` in rising order, and equal
/// numbers in the order in which they stand.
pub open spec fn rises(order: Seq<usize>, keys: Seq<Order>) -> bool {
    forall|i: int, j: int|
        0 <= i < j < order.len() ==> {
            let a = #[trigger] order[i] as int;
            let b = #[trigger] order[j] as int;
            0 <= a < keys.len() && 0 <= b < keys.len() && (keys[a] < keys[b] || (keys[a] == keys[b] && a < b))
        }
}

/// The numbers of the bind group layouts.
pub open spec fn orders(layouts: Seq<(Order, BindGroupLayout)>) -> Seq<Order> {
    Seq::new(layouts.len(), |i: int| layouts[i].0)
}

/// The order in which a pipeline takes its bind group layouts: by their
/// numbers, the lowest first, and layouts of one number in the order in
/// which they were given. The result holds the places of the layouts in
/// `layouts`.
pub fn layout_order(layouts: &Vec<(Order, BindGroupLayout)>) -> (order: Vec<usize>)
    ensures
        arranges(order@, layouts@.len()),
        rises(order@, orders(layouts@)),
{
    let ghost keys = orders(layouts@);
    let mut order: Vec<usize> = Vec::new();
    let mut next: usize = 0;
    while next < layouts.len()
        invariant
            next <= layouts.len(),
            keys == orders(layouts@),
            arranges(order@, next as nat),
            rises(order@, keys),
        decreases layouts.len() - next,
    {
        let key = layouts[next].0;
        let mut at: usize = 0;
        while at < order.len() && layouts[order[at]].0 <= key
            invariant
                at <= order.len(),
                next < layouts.len(),
                key == layouts@[next as int].0,
                keys == orders(layouts@),
                arranges(order@, next as nat),
                forall|i: int| 0 <= i < at ==> keys[#[trigger] order@[i] as int] <= key,
            decreases order.len() - at,
        {
            at += 1;
        }
        let ghost before = order@;
        order.insert(at, next);
        proof {
            assert forall|i: int| at < i < order@.len() implies keys[#[trigger] order@[i] as int] > key by {
                assert(order@[i] == before[i - 1]);
                if i - 1 > at {
                    assert(before[at as int] == before[at as int] && before[i - 1] == before[i - 1]);
                }
            }
            assert forall|i: int, j: int| 0 <= i < j < order@.len() implies {
                let a = #[trigger] order@[i] as int;
                let b = #[trigger] order@[j] as int;
                0 <= a < keys.len() && 0 <= b < keys.len() && (keys[a] < keys[b] || (keys[a] == keys[b] && a < b))
            } by {
                let a = order@[i] as int;
                let b = order@[j] as int;
                if i < at && j < at {
                    assert(a == before[i] && b == before[j]);
                } else if i < at && j == at {
                    assert(a == before[i]);
                } else if i < at && j > at {
                    assert(a == before[i] && b == before[j - 1]);
                } else if i == at {
                    assert(b == before[j - 1]);
                } else {
                    assert(a == before[i - 1] && b == before[j - 1]);
                }
            }
            assert forall|i: int, j: int| 0 <= i < j < order@.len() implies order@[i] != order@[j] by {
                if i != at && j != at {
                    let x = if i < at {
                        i
                    } else {
                        i - 1
                    };
                    let y = if j < at {
                        j
                    } else {
                        j - 1
                    };
                    assert(order@[i] == before[x] && order@[j] == before[y]);
                } else if i == at {
                    assert(order@[j] == before[j - 1]);
                } else {
                    assert(order@[i] == before[i]);
                }
            }
            assert forall|i: int| 0 <= i < order@.len() implies #[trigger] order@[i] < next + 1 by {
                if i < at {
                    assert(order@[i] == before[i]);
                } else if i > at {
                    assert(order@[i] == before[i - 1]);
                }
            }
        }
        next += 1;
    }
    order
}

} // verus!
