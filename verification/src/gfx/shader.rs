use vstd::prelude::*;
use vstd::string::StringExecFns;

use crate::text::{decimal, to_decimal};

verus! {

/// The declarations of the texture and the sampler of one slot, in the bind
/// group after that of the slot before.
pub open spec fn slot_bindings(slot: nat) -> Seq<char> {
    "\n@group("@ + decimal(slot + 1) + ") @binding(0) var texture_"@ + decimal(slot)
        + ": texture_2d<f32>;\n@group("@ + decimal(slot + 1) + ") @binding(1) var texture_sampler_"@ + decimal(
        slot,
    ) + ": sampler;\n                    "@
}

/// The declarations of the first `slots` slots, in order.
pub open spec fn bindings_before(slots: nat) -> Seq<char>
    decreases slots,
{
    if slots == 0 {
        Seq::empty()
    } else {
        bindings_before((slots - 1) as nat) + slot_bindings((slots - 1) as nat)
    }
}

/// The bind groups of a shader that samples `capacity` textures.
pub open spec fn bind_groups_source(capacity: nat) -> Seq<char> {
    bindings_before(capacity) + "\n"@
}

/// The branch of the fragment shader that samples the texture of one slot.
pub open spec fn slot_branch(slot: nat) -> Seq<char> {
    "\nif (in.texture_index == "@ + decimal(slot) + ") {\nout = textureSample(texture_"@ + decimal(slot)
        + ", texture_sampler_"@ + decimal(slot) + ", in.texcoord) * in.color;\n}\n                "@
}

/// The branches of the first `slots` slots, in order.
pub open spec fn branches_before(slots: nat) -> Seq<char>
    decreases slots,
{
    if slots == 0 {
        Seq::empty()
    } else {
        branches_before((slots - 1) as nat) + slot_branch((slots - 1) as nat)
    }
}

/// The body of a fragment shader that samples `capacity` textures.
pub open spec fn body_source(capacity: nat) -> Seq<char> {
    branches_before(capacity) + "\n"@
}

/// The bind groups of a shader that samples `capacity` textures: for each
/// slot a texture and a sampler, in the bind group after that of the slot
/// before; bind group 0 is the camera's.
pub fn bind_groups(capacity: u32) -> (source: String)
    ensures
        source@ == bind_groups_source(capacity as nat),
{
    let mut source = String::from_str("");
    proof {
        reveal_strlit("");
    }
    assert(source@ =~= bindings_before(0));
    let mut slot: u32 = 0;
    while slot < capacity
        invariant
            slot <= capacity,
            source@ == bindings_before(slot as nat),
        decreases capacity - slot,
    {
        let ghost before = source@;
        let group = to_decimal(slot + 1);
        let name = to_decimal(slot);
        source.append("\n@group(");
        source.append(group.as_str());
        source.append(") @binding(0) var texture_");
        source.append(name.as_str());
        source.append(": texture_2d<f32>;\n@group(");
        source.append(group.as_str());
        source.append(") @binding(1) var texture_sampler_");
        source.append(name.as_str());
        source.append(": sampler;\n                    ");
        assert(source@ =~= before + slot_bindings(slot as nat));
        slot += 1;
    }
    source.append("\n");
    source
}

/// The body of a fragment shader that samples `capacity` textures: for each
/// slot a branch that samples the slot's texture and tints it.
pub fn body(capacity: u32) -> (source: String)
    ensures
        source@ == body_source(capacity as nat),
{
    let mut source = String::from_str("");
    proof {
        reveal_strlit("");
    }
    assert(source@ =~= branches_before(0));
    let mut slot: u32 = 0;
    while slot < capacity
        invariant
            slot <= capacity,
            source@ == branches_before(slot as nat),
        decreases capacity - slot,
    {
        let ghost before = source@;
        let name = to_decimal(slot);
        source.append("\nif (in.texture_index == ");
        source.append(name.as_str());
        source.append(") {\nout = textureSample(texture_");
        source.append(name.as_str());
        source.append(", texture_sampler_");
        source.append(name.as_str());
        source.append(", in.texcoord) * in.color;\n}\n                ");
        assert(source@ =~= before + slot_branch(slot as nat));
        slot += 1;
    }
    source.append("\n");
    source
}

/// `text` with every match of `from` replaced by `to`. Matches are found
/// from the left and do not overlap.
pub open spec fn replaced(text: Seq<char>, from: Seq<char>, to: Seq<char>) -> Seq<char>
    decreases text.len(),
{
    if from.len() == 0 || text.len() < from.len() {
        text
    } else if text.subrange(0, from.len() as int) == from {
        to + replaced(text.skip(from.len() as int), from, to)
    } else {
        seq![text[0]] + replaced(text.skip(1), from, to)
    }
}

/// `str::replace` with a pattern that is not empty: a new text in which
/// every match of the pattern, found from the left and not overlapping, is
/// replaced.
#[verifier::external_body]
fn replace(text: &str, from: &str, to: &str) -> (out: String)
    requires
        from@.len() > 0,
    ensures
        out@ == replaced(text@, from@, to@),
{
    text.replace(from, to)
}

/// The shader of a batch that samples `capacity` textures, made from
/// `template`: the body of the fragment shader stands where the template
/// says `#include_body`, and the bind groups where it says
/// `#include_bind_groups`.
pub open spec fn source_of(template: Seq<char>, capacity: nat) -> Seq<char> {
    replaced(
        replaced(template, "#include_body"@, body_source(capacity)),
        "#include_bind_groups"@,
        bind_groups_source(capacity),
    )
}

/// The shader of a batch that samples `capacity` textures.
pub fn source(template: &str, capacity: u32) -> (shader: String)
    ensures
        shader@ == source_of(template@, capacity as nat),
{
    proof {
        reveal_strlit("#include_body");
        reveal_strlit("#include_bind_groups");
    }
    let with_body = replace(template, "#include_body", body(capacity).as_str());
    replace(with_body.as_str(), "#include_bind_groups", bind_groups(capacity).as_str())
}

} // verus!
