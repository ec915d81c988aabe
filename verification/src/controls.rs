//! The keyboard controls of the fractal's depth.

use vstd::prelude::*;

verus! {

/// A key that changes the depth of the fractal.
#[derive(Clone, Copy, Debug, PartialEq, Eq, Structural)]
pub enum DepthKey {
    /// Deepen the fractal by one level.
    Up,
    /// Make the fractal one level shallower, down to a single level.
    Down,
}

/// The depth after `key` is pressed at depth `depth`.
pub open spec fn spec_depth_after_key(depth: nat, key: DepthKey) -> nat {
    match key {
        DepthKey::Up => depth + 1,
        DepthKey::Down => if depth > 1 {
            (depth - 1) as nat
        } else {
            depth
        },
    }
}

/// The depth after `key` is pressed at depth `depth`: up adds a level, down
/// removes one unless a single level is left.
pub fn depth_after_key(depth: u32, key: DepthKey) -> (r: u32)
    requires
        key == DepthKey::Up ==> depth < u32::MAX,
    ensures
        r == spec_depth_after_key(depth as nat, key),
        key == DepthKey::Up ==> r == depth + 1,
        key == DepthKey::Down && depth > 1 ==> r == depth - 1,
        key == DepthKey::Down && depth <= 1 ==> r == depth,
{
    match key {
        DepthKey::Up => depth + 1,
        DepthKey::Down => if depth > 1 {
            depth - 1
        } else {
            depth
        },
    }
}

/// Pressing down never takes a depth of at least one below one.
pub proof fn lemma_down_keeps_a_level(depth: nat)
    requires
        depth >= 1,
    ensures
        spec_depth_after_key(depth, DepthKey::Down) >= 1,
{
}

/// Down undoes up from any depth of at least one, and up undoes down from
/// any depth of at least two.
pub proof fn lemma_keys_undo_each_other(depth: nat)
    ensures
        depth >= 1 ==> spec_depth_after_key(
            spec_depth_after_key(depth, DepthKey::Up),
            DepthKey::Down,
        ) == depth,
        depth >= 2 ==> spec_depth_after_key(
            spec_depth_after_key(depth, DepthKey::Down),
            DepthKey::Up,
        ) == depth,
{
}

/// Up adds exactly one level at every depth; down removes exactly one level
/// from every depth above one and leaves depths one and zero as they are.
pub proof fn lemma_keys_step_by_one(depth: nat)
    ensures
        spec_depth_after_key(depth, DepthKey::Up) == depth + 1,
        depth > 1 ==> spec_depth_after_key(depth, DepthKey::Down) == depth - 1,
        depth <= 1 ==> spec_depth_after_key(depth, DepthKey::Down) == depth,
{
}

} // verus!
