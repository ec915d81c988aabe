//! Sizes of the fractal: vertices per depth, GPU buffer sizes, compute
//! dispatch grids and the drawn index range.

use vstd::prelude::*;

verus! {

/// Bytes of one single-precision scalar.
pub const SCALAR_SIZE: usize = 4;

/// Bytes of one double-precision scalar.
pub const WIDE_SCALAR_BYTES: u64 = 8;

/// Bytes of the camera uniform buffer: a 4x4 matrix of double-precision scalars.
pub const CAMERA_BUFFER_SIZE: u64 = 16 * WIDE_SCALAR_BYTES;

/// Bytes reserved in the colour buffer for each level of the fractal: four
/// double-precision scalars.
pub const COLOUR_SLOT_BYTES: u64 = 4 * WIDE_SCALAR_BYTES;

/// Bytes of one colour written into the colour buffer: four single-precision
/// scalars (red, green, blue, alpha).
pub const COLOUR_BYTES: u64 = 16;

/// Compute workgroups are laid out in rows of this many along x.
pub const DISPATCH_ROW: u32 = 256;

/// First index drawn of the fractal's index buffer.
pub const FIRST_DRAWN_INDEX: u32 = 6;

/// Bytes of one entry of the index buffer (a 32-bit index).
pub const INDEX_BYTES: u64 = 4;

/// The largest depth for which every size of this module is defined: the
/// vertex and index buffers of a deeper fractal do not fit in 64 bits.
pub const MAX_DEPTH: u32 = 37;

/// `3` to the power `n`.
pub open spec fn pow3(n: nat) -> nat
    decreases n,
{
    if n == 0 {
        1
    } else {
        3 * pow3((n - 1) as nat)
    }
}

/// `1 + 3 + 9 + ... + 3^(n - 1)`: the vertices of the first `n` levels of a
/// fractal in which every vertex branches into three.
pub open spec fn levels_total(n: nat) -> nat
    decreases n,
{
    if n == 0 {
        0
    } else {
        levels_total((n - 1) as nat) + pow3((n - 1) as nat)
    }
}

/// Number of compute workgroups run for level `level` (from 1).
pub open spec fn spec_workgroup_size(level: nat) -> nat {
    pow3((level - 1) as nat)
}

/// Number of vertices of a fractal of depth `depth`.
pub open spec fn spec_vertex_count(depth: nat) -> nat {
    pow3(depth + 1) / 2
}

/// Sum of the workgroup sizes of levels `1..=depth`.
pub open spec fn dispatched_total(depth: nat) -> nat
    decreases depth,
{
    if depth == 0 {
        0
    } else {
        dispatched_total((depth - 1) as nat) + spec_workgroup_size(depth)
    }
}

/// The value of `x` kept in 32 bits, as a cast to `u32` keeps it.
pub open spec fn low32(x: int) -> int {
    x % 0x1_0000_0000
}

/// The dispatch grid `(x, y, z)` that encodes `workgroups` (kept in 32 bits):
/// the remainder by a row along x, the number of whole rows along y, each
/// plus one.
pub open spec fn spec_dispatch(workgroups: int) -> (u32, u32, u32) {
    let w = low32(workgroups);
    ((w % 256 + 1) as u32, (w / 256 + 1) as u32, 1u32)
}

/// Values of `pow3` at the bounds the functions of this module work with.
pub proof fn lemma_pow3_values()
    ensures
        pow3(20) == 3486784401,
        pow3(21) == 10460353203,
        pow3(38) == 1350851717672992089,
        pow3(39) == 4052555153018976267,
        pow3(40) == 12157665459056928801,
{
    reveal_with_fuel(pow3, 41);
}

/// `pow3` never decreases.
pub proof fn lemma_pow3_monotone(a: nat, b: nat)
    requires
        a <= b,
    ensures
        pow3(a) <= pow3(b),
    decreases b,
{
    if a < b {
        lemma_pow3_monotone(a, (b - 1) as nat);
    }
}

/// `pow3(n)` is odd and exactly one more than twice the vertices of the
/// levels below `n`.
pub proof fn lemma_pow3_odd(n: nat)
    ensures
        pow3(n) == 2 * levels_total(n) + 1,
    decreases n,
{
    if n > 0 {
        lemma_pow3_odd((n - 1) as nat);
    }
}

/// `3^e`, for exponents whose power fits in 64 bits.
fn pow3_u64(e: u32) -> (r: u64)
    requires
        e <= 40,
    ensures
        r == pow3(e as nat),
{
    proof {
        lemma_pow3_values();
        lemma_pow3_monotone(e as nat, 40);
    }
    let mut r: u64 = 1;
    let mut i: u32 = 0;
    while i < e
        invariant
            i <= e,
            e <= 40,
            r == pow3(i as nat),
            pow3(e as nat) <= u64::MAX,
        decreases e - i,
    {
        proof {
            lemma_pow3_monotone((i + 1) as nat, e as nat);
        }
        r = r * 3;
        i = i + 1;
    }
    r
}

/// Bytes of one fractal vertex: a 2-component position and two scalars.
pub fn vertex_size() -> (r: usize)
    ensures
        r == 4 * SCALAR_SIZE,
{
    SCALAR_SIZE * 2 + SCALAR_SIZE * 2
}

/// Number of compute workgroups for level `depth` of the fractal:
/// `3^(depth - 1)`.
pub fn workgroup_size_for_depth(depth: u32) -> (r: u64)
    requires
        1 <= depth <= 41,
    ensures
        r == spec_workgroup_size(depth as nat),
        r == pow3((depth - 1) as nat),
{
    pow3_u64(depth - 1)
}

/// Number of vertices of a fractal of depth `depth`: `3^(depth + 1) / 2`,
/// that is `1 + 3 + ... + 3^depth`.
pub fn vertex_count_for_depth(depth: u32) -> (r: u64)
    requires
        depth <= 39,
    ensures
        r == spec_vertex_count(depth as nat),
        r == pow3((depth + 1) as nat) / 2,
{
    pow3_u64(depth + 1) / 2
}

/// Bytes of the vertex buffer for a fractal of depth `depth`.
pub fn vertex_buffer_size(depth: u32) -> (r: u64)
    requires
        depth <= MAX_DEPTH,
    ensures
        r == spec_vertex_count(depth as nat) * 16,
{
    proof {
        lemma_pow3_values();
        lemma_pow3_monotone(depth as nat + 1, 38);
    }
    vertex_count_for_depth(depth) * vertex_size() as u64
}

/// Bytes of the index buffer for a fractal of depth `depth` (sized like the
/// vertex buffer).
pub fn index_buffer_size(depth: u32) -> (r: u64)
    requires
        depth <= MAX_DEPTH,
    ensures
        r == spec_vertex_count(depth as nat) * 16,
{
    vertex_buffer_size(depth)
}

/// Bytes of the colour buffer for a fractal of depth `depth`.
pub fn colour_buffer_size(depth: u32) -> (r: u64)
    ensures
        r == COLOUR_SLOT_BYTES * depth,
{
    COLOUR_SLOT_BYTES * depth as u64
}

/// The compute dispatch grid `(x, y, z)` for level `level`: its workgroup
/// count, kept in 32 bits, split into rows of 256 along x.
pub fn dispatch_for_level(level: u32) -> (r: (u32, u32, u32))
    requires
        1 <= level <= 41,
    ensures
        r == spec_dispatch(spec_workgroup_size(level as nat) as int),
        r.0 == pow3((level - 1) as nat) % 0x1_0000_0000 % 256 + 1,
        r.1 == pow3((level - 1) as nat) % 0x1_0000_0000 / 256 + 1,
        r.2 == 1,
{
    let w = workgroup_size_for_depth(level);
    let workgroups = #[verifier::truncate] (w as u32);
    assert(w as u32 == w % 0x1_0000_0000) by (bit_vector);
    let y = workgroups / DISPATCH_ROW + 1;
    let x = workgroups % DISPATCH_ROW + 1;
    (x, y, 1)
}

/// The dispatch grids of the vertex compute pass, one per level `1..=depth`,
/// in order.
pub fn vertex_dispatches(depth: u32) -> (r: Vec<(u32, u32, u32)>)
    requires
        depth <= 41,
    ensures
        r.len() == depth,
        forall|i: int|
            0 <= i < depth ==> #[trigger] r[i] == spec_dispatch(
                spec_workgroup_size((i + 1) as nat) as int,
            ),
{
    let mut r: Vec<(u32, u32, u32)> = Vec::new();
    let mut i: u32 = 0;
    while i < depth
        invariant
            i <= depth,
            depth <= 41,
            r.len() == i,
            forall|k: int|
                0 <= k < i ==> #[trigger] r[k] == spec_dispatch(
                    spec_workgroup_size((k + 1) as nat) as int,
                ),
        decreases depth - i,
    {
        let d = dispatch_for_level(i + 1);
        r.push(d);
        i = i + 1;
    }
    r
}

/// The range `start..end` of indices drawn for a fractal of depth `depth`:
/// from the sixth to twice the vertex count less two, kept in 32 bits.
pub fn fractal_index_range(depth: u32) -> (r: (u32, u32))
    requires
        depth <= 39,
    ensures
        r.0 == FIRST_DRAWN_INDEX,
        r.1 == low32(2 * spec_vertex_count(depth as nat) - 2),
        r.0 == 6,
        r.1 == (2 * (pow3((depth + 1) as nat) / 2) - 2) % 0x1_0000_0000,
{
    proof {
        lemma_pow3_values();
        lemma_pow3_monotone(depth as nat + 1, 40);
        lemma_pow3_odd(depth as nat + 1);
    }
    let end = vertex_count_for_depth(depth) * 2 - 2;
    let end32 = #[verifier::truncate] (end as u32);
    assert(end as u32 == end % 0x1_0000_0000) by (bit_vector);
    (FIRST_DRAWN_INDEX, end32)
}

/// The vertex count of a depth is the number of vertices of its levels
/// `0..=depth` when every vertex branches into three:
/// `3^(depth + 1) / 2 == 1 + 3 + ... + 3^depth`.
pub proof fn lemma_vertex_count_is_level_sum(depth: nat)
    ensures
        spec_vertex_count(depth) == levels_total(depth + 1),
{
    lemma_pow3_odd(depth + 1);
}

/// The vertices of a fractal are its root and three per workgroup of the
/// levels `1..=depth` that the vertex compute pass dispatches.
pub proof fn lemma_vertices_from_dispatches(depth: nat)
    ensures
        spec_vertex_count(depth) == 1 + 3 * dispatched_total(depth),
    decreases depth,
{
    lemma_vertex_count_is_level_sum(depth);
    if depth > 0 {
        lemma_vertices_from_dispatches((depth - 1) as nat);
        lemma_vertex_count_is_level_sum((depth - 1) as nat);
        assert(pow3(depth) == 3 * pow3((depth - 1) as nat));
    }
}

/// Going one level deeper adds `3^depth` vertices, the workgroup count of the
/// next level.
pub proof fn lemma_vertex_count_step(depth: nat)
    requires
        depth >= 1,
    ensures
        spec_vertex_count(depth) == spec_vertex_count((depth - 1) as nat)
            + spec_workgroup_size(depth + 1),
{
    lemma_vertex_count_is_level_sum(depth);
    lemma_vertex_count_is_level_sum((depth - 1) as nat);
}

/// A dispatch grid encodes its workgroup count: `x` lies in `1..=256`, `z` is
/// one, and `(x - 1) + 256 * (y - 1)` gives back the count (kept in 32 bits).
pub proof fn lemma_dispatch_encodes_workgroups(workgroups: int)
    ensures
        1 <= spec_dispatch(workgroups).0 <= DISPATCH_ROW,
        spec_dispatch(workgroups).2 == 1,
        (spec_dispatch(workgroups).0 - 1) + DISPATCH_ROW * (spec_dispatch(workgroups).1 - 1)
            == low32(workgroups),
{
}

/// For levels up to 21 no workgroup count is cut to 32 bits, so the grid of
/// a level encodes exactly `3^(level - 1)`.
pub proof fn lemma_level_dispatch_exact(level: nat)
    requires
        1 <= level <= 21,
    ensures
        (spec_dispatch(spec_workgroup_size(level) as int).0 - 1) + DISPATCH_ROW * (
        spec_dispatch(spec_workgroup_size(level) as int).1 - 1) == spec_workgroup_size(level),
{
    lemma_pow3_values();
    lemma_pow3_monotone((level - 1) as nat, 20);
    lemma_dispatch_encodes_workgroups(spec_workgroup_size(level) as int);
}

/// The drawn index range never reaches past the end of the index buffer, and
/// for depths `1..=19` (where nothing is cut to 32 bits) it is a proper range
/// ending at twice the vertex count less two.
pub proof fn lemma_index_range_within_buffer(depth: nat)
    ensures
        low32(2 * spec_vertex_count(depth) - 2) * INDEX_BYTES <= spec_vertex_count(depth) * 16,
        1 <= depth <= 19 ==> FIRST_DRAWN_INDEX <= low32(2 * spec_vertex_count(depth) - 2)
            == 2 * spec_vertex_count(depth) - 2,
{
    lemma_pow3_values();
    lemma_pow3_odd(depth + 1);
    if depth <= 19 {
        lemma_pow3_monotone(depth + 1, 20);
    }
    if depth >= 1 {
        lemma_pow3_monotone(2, depth + 1);
        reveal_with_fuel(pow3, 3);
    }
}

/// The colours written for a fractal of depth `depth >= 1` (one per level
/// `0..=depth`) fit in its colour buffer.
pub proof fn lemma_colours_fit(depth: nat)
    requires
        depth >= 1,
    ensures
        (depth + 1) * COLOUR_BYTES <= COLOUR_SLOT_BYTES * depth,
{
    assert(COLOUR_BYTES == 16 && COLOUR_SLOT_BYTES == 32);
}

/// `3^n` by its recurrence: one at zero, tripled at each step; in
/// particular level 1 runs one workgroup and each level three times as many
/// as the one before, and a fractal of depth zero has a single vertex.
pub proof fn lemma_sizes_recurrence(n: nat)
    ensures
        pow3(0) == 1,
        pow3(n + 1) == 3 * pow3(n),
        spec_workgroup_size(1) == 1,
        spec_workgroup_size(n + 2) == 3 * spec_workgroup_size(n + 1),
        spec_vertex_count(0) == 1,
{
    reveal_with_fuel(pow3, 2);
}

/// Keeping a value in 32 bits leaves values below `2^32` unchanged, always
/// gives a value below `2^32`, and only drops whole multiples of `2^32`.
pub proof fn lemma_low32(x: int)
    ensures
        0 <= x < 0x1_0000_0000 ==> low32(x) == x,
        0 <= low32(x) < 0x1_0000_0000,
        (x - low32(x)) % 0x1_0000_0000 == 0,
{
}

} // verus!
