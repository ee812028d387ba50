//! The color cloud: a 256×256×256 counter grid filled from the captured
//! pixels (count), reduced to a dense list of occupied buckets (compact), and
//! drawn either from GPU-written indirect arguments or by primitive expansion.
use vstd::prelude::*;
use crate::command_list::{ceil_div, div_round_up};
use crate::state::{ColorCloudMode, ColorSpace};

verus! {

/// Buckets along each axis of the color cube.
pub const CUBE_SIDE: u32 = 256;

/// Buckets in the whole color cube.
pub const NUM_BUCKETS: usize = 16777216;

/// Threads along each axis of one count-pass thread group.
pub const COUNT_THREAD: u32 = 8;

/// Buckets along each axis that one compaction thread scans.
pub const COMPACT_BLOCK: u32 = 4;

/// Threads along each axis of one compaction thread group.
pub const COMPACT_THREAD: u32 = 8;

/// Compaction thread groups along each axis.
pub const GRID: u32 = 8;

/// Compaction thread groups in all, which bounds the indirect draw records.
pub const GRID3: u32 = 512;

/// Bytes of one indirect draw record (four 32-bit arguments).
pub const COMMAND_SIZE: u32 = 16;

/// Byte offset of the record counter in the indirect argument buffer: the
/// records rounded up to whole 4096-byte pages.
pub const COUNT_OFFSET: u32 = 8192;

/// Buckets along each axis that one primitive-expansion group culls.
pub const MESH_GROUP: u32 = 8;

/// The flat position of bucket (x, y, z): x varies fastest, z slowest.
pub open spec fn spec_flat_index(x: int, y: int, z: int) -> int {
    x + CUBE_SIDE * y + CUBE_SIDE * CUBE_SIDE * z
}

/// The flat counter index of the bucket with quantized coordinates (x, y, z).
pub fn flat_index(x: u32, y: u32, z: u32) -> (r: u32)
    requires
        x < CUBE_SIDE,
        y < CUBE_SIDE,
        z < CUBE_SIDE,
    ensures
        r as int == spec_flat_index(x as int, y as int, z as int),
        (r as int) < NUM_BUCKETS,
{
    proof {
        assert(CUBE_SIDE * y <= 65280) by (nonlinear_arith)
            requires y < 256, CUBE_SIDE == 256;
        assert(CUBE_SIDE * CUBE_SIDE * z <= 16711680) by (nonlinear_arith)
            requires z < 256, CUBE_SIDE == 256;
    }
    x + CUBE_SIDE * y + CUBE_SIDE * CUBE_SIDE * z
}

/// How many times `b` occurs in `s`.
pub open spec fn occurrences(s: Seq<u32>, b: u32) -> nat
    decreases s.len(),
{
    if s.len() == 0 {
        0
    } else {
        occurrences(s.drop_last(), b) + if s.last() == b { 1nat } else { 0nat }
    }
}

/// The counter grid that the count pass leaves after a clear: the number of
/// pixels that fell into each bucket.
pub open spec fn bucket_counts(pixels: Seq<u32>) -> Seq<u32> {
    Seq::new(NUM_BUCKETS as nat, |b: int| occurrences(pixels, b as u32) as u32)
}

/// The indices of the non-zero entries of `counts`, in increasing order.
pub open spec fn occupied(counts: Seq<u32>) -> Seq<u32>
    decreases counts.len(),
{
    if counts.len() == 0 {
        seq![]
    } else {
        let rest = occupied(counts.drop_last());
        if counts.last() != 0 {
            rest.push((counts.len() - 1) as u32)
        } else {
            rest
        }
    }
}

/// The number of non-zero entries of `counts`.
pub open spec fn nonzero_count(counts: Seq<u32>) -> nat
    decreases counts.len(),
{
    if counts.len() == 0 {
        0
    } else {
        nonzero_count(counts.drop_last()) + if counts.last() != 0 { 1nat } else { 0nat }
    }
}

/// Buckets in one primitive-expansion group.
pub const GROUP_BUCKETS: u32 = 512;

/// The flat index of the `k`-th bucket of primitive-expansion group
/// (gx, gy, gz): x varies fastest inside the 8×8×8 block.
pub open spec fn group_member(gx: int, gy: int, gz: int, k: int) -> u32 {
    spec_flat_index(
        gx * MESH_GROUP + k % 8,
        gy * MESH_GROUP + (k / 8) % 8,
        gz * MESH_GROUP + k / 64,
    ) as u32
}

/// The buckets among the first `n` members of group (gx, gy, gz) whose
/// count is non-zero, in member order.
pub open spec fn visible_members(counts: Seq<u32>, gx: int, gy: int, gz: int, n: int) -> Seq<u32>
    decreases n,
{
    if n <= 0 {
        seq![]
    } else {
        let rest = visible_members(counts, gx, gy, gz, n - 1);
        let b = group_member(gx, gy, gz, n - 1);
        if counts[b as int] != 0 {
            rest.push(b)
        } else {
            rest
        }
    }
}

/// The culling of one primitive-expansion group: the occupied buckets of
/// its 8×8×8 block, which the group expands into visible points.
pub fn expand_group(counts: &Vec<u32>, gx: u32, gy: u32, gz: u32) -> (r: Vec<u32>)
    requires
        counts@.len() == NUM_BUCKETS,
        gx < CUBE_SIDE / MESH_GROUP,
        gy < CUBE_SIDE / MESH_GROUP,
        gz < CUBE_SIDE / MESH_GROUP,
    ensures
        r@ == visible_members(counts@, gx as int, gy as int, gz as int, GROUP_BUCKETS as int),
{
    let mut r: Vec<u32> = Vec::new();
    let mut k: u32 = 0;
    while k < GROUP_BUCKETS
        invariant
            counts@.len() == NUM_BUCKETS,
            gx < 32,
            gy < 32,
            gz < 32,
            k <= GROUP_BUCKETS,
            r@ == visible_members(counts@, gx as int, gy as int, gz as int, k as int),
        decreases GROUP_BUCKETS - k,
    {
        proof {
            assert(gx * 8 + k % 8 < 256) by (nonlinear_arith)
                requires gx < 32, k % 8 < 8;
            assert(gy * 8 + (k / 8) % 8 < 256) by (nonlinear_arith)
                requires gy < 32, (k / 8) % 8 < 8;
            assert(k / 64 < 8) by (nonlinear_arith)
                requires k < 512;
            assert(gz * 8 + k / 64 < 256) by (nonlinear_arith)
                requires gz < 32, k / 64 < 8;
        }
        let b = flat_index(gx * MESH_GROUP + k % 8, gy * MESH_GROUP + (k / 8) % 8, gz * MESH_GROUP + k / 64);
        if counts[b as usize] != 0 {
            r.push(b);
        }
        k = k + 1;
    }
    r
}

proof fn lemma_occurrences_bounded(s: Seq<u32>, b: u32)
    ensures
        occurrences(s, b) <= s.len(),
    decreases s.len(),
{
    if s.len() > 0 {
        lemma_occurrences_bounded(s.drop_last(), b);
    }
}

/// Thread groups that the count pass dispatches over a `width` × `height`
/// capture rectangle: one thread per pixel, in 8×8 groups.
pub fn count_dispatch(width: u32, height: u32) -> (r: (u32, u32, u32))
    ensures
        r.0 as int == ceil_div(width as int, COUNT_THREAD as int),
        r.1 as int == ceil_div(height as int, COUNT_THREAD as int),
        r.2 == 1,
{
    (div_round_up(width, COUNT_THREAD), div_round_up(height, COUNT_THREAD), 1)
}

/// Thread groups that the compaction pass dispatches: the cube side divided
/// by the buckets that one group covers, on each axis.
pub fn compact_dispatch() -> (r: (u32, u32, u32))
    ensures
        r == (GRID, GRID, GRID),
        GRID * COMPACT_BLOCK * COMPACT_THREAD == CUBE_SIDE,
        GRID * GRID * GRID == GRID3,
        COUNT_OFFSET % 4096 == 0,
        COMMAND_SIZE * GRID3 <= COUNT_OFFSET < COMMAND_SIZE * GRID3 + 4096,
{
    let g = CUBE_SIDE / (COMPACT_BLOCK * COMPACT_THREAD);
    assert(256u32 / 32u32 == 8u32);
    (g, g, g)
}

/// Groups that the primitive-expansion draw dispatches: one per 8×8×8 block
/// of buckets.
pub fn mesh_dispatch() -> (r: (u32, u32, u32))
    ensures
        r.0 == r.1 == r.2,
        r.0 * MESH_GROUP == CUBE_SIDE,
{
    let g = CUBE_SIDE / MESH_GROUP;
    (g, g, g)
}

/// Clears the counter grid to zero, as the clear that precedes every count
/// pass does.
pub fn clear_counts(counts: &mut Vec<u32>)
    ensures
        final(counts)@.len() == old(counts)@.len(),
        forall|b: int| 0 <= b < final(counts)@.len() ==> #[trigger] final(counts)@[b] == 0,
{
    let n = counts.len();
    let mut i: usize = 0;
    while i < n
        invariant
            counts@.len() == n,
            i <= n,
            forall|b: int| 0 <= b < i ==> #[trigger] counts@[b] == 0,
        decreases n - i,
    {
        counts.set(i, 0);
        i = i + 1;
    }
}

/// The count pass: adds each pixel's bucket to a cleared counter grid.
/// `pixels` holds the quantized bucket of every pixel of the capture
/// rectangle.
pub fn count_pass(counts: &mut Vec<u32>, pixels: &Vec<u32>)
    requires
        old(counts)@.len() == NUM_BUCKETS,
        forall|b: int| 0 <= b < NUM_BUCKETS ==> #[trigger] old(counts)@[b] == 0,
        forall|k: int| 0 <= k < pixels@.len() ==> (#[trigger] pixels@[k] as int) < NUM_BUCKETS,
        pixels@.len() <= u32::MAX,
    ensures
        final(counts)@ == bucket_counts(pixels@),
{
    let n = pixels.len();
    let mut i: usize = 0;
    while i < n
        invariant
            n == pixels@.len(),
            n <= u32::MAX,
            i <= n,
            counts@.len() == NUM_BUCKETS,
            forall|k: int| 0 <= k < n ==> (#[trigger] pixels@[k] as int) < NUM_BUCKETS,
            forall|b: int|
                0 <= b < NUM_BUCKETS ==> #[trigger] counts@[b] as int == occurrences(
                    pixels@.take(i as int),
                    b as u32,
                ),
        decreases n - i,
    {
        let p = pixels[i];
        let ghost before = pixels@.take(i as int);
        let ghost after = pixels@.take(i as int + 1);
        proof {
            assert(after.drop_last() =~= before);
            lemma_occurrences_bounded(before, p);
        }
        let c = counts[p as usize];
        counts.set(p as usize, c + 1);
        i = i + 1;
        proof {
            assert forall|b: int| 0 <= b < NUM_BUCKETS implies #[trigger] counts@[b] as int
                == occurrences(pixels@.take(i as int), b as u32) by {
                assert(after.last() == p);
                if b != p as int {
                    assert(b as u32 != p);
                }
            }
        }
    }
    proof {
        assert(pixels@.take(n as int) =~= pixels@);
        assert forall|b: int| 0 <= b < NUM_BUCKETS implies #[trigger] counts@[b]
            == bucket_counts(pixels@)[b] by {
            lemma_occurrences_bounded(pixels@, b as u32);
        }
        assert(counts@ =~= bucket_counts(pixels@));
    }
}

/// The indirect draw record that the compaction pass leaves for the draw: one
/// draw of `vertex_count_per_instance` vertices for each packed instance.
#[derive(Clone, Copy, PartialEq, Eq, Structural, Debug)]
pub struct DrawArguments {
    pub vertex_count_per_instance: u32,
    pub instance_count: u32,
    pub start_vertex_location: u32,
    pub start_instance_location: u32,
}

/// The compaction pass: the indices of the occupied buckets, densely packed
/// in increasing order, one instance each.
pub fn compact(counts: &Vec<u32>) -> (packed: Vec<u32>)
    requires
        counts@.len() == NUM_BUCKETS,
    ensures
        packed@ == occupied(counts@),
{
    let n = counts.len();
    let mut packed: Vec<u32> = Vec::new();
    let mut i: usize = 0;
    while i < n
        invariant
            n == counts@.len(),
            n == NUM_BUCKETS,
            i <= n,
            packed@ == occupied(counts@.take(i as int)),
        decreases n - i,
    {
        proof {
            assert(counts@.take(i as int + 1).drop_last() =~= counts@.take(i as int));
        }
        if counts[i] != 0 {
            packed.push(i as u32);
        }
        i = i + 1;
    }
    proof {
        assert(counts@.take(n as int) =~= counts@);
    }
    packed
}

/// The draw record for `packed` instances of `vertices_per_instance` vertices
/// each, as the compaction pass writes it at the head of the argument buffer.
pub fn indirect_arguments(packed: &Vec<u32>, vertices_per_instance: u32) -> (r: DrawArguments)
    requires
        packed@.len() <= u32::MAX,
    ensures
        r == (DrawArguments {
            vertex_count_per_instance: vertices_per_instance,
            instance_count: packed@.len() as u32,
            start_vertex_location: 0,
            start_instance_location: 0,
        }),
{
    DrawArguments {
        vertex_count_per_instance: vertices_per_instance,
        instance_count: packed.len() as u32,
        start_vertex_location: 0,
        start_instance_location: 0,
    }
}

proof fn lemma_occupied_facts(counts: Seq<u32>)
    requires
        counts.len() <= NUM_BUCKETS,
    ensures
        occupied(counts).len() == nonzero_count(counts),
        forall|k: int|
            0 <= k < occupied(counts).len() ==> (#[trigger] occupied(counts)[k] as int)
                < counts.len() && counts[occupied(counts)[k] as int] != 0,
        forall|j: int, k: int|
            0 <= j < k < occupied(counts).len() ==> #[trigger] occupied(counts)[j]
                < #[trigger] occupied(counts)[k],
        forall|b: int|
            0 <= b < counts.len() && #[trigger] counts[b] != 0 ==> exists|k: int|
                0 <= k < occupied(counts).len() && occupied(counts)[k] as int == b,
    decreases counts.len(),
{
    if counts.len() > 0 {
        let rest = counts.drop_last();
        lemma_occupied_facts(rest);
        let last = (counts.len() - 1) as u32;
        assert forall|b: int| 0 <= b < counts.len() && #[trigger] counts[b] != 0 implies exists|
            k: int,
        | 0 <= k < occupied(counts).len() && occupied(counts)[k] as int == b by {
            if b < counts.len() - 1 {
                assert(rest[b] == counts[b]);
                let k = choose|k: int| 0 <= k < occupied(rest).len() && occupied(rest)[k] as int == b;
                assert(occupied(counts)[k] == occupied(rest)[k]);
            } else {
                assert(occupied(counts)[occupied(rest).len() as int] == last);
            }
        }
    }
}

/// Compaction emits one instance for each non-zero bucket of the counter
/// grid, whatever the grid holds: as many instances as there are non-zero
/// buckets, each naming a distinct non-zero bucket, and every non-zero bucket
/// among them.
pub proof fn lemma_compaction_counts_nonzero_buckets(counts: Seq<u32>)
    requires
        counts.len() == NUM_BUCKETS,
    ensures
        occupied(counts).len() == nonzero_count(counts),
        forall|k: int|
            0 <= k < occupied(counts).len() ==> (#[trigger] occupied(counts)[k] as int)
                < NUM_BUCKETS && counts[occupied(counts)[k] as int] != 0,
        forall|j: int, k: int|
            0 <= j < k < occupied(counts).len() ==> #[trigger] occupied(counts)[j]
                < #[trigger] occupied(counts)[k],
        forall|b: int|
            0 <= b < NUM_BUCKETS && #[trigger] counts[b] != 0 ==> exists|k: int|
                0 <= k < occupied(counts).len() && occupied(counts)[k] as int == b,
{
    lemma_occupied_facts(counts);
}

proof fn lemma_occurrences_uniform(pixels: Seq<u32>, b: u32, c: u32)
    requires
        forall|k: int| 0 <= k < pixels.len() ==> #[trigger] pixels[k] == b,
    ensures
        occurrences(pixels, c) == if c == b { pixels.len() } else { 0 },
    decreases pixels.len(),
{
    if pixels.len() > 0 {
        lemma_occurrences_uniform(pixels.drop_last(), b, c);
    }
}

proof fn lemma_occupied_single(counts: Seq<u32>, b: int)
    requires
        counts.len() <= NUM_BUCKETS,
        forall|i: int| 0 <= i < counts.len() && i != b ==> #[trigger] counts[i] == 0,
        0 <= b,
        b < counts.len() ==> counts[b] != 0,
    ensures
        occupied(counts) == if b < counts.len() { seq![b as u32] } else { seq![] },
    decreases counts.len(),
{
    if counts.len() > 0 {
        lemma_occupied_single(counts.drop_last(), b);
        if b < counts.len() - 1 {
            assert(counts.last() == 0);
        } else if b == counts.len() - 1 {
            assert(seq![].push(b as u32) =~= seq![b as u32]);
        }
    }
}

/// A capture rectangle of `width` × `height` pixels that all fall into bucket
/// `b` leaves exactly `width * height` in that bucket and zero in every other,
/// and compaction then emits exactly that one bucket, as one instance.
pub proof fn lemma_uniform_rectangle(pixels: Seq<u32>, width: nat, height: nat, b: u32)
    requires
        pixels.len() == width * height,
        0 < width * height <= u32::MAX,
        (b as int) < NUM_BUCKETS,
        forall|k: int| 0 <= k < pixels.len() ==> #[trigger] pixels[k] == b,
    ensures
        bucket_counts(pixels)[b as int] == width * height,
        forall|c: int| 0 <= c < NUM_BUCKETS && c != b ==> #[trigger] bucket_counts(pixels)[c] == 0,
        occupied(bucket_counts(pixels)) == seq![b],
        occupied(bucket_counts(pixels)).len() == 1,
        nonzero_count(bucket_counts(pixels)) == 1,
{
    let counts = bucket_counts(pixels);
    lemma_occurrences_uniform(pixels, b, b);
    assert forall|c: int| 0 <= c < NUM_BUCKETS && c != b implies #[trigger] counts[c] == 0 by {
        lemma_occurrences_uniform(pixels, b, c as u32);
    }
    lemma_occupied_single(counts, b as int);
    lemma_occupied_facts(counts);
}

} // verus!
