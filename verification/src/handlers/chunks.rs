use crate::batch::Batch;
use crate::packets::{ChunkDataAndUpdateLightPacket, PacketRegistry};
use crate::protocol::Dimension;
use vstd::prelude::*;

verus! {

/// The packet of the empty chunk at `(x, z)`.
pub open spec fn spec_chunk(x: int, z: int, biome_id: i32, dimension: Dimension) -> PacketRegistry {
    PacketRegistry::ChunkDataAndUpdateLight(ChunkDataAndUpdateLightPacket {
        chunk_x: x as i64,
        chunk_z: z as i64,
        biome_id,
        dimension,
    })
}

/// The chunks of a row from `(x, z)` towards increasing `x`.
pub open spec fn spec_row(x: int, z: int, count: int, biome_id: i32, dimension: Dimension) -> Seq<PacketRegistry> {
    Seq::new(count as nat, |i: int| spec_chunk(x + i, z, biome_id, dimension))
}

/// The chunks of a column from `(x, z)` towards increasing `z`.
pub open spec fn spec_column(x: int, z: int, count: int, biome_id: i32, dimension: Dimension) -> Seq<PacketRegistry> {
    Seq::new(count as nat, |i: int| spec_chunk(x, z + i, biome_id, dimension))
}

/// The chunks at distance `r` (in the larger of the two axes) around the
/// centre: the centre itself for 0; else the row on the low side, the row on
/// the high side, then the two columns between them.
pub open spec fn spec_ring(cx: int, cz: int, r: int, biome_id: i32, dimension: Dimension) -> Seq<PacketRegistry> {
    if r == 0 {
        seq![spec_chunk(cx, cz, biome_id, dimension)]
    } else {
        spec_row(cx - r, cz - r, 2 * r + 1, biome_id, dimension)
            + spec_row(cx - r, cz + r, 2 * r + 1, biome_id, dimension)
            + spec_column(cx - r, cz - r + 1, 2 * r - 1, biome_id, dimension)
            + spec_column(cx + r, cz - r + 1, 2 * r - 1, biome_id, dimension)
    }
}

/// The chunks within distance `view_distance` of the centre, nearest ring first.
pub open spec fn spec_chunks(cx: int, cz: int, view_distance: int, biome_id: i32, dimension: Dimension) -> Seq<PacketRegistry>
    decreases view_distance + 1,
{
    if view_distance < 0 {
        Seq::empty()
    } else {
        spec_chunks(cx, cz, view_distance - 1, biome_id, dimension) + spec_ring(cx, cz, view_distance, biome_id, dimension)
    }
}

/// The number of chunks in the ring at distance `r`.
proof fn lemma_ring_len(cx: int, cz: int, r: int, biome_id: i32, dimension: Dimension)
    requires
        r >= 0,
    ensures
        spec_ring(cx, cz, r, biome_id, dimension).len() == if r == 0 { 1 } else { 8 * r },
{
}

/// Every packet that shows the world around the spawn is a chunk.
pub proof fn lemma_chunks_are_chunks(cx: int, cz: int, view_distance: int, biome_id: i32, dimension: Dimension)
    ensures
        forall|i: int| 0 <= i < spec_chunks(cx, cz, view_distance, biome_id, dimension).len()
            ==> #[trigger] spec_chunks(cx, cz, view_distance, biome_id, dimension)[i] is ChunkDataAndUpdateLight,
    decreases view_distance + 1,
{
    if view_distance >= 0 {
        lemma_chunks_are_chunks(cx, cz, view_distance - 1, biome_id, dimension);
        let prev = spec_chunks(cx, cz, view_distance - 1, biome_id, dimension);
        let ring = spec_ring(cx, cz, view_distance, biome_id, dimension);
        assert forall|i: int| 0 <= i < ring.len() implies #[trigger] ring[i] is ChunkDataAndUpdateLight by {
            if view_distance > 0 {
                let r = view_distance;
                let a = spec_row(cx - r, cz - r, 2 * r + 1, biome_id, dimension);
                let b = spec_row(cx - r, cz + r, 2 * r + 1, biome_id, dimension);
                let c = spec_column(cx - r, cz - r + 1, 2 * r - 1, biome_id, dimension);
                let d = spec_column(cx + r, cz - r + 1, 2 * r - 1, biome_id, dimension);
                if i < a.len() {
                    assert(ring[i] == a[i]);
                } else if i < a.len() + b.len() {
                    assert(ring[i] == b[i - a.len()]);
                } else if i < a.len() + b.len() + c.len() {
                    assert(ring[i] == c[i - a.len() - b.len()]);
                } else {
                    assert(ring[i] == d[i - a.len() - b.len() - c.len()]);
                }
            }
        }
        assert forall|i: int| 0 <= i < (prev + ring).len() implies #[trigger] (prev + ring)[i] is ChunkDataAndUpdateLight by {
            if i < prev.len() {
                assert((prev + ring)[i] == prev[i]);
            } else {
                assert((prev + ring)[i] == ring[i - prev.len()]);
            }
        }
    }
}

/// A client is sent a square of `(2 * view_distance + 1)²` chunks around the
/// centre.
pub proof fn lemma_chunk_count(cx: int, cz: int, view_distance: int, biome_id: i32, dimension: Dimension)
    requires
        view_distance >= 0,
    ensures
        spec_chunks(cx, cz, view_distance, biome_id, dimension).len() == (2 * view_distance + 1) * (2 * view_distance + 1),
    decreases view_distance,
{
    lemma_ring_len(cx, cz, view_distance, biome_id, dimension);
    if view_distance == 0 {
        assert(spec_chunks(cx, cz, -1, biome_id, dimension).len() == 0);
    } else {
        lemma_chunk_count(cx, cz, view_distance - 1, biome_id, dimension);
        let r = view_distance;
        assert((2 * (r - 1) + 1) * (2 * (r - 1) + 1) + 8 * r == (2 * r + 1) * (2 * r + 1)) by (nonlinear_arith);
    }
}

/// Whether the chunk `(x, z)` lies within `r` chunks of the centre on both axes.
pub open spec fn in_square(cx: int, cz: int, r: int, x: int, z: int) -> bool {
    cx - r <= x <= cx + r && cz - r <= z <= cz + r
}

/// The chunks of the ring at distance `r` all lie in the square of side
/// `2r + 1`, and every chunk of that square that is not in the smaller one
/// is in the ring.
proof fn lemma_ring_cells(cx: int, cz: int, r: int, biome_id: i32, dimension: Dimension)
    requires
        r >= 0,
    ensures
        forall|i: int| 0 <= i < spec_ring(cx, cz, r, biome_id, dimension).len() ==> exists|x: int, z: int|
            in_square(cx, cz, r, x, z) && #[trigger] spec_ring(cx, cz, r, biome_id, dimension)[i] == spec_chunk(x, z, biome_id, dimension),
        forall|x: int, z: int| in_square(cx, cz, r, x, z) && !in_square(cx, cz, r - 1, x, z) ==>
            #[trigger] spec_ring(cx, cz, r, biome_id, dimension).contains(spec_chunk(x, z, biome_id, dimension)),
{
    let ring = spec_ring(cx, cz, r, biome_id, dimension);
    if r == 0 {
        assert forall|i: int| 0 <= i < ring.len() implies exists|x: int, z: int|
            in_square(cx, cz, r, x, z) && #[trigger] ring[i] == spec_chunk(x, z, biome_id, dimension) by {
            assert(in_square(cx, cz, r, cx, cz));
        }
        assert forall|x: int, z: int| in_square(cx, cz, r, x, z) && !in_square(cx, cz, r - 1, x, z) implies
            #[trigger] ring.contains(spec_chunk(x, z, biome_id, dimension)) by {
            assert(ring[0] == spec_chunk(x, z, biome_id, dimension));
        }
    } else {
        let low = spec_row(cx - r, cz - r, 2 * r + 1, biome_id, dimension);
        let high = spec_row(cx - r, cz + r, 2 * r + 1, biome_id, dimension);
        let west = spec_column(cx - r, cz - r + 1, 2 * r - 1, biome_id, dimension);
        let east = spec_column(cx + r, cz - r + 1, 2 * r - 1, biome_id, dimension);
        assert(ring == low + high + west + east);
        let n = 2 * r + 1;
        let m = 2 * r - 1;
        assert forall|i: int| 0 <= i < ring.len() implies exists|x: int, z: int|
            in_square(cx, cz, r, x, z) && #[trigger] ring[i] == spec_chunk(x, z, biome_id, dimension) by {
            if i < n {
                assert(ring[i] == low[i]);
                assert(in_square(cx, cz, r, cx - r + i, cz - r));
            } else if i < 2 * n {
                assert(ring[i] == high[i - n]);
                assert(in_square(cx, cz, r, cx - r + (i - n), cz + r));
            } else if i < 2 * n + m {
                assert(ring[i] == west[i - 2 * n]);
                assert(in_square(cx, cz, r, cx - r, cz - r + 1 + (i - 2 * n)));
            } else {
                assert(ring[i] == east[i - 2 * n - m]);
                assert(in_square(cx, cz, r, cx + r, cz - r + 1 + (i - 2 * n - m)));
            }
        }
        assert forall|x: int, z: int| in_square(cx, cz, r, x, z) && !in_square(cx, cz, r - 1, x, z) implies
            #[trigger] ring.contains(spec_chunk(x, z, biome_id, dimension)) by {
            let c = spec_chunk(x, z, biome_id, dimension);
            if z == cz - r {
                let i = x - (cx - r);
                assert(low[i] == c);
                assert(ring[i] == c);
            } else if z == cz + r {
                let i = x - (cx - r);
                assert(high[i] == c);
                assert(ring[n + i] == c);
            } else if x == cx - r {
                let i = z - (cz - r + 1);
                assert(west[i] == c);
                assert(ring[2 * n + i] == c);
            } else {
                assert(x == cx + r);
                let i = z - (cz - r + 1);
                assert(east[i] == c);
                assert(ring[2 * n + m + i] == c);
            }
        }
    }
}

/// The chunks a client is sent are exactly those of the square of side
/// `2 * view_distance + 1` around the centre: each one sent lies in the
/// square, and each one of the square is sent.
pub proof fn lemma_chunks_fill_square(cx: int, cz: int, view_distance: int, biome_id: i32, dimension: Dimension)
    requires
        view_distance >= 0,
    ensures
        forall|i: int| 0 <= i < spec_chunks(cx, cz, view_distance, biome_id, dimension).len() ==> exists|x: int, z: int|
            in_square(cx, cz, view_distance, x, z) && #[trigger] spec_chunks(cx, cz, view_distance, biome_id, dimension)[i]
                == spec_chunk(x, z, biome_id, dimension),
        forall|x: int, z: int| in_square(cx, cz, view_distance, x, z) ==>
            #[trigger] spec_chunks(cx, cz, view_distance, biome_id, dimension).contains(spec_chunk(x, z, biome_id, dimension)),
    decreases view_distance,
{
    let r = view_distance;
    let all = spec_chunks(cx, cz, r, biome_id, dimension);
    let inner = spec_chunks(cx, cz, r - 1, biome_id, dimension);
    let ring = spec_ring(cx, cz, r, biome_id, dimension);
    assert(all == inner + ring);
    lemma_ring_cells(cx, cz, r, biome_id, dimension);
    if r > 0 {
        lemma_chunks_fill_square(cx, cz, r - 1, biome_id, dimension);
    } else {
        assert(inner =~= Seq::<PacketRegistry>::empty());
    }
    assert forall|i: int| 0 <= i < all.len() implies exists|x: int, z: int|
        in_square(cx, cz, r, x, z) && #[trigger] all[i] == spec_chunk(x, z, biome_id, dimension) by {
        if i < inner.len() {
            assert(all[i] == inner[i]);
            let (x, z) = choose|x: int, z: int| in_square(cx, cz, r - 1, x, z) && #[trigger] inner[i] == spec_chunk(x, z, biome_id, dimension);
            assert(in_square(cx, cz, r, x, z));
        } else {
            assert(all[i] == ring[i - inner.len()]);
        }
    }
    assert forall|x: int, z: int| in_square(cx, cz, r, x, z) implies
        #[trigger] all.contains(spec_chunk(x, z, biome_id, dimension)) by {
        let c = spec_chunk(x, z, biome_id, dimension);
        if in_square(cx, cz, r - 1, x, z) && r > 0 {
            assert(inner.contains(c));
            let j = choose|j: int| 0 <= j < inner.len() && inner[j] == c;
            assert(all[j] == c);
        } else {
            assert(ring.contains(c));
            let j = choose|j: int| 0 <= j < ring.len() && ring[j] == c;
            assert(all[inner.len() + j] == c);
        }
    }
}

/// Whether two chunks are the same chunk.
pub open spec fn same_chunk(a: (int, int), b: (int, int)) -> bool {
    a.0 == b.0 && a.1 == b.1
}

/// How far a chunk lies from the centre: the larger of its distances along
/// the two axes.
pub open spec fn chunk_distance(cx: int, cz: int, x: int, z: int) -> int {
    let dx = if x >= cx { x - cx } else { cx - x };
    let dz = if z >= cz { z - cz } else { cz - z };
    if dx >= dz { dx } else { dz }
}

/// The chunk at position `i` of the ring at distance `r`.
pub open spec fn ring_cell(cx: int, cz: int, r: int, i: int) -> (int, int) {
    let n = 2 * r + 1;
    let m = 2 * r - 1;
    if r == 0 {
        (cx, cz)
    } else if i < n {
        (cx - r + i, cz - r)
    } else if i < 2 * n {
        (cx - r + (i - n), cz + r)
    } else if i < 2 * n + m {
        (cx - r, cz - r + 1 + (i - 2 * n))
    } else {
        (cx + r, cz - r + 1 + (i - 2 * n - m))
    }
}

/// The chunks of a ring are at its distance from the centre, each appears
/// once, and position `i` holds `ring_cell(i)`.
proof fn lemma_ring_distinct(cx: int, cz: int, r: int, biome_id: i32, dimension: Dimension)
    requires
        r >= 0,
    ensures
        forall|i: int| 0 <= i < spec_ring(cx, cz, r, biome_id, dimension).len() ==> {
            &&& #[trigger] spec_ring(cx, cz, r, biome_id, dimension)[i] == spec_chunk(ring_cell(cx, cz, r, i).0, ring_cell(cx, cz, r, i).1, biome_id, dimension)
            &&& chunk_distance(cx, cz, ring_cell(cx, cz, r, i).0, ring_cell(cx, cz, r, i).1) == r
        },
        forall|i: int, j: int| 0 <= i < j < spec_ring(cx, cz, r, biome_id, dimension).len() ==>
            !same_chunk(#[trigger] ring_cell(cx, cz, r, i), #[trigger] ring_cell(cx, cz, r, j)),
{
    let ring = spec_ring(cx, cz, r, biome_id, dimension);
    lemma_ring_len(cx, cz, r, biome_id, dimension);
    if r > 0 {
        let low = spec_row(cx - r, cz - r, 2 * r + 1, biome_id, dimension);
        let high = spec_row(cx - r, cz + r, 2 * r + 1, biome_id, dimension);
        let west = spec_column(cx - r, cz - r + 1, 2 * r - 1, biome_id, dimension);
        let east = spec_column(cx + r, cz - r + 1, 2 * r - 1, biome_id, dimension);
        assert(ring == low + high + west + east);
        let n = 2 * r + 1;
        let m = 2 * r - 1;
        assert forall|i: int| 0 <= i < ring.len() implies {
            &&& #[trigger] ring[i] == spec_chunk(ring_cell(cx, cz, r, i).0, ring_cell(cx, cz, r, i).1, biome_id, dimension)
            &&& chunk_distance(cx, cz, ring_cell(cx, cz, r, i).0, ring_cell(cx, cz, r, i).1) == r
        } by {
            if i < n {
                assert(ring[i] == low[i]);
            } else if i < 2 * n {
                assert(ring[i] == high[i - n]);
            } else if i < 2 * n + m {
                assert(ring[i] == west[i - 2 * n]);
            } else {
                assert(ring[i] == east[i - 2 * n - m]);
            }
        }
    }
}

/// No chunk is sent twice: the chunks within `view_distance` of the centre
/// are pairwise different, as long as their coordinates fit an `i64`.
pub proof fn lemma_chunks_distinct(cx: int, cz: int, view_distance: int, biome_id: i32, dimension: Dimension)
    requires
        view_distance >= 0,
        i64::MIN <= cx - view_distance,
        cx + view_distance <= i64::MAX,
        i64::MIN <= cz - view_distance,
        cz + view_distance <= i64::MAX,
    ensures
        forall|i: int, j: int| 0 <= i < j < spec_chunks(cx, cz, view_distance, biome_id, dimension).len() ==>
            #[trigger] spec_chunks(cx, cz, view_distance, biome_id, dimension)[i]
                != #[trigger] spec_chunks(cx, cz, view_distance, biome_id, dimension)[j],
    decreases view_distance,
{
    let r = view_distance;
    let all = spec_chunks(cx, cz, r, biome_id, dimension);
    let inner = spec_chunks(cx, cz, r - 1, biome_id, dimension);
    let ring = spec_ring(cx, cz, r, biome_id, dimension);
    assert(all == inner + ring);
    lemma_ring_distinct(cx, cz, r, biome_id, dimension);
    if r > 0 {
        lemma_chunks_distinct(cx, cz, r - 1, biome_id, dimension);
        lemma_chunks_fill_square(cx, cz, r - 1, biome_id, dimension);
    } else {
        assert(inner =~= Seq::<PacketRegistry>::empty());
    }
    assert forall|i: int, j: int| 0 <= i < j < all.len() implies #[trigger] all[i] != #[trigger] all[j] by {
        if j < inner.len() {
            assert(all[i] == inner[i] && all[j] == inner[j]);
        } else if i >= inner.len() {
            let a = ring_cell(cx, cz, r, i - inner.len());
            let b = ring_cell(cx, cz, r, j - inner.len());
            assert(all[i] == ring[i - inner.len()] && all[j] == ring[j - inner.len()]);
            assert(!same_chunk(a, b));
            assert(chunk_distance(cx, cz, a.0, a.1) == r && chunk_distance(cx, cz, b.0, b.1) == r);
        } else {
            assert(all[i] == inner[i] && all[j] == ring[j - inner.len()]);
            let (x, z) = choose|x: int, z: int| in_square(cx, cz, r - 1, x, z) && #[trigger] inner[i] == spec_chunk(x, z, biome_id, dimension);
            let b = ring_cell(cx, cz, r, j - inner.len());
            assert(chunk_distance(cx, cz, b.0, b.1) == r);
        }
    }
}

/// Queues the chunks of a row.
fn queue_row(batch: &mut Batch<PacketRegistry>, x: i64, z: i64, count: i64, biome_id: i32, dimension: Dimension)
    requires
        count >= 0,
        i64::MIN <= x,
        x + count <= i64::MAX,
    ensures
        final(batch)@ == old(batch)@ + spec_row(x as int, z as int, count as int, biome_id, dimension),
{
    let mut i: i64 = 0;
    while i < count
        invariant
            0 <= i <= count,
            x + count <= i64::MAX,
            batch@ == old(batch)@ + spec_row(x as int, z as int, i as int, biome_id, dimension),
        decreases count - i,
    {
        let packet = ChunkDataAndUpdateLightPacket { chunk_x: x + i, chunk_z: z, biome_id, dimension };
        batch.queue(PacketRegistry::ChunkDataAndUpdateLight(packet));
        assert(spec_row(x as int, z as int, i + 1, biome_id, dimension) =~= spec_row(x as int, z as int, i as int, biome_id, dimension).push(spec_chunk(x + i, z as int, biome_id, dimension)));
        i = i + 1;
    }
}

/// Queues the chunks of a column.
fn queue_column(batch: &mut Batch<PacketRegistry>, x: i64, z: i64, count: i64, biome_id: i32, dimension: Dimension)
    requires
        count >= 0,
        z + count <= i64::MAX,
    ensures
        final(batch)@ == old(batch)@ + spec_column(x as int, z as int, count as int, biome_id, dimension),
{
    let mut i: i64 = 0;
    while i < count
        invariant
            0 <= i <= count,
            z + count <= i64::MAX,
            batch@ == old(batch)@ + spec_column(x as int, z as int, i as int, biome_id, dimension),
        decreases count - i,
    {
        let packet = ChunkDataAndUpdateLightPacket { chunk_x: x, chunk_z: z + i, biome_id, dimension };
        batch.queue(PacketRegistry::ChunkDataAndUpdateLight(packet));
        assert(spec_column(x as int, z as int, i + 1, biome_id, dimension) =~= spec_column(x as int, z as int, i as int, biome_id, dimension).push(spec_chunk(x as int, z + i, biome_id, dimension)));
        i = i + 1;
    }
}

/// Queues the empty chunks around the centre, nearest ring first.
pub fn send_chunks(batch: &mut Batch<PacketRegistry>, center: (i32, i32), view_distance: i32, biome_id: i32, dimension: Dimension)
    ensures
        final(batch)@ == old(batch)@ + spec_chunks(center.0 as int, center.1 as int, view_distance as int, biome_id, dimension),
{
    let cx = center.0 as i64;
    let cz = center.1 as i64;
    let mut r: i64 = 0;
    assert(spec_chunks(cx as int, cz as int, -1, biome_id, dimension) =~= Seq::<PacketRegistry>::empty());
    assert(batch@ =~= old(batch)@ + spec_chunks(cx as int, cz as int, -1, biome_id, dimension));
    while r <= view_distance as i64
        invariant
            0 <= r,
            r <= view_distance + 1 || view_distance < 0,
            view_distance < 0 ==> r == 0,
            cx == center.0,
            cz == center.1,
            batch@ == old(batch)@ + spec_chunks(cx as int, cz as int, r - 1, biome_id, dimension),
        decreases view_distance + 1 - r,
    {
        let ghost before = batch@;
        if r == 0 {
            batch.queue(PacketRegistry::ChunkDataAndUpdateLight(ChunkDataAndUpdateLightPacket { chunk_x: cx, chunk_z: cz, biome_id, dimension }));
            assert(batch@ =~= before + spec_ring(cx as int, cz as int, 0, biome_id, dimension));
        } else {
            queue_row(batch, cx - r, cz - r, 2 * r + 1, biome_id, dimension);
            queue_row(batch, cx - r, cz + r, 2 * r + 1, biome_id, dimension);
            queue_column(batch, cx - r, cz - r + 1, 2 * r - 1, biome_id, dimension);
            queue_column(batch, cx + r, cz - r + 1, 2 * r - 1, biome_id, dimension);
            assert(batch@ =~= before + spec_ring(cx as int, cz as int, r as int, biome_id, dimension));
        }
        assert(spec_chunks(cx as int, cz as int, r as int, biome_id, dimension) == spec_chunks(cx as int, cz as int, r - 1, biome_id, dimension) + spec_ring(cx as int, cz as int, r as int, biome_id, dimension));
        assert(batch@ =~= old(batch)@ + spec_chunks(cx as int, cz as int, r as int, biome_id, dimension));
        r = r + 1;
    }
    if view_distance < 0 {
        assert(spec_chunks(cx as int, cz as int, view_distance as int, biome_id, dimension) =~= Seq::<PacketRegistry>::empty());
    }
}

} // verus!
