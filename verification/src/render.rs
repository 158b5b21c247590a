//! Sprite batching: the order the frame's sprites are drawn in, the draw
//! calls that order splits into (one per run of sprites sharing a
//! texture) and the index buffer of their quads.

use vstd::prelude::*;

use crate::engine::TextureHandle;

verus! {

/// What the batcher reads of a queued sprite.
#[derive(Debug, Clone, Copy, PartialEq, Eq, Structural)]
pub struct SpriteKey {
    pub texture: TextureHandle,
    pub layer: i32,
    /// Whether the texture is loaded; a sprite without one is skipped.
    pub has_texture: bool,
}

/// One draw call: a run of the index buffer drawn with one texture.
#[derive(Debug, Clone, Copy, PartialEq, Eq, Structural)]
pub struct DrawGroup {
    pub texture: TextureHandle,
    pub index_start: u32,
    pub index_count: u32,
}

/// A frame's draw plan.
#[derive(Debug)]
pub struct DrawPlan {
    /// Queue positions of the sprites, in the order they are drawn.
    pub order: Vec<usize>,
    /// The draw calls, in order.
    pub groups: Vec<DrawGroup>,
    /// Six indices (two triangles) per drawn sprite.
    pub indices: Vec<u16>,
}

/// The sprite queued at `a` is drawn before the one at `b`: lower layer
/// first, then lower texture id, then the one queued first.
pub open spec fn draws_before(keys: Seq<SpriteKey>, a: int, b: int) -> bool {
    ||| keys[a].layer < keys[b].layer
    ||| (keys[a].layer == keys[b].layer && keys[a].texture.id < keys[b].texture.id)
    ||| (keys[a].layer == keys[b].layer && keys[a].texture.id == keys[b].texture.id && a < b)
}

/// `order` lists every queue position exactly once, in drawing order.
pub open spec fn is_draw_order(keys: Seq<SpriteKey>, order: Seq<usize>) -> bool {
    &&& order.len() == keys.len()
    &&& forall|i: int| 0 <= i < order.len() ==> order[i] < keys.len()
    &&& forall|j: usize| j < keys.len() ==> #[trigger] order.contains(j)
    &&& forall|i: int, j: int|
        0 <= i < j < order.len() ==> #[trigger] draws_before(keys, order[i] as int, order[j] as int)
}

/// The keys in drawing order.
pub open spec fn in_draw_order(keys: Seq<SpriteKey>, order: Seq<usize>) -> Seq<SpriteKey> {
    order.map_values(|p: usize| keys[p as int])
}

/// How many of the sprites have a texture.
pub open spec fn drawable_count(items: Seq<SpriteKey>) -> nat
    decreases items.len(),
{
    if items.len() == 0 {
        0
    } else {
        drawable_count(items.drop_last()) + if items.last().has_texture {
            1nat
        } else {
            0nat
        }
    }
}

/// The draw call of an open run, if the run has indices.
pub open spec fn close_run(groups: Seq<DrawGroup>, open: Option<TextureHandle>, start: int, count: int) -> Seq<
    DrawGroup,
> {
    match open {
        Some(t) if count > 0 => groups.push(
            DrawGroup { texture: t, index_start: start as u32, index_count: count as u32 },
        ),
        _ => groups,
    }
}

/// Batching after a prefix of the sprites in drawing order: the draw calls
/// closed so far, the texture of the open run, where its indices start and
/// how many it has. A sprite without a texture, or with another texture
/// than the open run's, closes the run; a sprite with a texture adds six
/// indices to the (new) open run.
pub open spec fn batch_state(items: Seq<SpriteKey>) -> (Seq<DrawGroup>, Option<TextureHandle>, int, int)
    decreases items.len(),
{
    if items.len() == 0 {
        (Seq::empty(), None, 0, 0)
    } else {
        let (groups, open, start, count) = batch_state(items.drop_last());
        let k = items.last();
        let closes = (!k.has_texture || open != Some(k.texture)) && count > 0;
        let groups2 = if closes {
            close_run(groups, open, start, count)
        } else {
            groups
        };
        let start2 = if closes {
            start + count
        } else {
            start
        };
        let count2 = if closes {
            0
        } else {
            count
        };
        if k.has_texture {
            (groups2, Some(k.texture), start2, count2 + 6)
        } else {
            (groups2, None, start2, count2)
        }
    }
}

/// The draw calls of sprites in drawing order.
pub open spec fn draw_groups(items: Seq<SpriteKey>) -> Seq<DrawGroup> {
    let (groups, open, start, count) = batch_state(items);
    close_run(groups, open, start, count)
}

/// Corner of the quad that the `j`-th index of a sprite names: the two
/// triangles (0, 1, 2) and (0, 2, 3).
pub open spec fn quad_corner(j: int) -> int {
    if j == 0 || j == 3 {
        0
    } else if j == 1 {
        1
    } else if j == 2 || j == 4 {
        2
    } else {
        3
    }
}

/// The `i`-th index of the buffer: the drawn sprite `i / 6` owns vertices
/// from `4 * (i / 6)`, numbered modulo 65536 as a 16-bit index wraps.
pub open spec fn quad_index(i: int) -> int {
    4 * ((i / 6) % 16384) + quad_corner(i % 6)
}

/// The draw calls split `0 .. end` of the index buffer into consecutive,
/// non-empty runs: the first starts at 0, each starts where the one before
/// it ends, and the last ends at `end`.
pub open spec fn tiles_indices(groups: Seq<DrawGroup>, end: int) -> bool {
    &&& forall|g: int| 0 <= g < groups.len() ==> #[trigger] groups[g].index_count > 0
    &&& forall|g: int|
        0 < g < groups.len() ==> #[trigger] groups[g].index_start == groups[g - 1].index_start
            + groups[g - 1].index_count
    &&& groups.len() == 0 ==> end == 0
    &&& groups.len() > 0 ==> groups[0].index_start == 0 && groups.last().index_start
        + groups.last().index_count == end
}

proof fn lemma_drawable_count_bound(items: Seq<SpriteKey>)
    ensures
        drawable_count(items) <= items.len(),
    decreases items.len(),
{
    if items.len() > 0 {
        lemma_drawable_count_bound(items.drop_last());
    }
}

proof fn lemma_batch_state(items: Seq<SpriteKey>)
    requires
        6 * items.len() <= u32::MAX,
    ensures
        ({
            let (groups, open, start, count) = batch_state(items);
            &&& tiles_indices(groups, start)
            &&& 0 <= start
            &&& 0 <= count
            &&& start + count == 6 * drawable_count(items)
            &&& count > 0 ==> open is Some
        }),
    decreases items.len(),
{
    if items.len() > 0 {
        let prefix = items.drop_last();
        lemma_batch_state(prefix);
        lemma_drawable_count_bound(prefix);
        let (groups, open, start, count) = batch_state(prefix);
        let k = items.last();
        let closes = (!k.has_texture || open != Some(k.texture)) && count > 0;
        if closes {
            let t = open->0;
            let pushed = groups.push(DrawGroup { texture: t, index_start: start as u32, index_count: count as u32 });
            assert(close_run(groups, open, start, count) == pushed);
            assert(tiles_indices(pushed, start + count));
        }
    }
}

/// The draw calls split the index buffer into consecutive runs, one after
/// the other, that cover it exactly: six indices per textured sprite.
pub proof fn lemma_draw_calls_tile_indices(items: Seq<SpriteKey>)
    requires
        6 * items.len() <= u32::MAX,
    ensures
        tiles_indices(draw_groups(items), 6 * drawable_count(items) as int),
{
    lemma_batch_state(items);
    lemma_drawable_count_bound(items);
    let (groups, open, start, count) = batch_state(items);
    if count > 0 {
        let t = open->0;
        let pushed = groups.push(DrawGroup { texture: t, index_start: start as u32, index_count: count as u32 });
        assert(draw_groups(items) == pushed);
        assert(tiles_indices(pushed, start + count));
    }
}

/// The sprites that have a texture, in order: the ones that get drawn.
pub open spec fn textured(items: Seq<SpriteKey>) -> Seq<SpriteKey>
    decreases items.len(),
{
    if items.len() == 0 {
        Seq::empty()
    } else if items.last().has_texture {
        textured(items.drop_last()).push(items.last())
    } else {
        textured(items.drop_last())
    }
}

/// Each draw call's indices belong to drawn sprites of the call's texture:
/// drawn sprite `q` owns indices `6 * q .. 6 * q + 6`.
pub open spec fn calls_match_textures(groups: Seq<DrawGroup>, drawn: Seq<SpriteKey>) -> bool {
    forall|g: int, q: int|
        0 <= g < groups.len() && groups[g].index_start <= 6 * q < groups[g].index_start
            + groups[g].index_count ==> 0 <= q < drawn.len() && #[trigger] drawn[q].texture
            == #[trigger] groups[g].texture
}

proof fn lemma_textured_len(items: Seq<SpriteKey>)
    ensures
        textured(items).len() == drawable_count(items),
    decreases items.len(),
{
    if items.len() > 0 {
        lemma_textured_len(items.drop_last());
    }
}

proof fn lemma_batch_textures(items: Seq<SpriteKey>)
    requires
        6 * items.len() <= u32::MAX,
    ensures
        ({
            let (groups, open, start, count) = batch_state(items);
            let drawn = textured(items);
            &&& calls_match_textures(groups, drawn)
            &&& forall|g: int|
                0 <= g < groups.len() ==> #[trigger] groups[g].index_start + groups[g].index_count <= start
            &&& forall|q: int|
                start <= 6 * q < start + count ==> 0 <= q < drawn.len() && open == Some(
                    #[trigger] drawn[q].texture,
                )
        }),
    decreases items.len(),
{
    lemma_batch_state(items);
    lemma_textured_len(items);
    if items.len() > 0 {
        let prefix = items.drop_last();
        lemma_batch_textures(prefix);
        lemma_batch_state(prefix);
        lemma_textured_len(prefix);
        lemma_drawable_count_bound(prefix);
        let (groups, open, start, count) = batch_state(prefix);
        let drawn = textured(prefix);
        let k = items.last();
        let drawn2 = textured(items);
        assert(forall|q: int| 0 <= q < drawn.len() ==> drawn2[q] == drawn[q]);
        let closes = (!k.has_texture || open != Some(k.texture)) && count > 0;
        if closes {
            let t = open->0;
            let pushed = groups.push(DrawGroup { texture: t, index_start: start as u32, index_count: count as u32 });
            assert(close_run(groups, open, start, count) == pushed);
            assert forall|g: int, q: int|
                0 <= g < pushed.len() && pushed[g].index_start <= 6 * q < pushed[g].index_start
                    + pushed[g].index_count implies 0 <= q < drawn2.len() && #[trigger] drawn2[q].texture
                == #[trigger] pushed[g].texture by {
                if g < groups.len() {
                    assert(groups[g].index_start + groups[g].index_count <= start);
                    assert(pushed[g] == groups[g]);
                } else {
                    assert(open == Some(drawn[q].texture));
                }
            }
        }
    }
}

/// Batching groups by texture: every index of a draw call belongs to a
/// drawn sprite with that call's texture.
pub proof fn lemma_draw_calls_share_a_texture(items: Seq<SpriteKey>)
    requires
        6 * items.len() <= u32::MAX,
    ensures
        calls_match_textures(draw_groups(items), textured(items)),
{
    lemma_batch_textures(items);
    lemma_batch_state(items);
    lemma_drawable_count_bound(items);
    lemma_textured_len(items);
    let (groups, open, start, count) = batch_state(items);
    let drawn = textured(items);
    if count > 0 {
        let t = open->0;
        let pushed = groups.push(DrawGroup { texture: t, index_start: start as u32, index_count: count as u32 });
        assert(draw_groups(items) == pushed);
        assert forall|g: int, q: int|
            0 <= g < pushed.len() && pushed[g].index_start <= 6 * q < pushed[g].index_start
                + pushed[g].index_count implies 0 <= q < drawn.len() && #[trigger] drawn[q].texture
            == #[trigger] pushed[g].texture by {
            if g < groups.len() {
                assert(pushed[g] == groups[g]);
            } else {
                assert(start <= 6 * q < start + count);
                assert(open == Some(drawn[q].texture));
            }
        }
    }
}

/// Whether the sprite at `a` goes before the one at `b`.
fn draws_first(keys: &Vec<SpriteKey>, a: usize, b: usize) -> (r: bool)
    requires
        a < keys.len(),
        b < keys.len(),
    ensures
        r == draws_before(keys@, a as int, b as int),
{
    let ka = keys[a];
    let kb = keys[b];
    ka.layer < kb.layer || (ka.layer == kb.layer && ka.texture.id < kb.texture.id) || (ka.layer == kb.layer
        && ka.texture.id == kb.texture.id && a < b)
}

/// Queue positions sorted into drawing order, stably: by layer, then by
/// texture.
fn draw_order(keys: &Vec<SpriteKey>) -> (order: Vec<usize>)
    ensures
        is_draw_order(keys@, order@),
{
    let n = keys.len();
    let mut order: Vec<usize> = Vec::new();
    let mut k: usize = 0;
    while k < n
        invariant
            n == keys.len(),
            k <= n,
            order.len() == k,
            forall|q: int| 0 <= q < k ==> order@[q] < k,
            forall|j: usize| j < k ==> #[trigger] order@.contains(j),
            forall|a: int, b: int|
                0 <= a < b < k ==> #[trigger] draws_before(keys@, order@[a] as int, order@[b] as int),
        decreases n - k,
    {
        let mut p: usize = 0;
        let mut found = false;
        while !found && p < order.len()
            invariant
                n == keys.len(),
                k < n,
                order.len() == k,
                forall|q: int| 0 <= q < k ==> order@[q] < k,
                p <= order.len(),
                forall|q: int| 0 <= q < p ==> draws_before(keys@, order@[q] as int, k as int),
                found ==> p < order.len() && draws_before(keys@, k as int, order@[p as int] as int),
            decreases order.len() - p + if found {
                0int
            } else {
                1int
            },
        {
            if draws_first(keys, k, order[p]) {
                found = true;
            } else {
                p = p + 1;
            }
        }
        let ghost old_order = order@;
        order.insert(p, k);
        proof {
            let s = order@;
            assert(s == old_order.insert(p as int, k));
            assert forall|a: int, b: int| 0 <= a < b < k + 1 implies #[trigger] draws_before(
                keys@,
                s[a] as int,
                s[b] as int,
            ) by {
                if b < p {
                    assert(draws_before(keys@, old_order[a] as int, old_order[b] as int));
                } else if b == p {
                    assert(draws_before(keys@, old_order[a] as int, k as int));
                } else if a < p {
                    assert(draws_before(keys@, old_order[a] as int, old_order[b - 1] as int));
                } else if a == p {
                    assert(draws_before(keys@, k as int, old_order[p as int] as int));
                    if b - 1 > p {
                        assert(draws_before(keys@, old_order[p as int] as int, old_order[b - 1] as int));
                    }
                } else {
                    assert(draws_before(keys@, old_order[a - 1] as int, old_order[b - 1] as int));
                }
            }
            assert forall|j: usize| j < k + 1 implies #[trigger] s.contains(j) by {
                if j == k {
                    assert(s[p as int] == k);
                } else {
                    assert(old_order.contains(j));
                    let t = choose|t: int| 0 <= t < old_order.len() && old_order[t] == j;
                    if t < p {
                        assert(s[t] == j);
                    } else {
                        assert(s[t + 1] == j);
                    }
                }
            }
        }
        k = k + 1;
    }
    order
}

/// Lays out the frame: the sprites in drawing order (by layer, then by
/// texture, keeping queue order among equals), one draw call per run of
/// textured sprites sharing a texture, and six indices per textured sprite.
/// Sprites without a texture are left out and end the run they fall in.
pub fn plan_batches(keys: &Vec<SpriteKey>) -> (plan: DrawPlan)
    requires
        6 * keys.len() <= u32::MAX,
    ensures
        is_draw_order(keys@, plan.order@),
        plan.groups@ == draw_groups(in_draw_order(keys@, plan.order@)),
        plan.indices@.len() == 6 * drawable_count(in_draw_order(keys@, plan.order@)),
        forall|i: int| 0 <= i < plan.indices@.len() ==> plan.indices@[i] == quad_index(i),
{
    let order = draw_order(keys);
    let n = keys.len();
    let ghost items = in_draw_order(keys@, order@);
    let mut groups: Vec<DrawGroup> = Vec::new();
    let mut indices: Vec<u16> = Vec::new();
    let mut open: Option<TextureHandle> = None;
    let mut start: u32 = 0;
    let mut count: u32 = 0;
    let mut drawn: usize = 0;
    let mut i: usize = 0;
    proof {
        assert(items.take(0) =~= Seq::<SpriteKey>::empty());
    }
    while i < n
        invariant
            n == keys.len(),
            6 * n <= u32::MAX,
            is_draw_order(keys@, order@),
            items == in_draw_order(keys@, order@),
            items.len() == n,
            i <= n,
            batch_state(items.take(i as int)) == (groups@, open, start as int, count as int),
            drawn == drawable_count(items.take(i as int)),
            drawn <= i,
            start + count == 6 * drawn,
            indices@.len() == 6 * drawn,
            forall|q: int| 0 <= q < indices@.len() ==> indices@[q] == quad_index(q),
        decreases n - i,
    {
        let key = keys[order[i]];
        proof {
            assert(items.take(i + 1).drop_last() =~= items.take(i as int));
            assert(items.take(i + 1).last() == key);
        }
        let same = match open {
            Some(t) => t.id == key.texture.id,
            None => false,
        };
        if (!key.has_texture || !same) && count > 0 {
            match open {
                Some(t) => {
                    groups.push(DrawGroup { texture: t, index_start: start, index_count: count });
                },
                None => {},
            }
            start = start + count;
            count = 0;
        }
        if key.has_texture {
            open = Some(key.texture);
            let base: u16 = ((drawn % 16384) * 4) as u16;
            let ghost before = indices@;
            indices.push(base);
            indices.push(base + 1);
            indices.push(base + 2);
            indices.push(base);
            indices.push(base + 2);
            indices.push(base + 3);
            proof {
                assert forall|q: int| 0 <= q < indices@.len() implies indices@[q] == quad_index(q) by {
                    if q >= before.len() {
                        let j = q - 6 * drawn;
                        assert(0 <= j < 6);
                        assert(q / 6 == drawn && q % 6 == j) by (nonlinear_arith)
                            requires
                                q == 6 * drawn + j,
                                0 <= j < 6,
                        ;
                    } else {
                        assert(indices@[q] == before[q]);
                    }
                }
            }
            count = count + 6;
            drawn = drawn + 1;
        } else {
            open = None;
        }
        i = i + 1;
    }
    proof {
        assert(items.take(n as int) =~= items);
    }
    match open {
        Some(t) => {
            if count > 0 {
                groups.push(DrawGroup { texture: t, index_start: start, index_count: count });
            }
        },
        None => {},
    }
    DrawPlan { order, groups, indices }
}

} // verus!
