//! The text blocks that a recognition keeps, and the order in which they are returned.
use vstd::prelude::*;
use crate::error::PaddleOcrError;

verus! {

/// The order of the recognised text blocks.
#[derive(Debug, Clone, Copy, PartialEq, Eq, Structural)]
pub enum OrderBy {
    /// Top to bottom, then left to right.
    Horizontal,
    /// Right to left, then top to bottom (columns of vertical text).
    Vertical,
    /// Most confident first.
    Score,
}

/// What a text block is ordered by: its left edge `x`, its top edge `y` and its
/// confidence, each as an integer that orders as the value it stands for.
#[derive(Debug, Clone, Copy, PartialEq, Eq, Structural)]
pub struct BlockKey {
    pub x: i64,
    pub y: i64,
    pub confidence: i64,
}

/// Whether block `a` strictly goes before block `b` in `order`.
pub open spec fn goes_before(order: OrderBy, a: BlockKey, b: BlockKey) -> bool {
    match order {
        OrderBy::Horizontal => a.y < b.y || (a.y == b.y && a.x < b.x),
        OrderBy::Vertical => a.x > b.x || (a.x == b.x && a.y < b.y),
        OrderBy::Score => a.confidence > b.confidence,
    }
}

/// Whether `p` lists each of `0..n` exactly once.
pub open spec fn is_permutation(p: Seq<usize>, n: nat) -> bool {
    &&& p.len() == n
    &&& forall|k: int| 0 <= k < p.len() ==> #[trigger] p[k] < n
    &&& forall|k: int, l: int| 0 <= k < l < p.len() ==> p[k] != p[l]
    &&& forall|v: usize| v < n ==> #[trigger] p.contains(v)
}

/// Whether no block of the listing `p` goes before a block listed ahead of it.
pub open spec fn is_arranged(keys: Seq<BlockKey>, order: OrderBy, p: Seq<usize>) -> bool {
    forall|k: int, l: int|
        0 <= k < l < p.len() ==> !goes_before(
            order,
            #[trigger] keys[p[l] as int],
            #[trigger] keys[p[k] as int],
        )
}

/// Whether blocks that tie in `order` are listed in `p` in their original order.
pub open spec fn is_stable(keys: Seq<BlockKey>, order: OrderBy, p: Seq<usize>) -> bool {
    forall|k: int, l: int|
        0 <= k < l < p.len() && !goes_before(order, #[trigger] keys[p[k] as int], #[trigger] keys[p[l] as int])
            ==> p[k] < p[l]
}

/// Whether `p` is the order in which a stable sort by `order` lists the blocks.
pub open spec fn is_sorted_listing(keys: Seq<BlockKey>, order: OrderBy, p: Seq<usize>) -> bool {
    &&& is_permutation(p, keys.len())
    &&& is_arranged(keys, order, p)
    &&& is_stable(keys, order, p)
}

/// "Not after" is transitive: if `a` does not go after `b`, nor `b` after `c`, then
/// `a` does not go after `c`.
pub proof fn lemma_not_after_transitive(order: OrderBy, a: BlockKey, b: BlockKey, c: BlockKey)
    requires
        !goes_before(order, b, a),
        !goes_before(order, c, b),
    ensures
        !goes_before(order, c, a),
{
}

/// Going before is asymmetric.
pub proof fn lemma_goes_before_asymmetric(order: OrderBy, a: BlockKey, b: BlockKey)
    requires
        goes_before(order, a, b),
    ensures
        !goes_before(order, b, a),
{
}

proof fn lemma_listings_agree_below(keys: Seq<BlockKey>, order: OrderBy, p: Seq<usize>, q: Seq<usize>, m: int)
    requires
        is_sorted_listing(keys, order, p),
        is_sorted_listing(keys, order, q),
        0 <= m <= p.len(),
    ensures
        forall|k: int| 0 <= k < m ==> p[k] == q[k],
    decreases m,
{
    if m > 0 {
        let j = m - 1;
        lemma_listings_agree_below(keys, order, p, q, j);
        let a = p[j];
        let b = q[j];
        if a != b {
            assert(p.contains(b));
            let jp = choose|k: int| 0 <= k < p.len() && p[k] == b;
            assert(q.contains(a));
            let jq = choose|k: int| 0 <= k < q.len() && q[k] == a;
            if jp < j {
                assert(q[jp] == b);
            }
            if jq < j {
                assert(p[jq] == a);
            }
            assert(j < jp && j < jq);
            assert(!goes_before(order, keys[p[jp] as int], keys[p[j] as int]));
            assert(!goes_before(order, keys[q[jq] as int], keys[q[j] as int]));
        }
    }
}

/// A stable sort's result is determined by the blocks' keys: two listings that are
/// both sorted by `order` and stable list the blocks identically.
pub proof fn lemma_sorted_listing_unique(keys: Seq<BlockKey>, order: OrderBy, p: Seq<usize>, q: Seq<usize>)
    requires
        is_sorted_listing(keys, order, p),
        is_sorted_listing(keys, order, q),
    ensures
        p == q,
{
    lemma_listings_agree_below(keys, order, p, q, p.len() as int);
    assert(p =~= q);
}

/// A horizontal listing reads the page top to bottom and each line left to right: of
/// two blocks, the one listed first lies higher up, or on the same line further left,
/// or at the same place and came first among the blocks given.
pub proof fn lemma_horizontal_listing(keys: Seq<BlockKey>, p: Seq<usize>)
    requires
        is_sorted_listing(keys, OrderBy::Horizontal, p),
    ensures
        forall|k: int, l: int|
            #![trigger p[k], p[l]]
            0 <= k < l < p.len() ==> {
                let a = keys[p[k] as int];
                let b = keys[p[l] as int];
                ||| a.y < b.y
                ||| a.y == b.y && a.x < b.x
                ||| a.y == b.y && a.x == b.x && p[k] < p[l]
            },
{
    assert forall|k: int, l: int| #![trigger p[k], p[l]] 0 <= k < l < p.len() implies {
        let a = keys[p[k] as int];
        let b = keys[p[l] as int];
        ||| a.y < b.y
        ||| a.y == b.y && a.x < b.x
        ||| a.y == b.y && a.x == b.x && p[k] < p[l]
    } by {
        assert(!goes_before(OrderBy::Horizontal, keys[p[l] as int], keys[p[k] as int]));
        if !goes_before(OrderBy::Horizontal, keys[p[k] as int], keys[p[l] as int]) {
            assert(p[k] < p[l]);
        }
    }
}

/// A vertical listing reads columns right to left and each column top to bottom: of
/// two blocks, the one listed first lies further right, or in the same column higher
/// up, or at the same place and came first among the blocks given.
pub proof fn lemma_vertical_listing(keys: Seq<BlockKey>, p: Seq<usize>)
    requires
        is_sorted_listing(keys, OrderBy::Vertical, p),
    ensures
        forall|k: int, l: int|
            #![trigger p[k], p[l]]
            0 <= k < l < p.len() ==> {
                let a = keys[p[k] as int];
                let b = keys[p[l] as int];
                ||| a.x > b.x
                ||| a.x == b.x && a.y < b.y
                ||| a.x == b.x && a.y == b.y && p[k] < p[l]
            },
{
    assert forall|k: int, l: int| #![trigger p[k], p[l]] 0 <= k < l < p.len() implies {
        let a = keys[p[k] as int];
        let b = keys[p[l] as int];
        ||| a.x > b.x
        ||| a.x == b.x && a.y < b.y
        ||| a.x == b.x && a.y == b.y && p[k] < p[l]
    } by {
        assert(!goes_before(OrderBy::Vertical, keys[p[l] as int], keys[p[k] as int]));
        if !goes_before(OrderBy::Vertical, keys[p[k] as int], keys[p[l] as int]) {
            assert(p[k] < p[l]);
        }
    }
}

/// A listing by score puts the more confident of two blocks first; blocks of equal
/// confidence keep the order in which they were given.
pub proof fn lemma_score_listing(keys: Seq<BlockKey>, p: Seq<usize>)
    requires
        is_sorted_listing(keys, OrderBy::Score, p),
    ensures
        forall|k: int, l: int|
            #![trigger p[k], p[l]]
            0 <= k < l < p.len() ==> {
                let a = keys[p[k] as int];
                let b = keys[p[l] as int];
                ||| a.confidence > b.confidence
                ||| a.confidence == b.confidence && p[k] < p[l]
            },
{
    assert forall|k: int, l: int| #![trigger p[k], p[l]] 0 <= k < l < p.len() implies {
        let a = keys[p[k] as int];
        let b = keys[p[l] as int];
        ||| a.confidence > b.confidence
        ||| a.confidence == b.confidence && p[k] < p[l]
    } by {
        assert(!goes_before(OrderBy::Score, keys[p[l] as int], keys[p[k] as int]));
        if !goes_before(OrderBy::Score, keys[p[k] as int], keys[p[l] as int]) {
            assert(p[k] < p[l]);
        }
    }
}

fn block_goes_before(order: OrderBy, a: &BlockKey, b: &BlockKey) -> (r: bool)
    ensures
        r == goes_before(order, *a, *b),
{
    match order {
        OrderBy::Horizontal => a.y < b.y || (a.y == b.y && a.x < b.x),
        OrderBy::Vertical => a.x > b.x || (a.x == b.x && a.y < b.y),
        OrderBy::Score => a.confidence > b.confidence,
    }
}

/// The order in which the text blocks are returned: the indices of `keys`, sorted by
/// `order` (top to bottom then left to right, right to left then top to bottom, or
/// most confident first), blocks that tie keeping their original order.
pub fn arrange_blocks(keys: &Vec<BlockKey>, order: OrderBy) -> (r: Vec<usize>)
    ensures
        is_sorted_listing(keys@, order, r@),
{
    let n = keys.len();
    let mut listing: Vec<usize> = Vec::new();
    let mut i: usize = 0;
    while i < n
        invariant
            n == keys@.len(),
            0 <= i <= n,
            is_permutation(listing@, i as nat),
            is_arranged(keys@, order, listing@),
            is_stable(keys@, order, listing@),
        decreases n - i,
    {
        let mut pos: usize = listing.len();
        while pos > 0 && block_goes_before(order, &keys[i], &keys[listing[pos - 1]])
            invariant
                n == keys@.len(),
                i < n,
                is_permutation(listing@, i as nat),
                0 <= pos <= listing@.len(),
                forall|m: int|
                    pos <= m < listing@.len() ==> goes_before(
                        order,
                        keys@[i as int],
                        #[trigger] keys@[listing@[m] as int],
                    ),
            decreases pos,
        {
            pos = pos - 1;
        }
        let ghost old_listing = listing@;
        let ghost new_key = keys@[i as int];
        proof {
            old_listing.insert_ensures(pos as int, i);
        }
        listing.insert(pos, i);
        let ghost q = listing@;
        assert forall|k: int| 0 <= k < q.len() implies #[trigger] q[k] == (if k < pos {
            old_listing[k]
        } else if k == pos {
            i
        } else {
            old_listing[k - 1]
        }) by {
            if k > pos {
                assert(q[(k - 1) + 1] == old_listing[k - 1]);
            }
        }
        // the new block goes after every block ahead of it
        assert forall|k: int| 0 <= k < pos implies !goes_before(
            order,
            new_key,
            #[trigger] keys@[old_listing[k] as int],
        ) by {
            if k < pos - 1 {
                assert(!goes_before(
                    order,
                    keys@[old_listing[pos - 1] as int],
                    keys@[old_listing[k] as int],
                ));
                lemma_not_after_transitive(
                    order,
                    keys@[old_listing[k] as int],
                    keys@[old_listing[pos - 1] as int],
                    new_key,
                );
            }
        }
        assert(is_permutation(q, (i + 1) as nat)) by {
            assert forall|v: usize| v < (i + 1) as nat implies #[trigger] q.contains(v) by {
                if v == i {
                    assert(q[pos as int] == v);
                } else {
                    assert(old_listing.contains(v));
                    let k0 = choose|k: int| 0 <= k < old_listing.len() && old_listing[k] == v;
                    if k0 < pos {
                        assert(q[k0] == v);
                    } else {
                        assert(q[k0 + 1] == v);
                    }
                }
            }
        }
        assert(is_arranged(keys@, order, q)) by {
            assert forall|k: int, l: int| 0 <= k < l < q.len() implies !goes_before(
                order,
                #[trigger] keys@[q[l] as int],
                #[trigger] keys@[q[k] as int],
            ) by {
                if l == pos {
                } else if k == pos {
                    lemma_goes_before_asymmetric(order, new_key, keys@[old_listing[l - 1] as int]);
                } else {
                    let k1 = if k < pos { k } else { k - 1 };
                    let l1 = if l < pos { l } else { l - 1 };
                    assert(q[k] == old_listing[k1] && q[l] == old_listing[l1]);
                    assert(!goes_before(order, keys@[old_listing[l1] as int], keys@[old_listing[k1] as int]));
                }
            }
        }
        assert(is_stable(keys@, order, q)) by {
            assert forall|k: int, l: int|
                0 <= k < l < q.len() && !goes_before(
                    order,
                    #[trigger] keys@[q[k] as int],
                    #[trigger] keys@[q[l] as int],
                ) implies q[k] < q[l] by {
                if l == pos {
                    assert(q[k] == old_listing[k]);
                } else if k == pos {
                    assert(q[l] == old_listing[l - 1]);
                } else {
                    let k1 = if k < pos { k } else { k - 1 };
                    let l1 = if l < pos { l } else { l - 1 };
                    assert(q[k] == old_listing[k1] && q[l] == old_listing[l1]);
                }
            }
        }
        i = i + 1;
    }
    listing
}

/// Whether a recognition outcome yields a text block: it succeeded with some text.
pub open spec fn yields_block(outcome: Result<String, PaddleOcrError>) -> bool {
    outcome matches Ok(text) && text@.len() > 0
}

/// Whether `r` lists, in increasing order, exactly the indices of the outcomes that
/// yield a text block.
pub open spec fn is_kept_listing(outcomes: Seq<Result<String, PaddleOcrError>>, r: Seq<usize>) -> bool {
    &&& forall|k: int, l: int| 0 <= k < l < r.len() ==> r[k] < r[l]
    &&& forall|k: int|
        0 <= k < r.len() ==> #[trigger] r[k] < outcomes.len() && yields_block(outcomes[r[k] as int])
    &&& forall|i: int|
        0 <= i < outcomes.len() && yields_block(#[trigger] outcomes[i]) ==> exists|k: int|
            0 <= k < r.len() && r[k] == i
}

/// Every recognition that succeeded with at least one character becomes a text block,
/// and nothing else does: an index is kept exactly when its outcome is `Ok` with a
/// non-empty text, and the kept indices come in increasing order.
pub proof fn lemma_kept_regions_are_the_nonempty_texts(
    outcomes: Seq<Result<String, PaddleOcrError>>,
    r: Seq<usize>,
)
    requires
        is_kept_listing(outcomes, r),
    ensures
        forall|k: int, l: int| #![trigger r[k], r[l]] 0 <= k < l < r.len() ==> r[k] < r[l],
        forall|i: int|
            0 <= i < outcomes.len() ==> ((exists|k: int| 0 <= k < r.len() && r[k] == i) <==> (
            #[trigger] outcomes[i] matches Ok(text) && text@.len() >= 1)),
{
    assert forall|i: int| 0 <= i < outcomes.len() implies ((exists|k: int|
        0 <= k < r.len() && r[k] == i) <==> (#[trigger] outcomes[i] matches Ok(text) && text@.len()
        >= 1)) by {
        if exists|k: int| 0 <= k < r.len() && r[k] == i {
            let k = choose|k: int| 0 <= k < r.len() && r[k] == i;
            assert(yields_block(outcomes[r[k] as int]));
        }
    }
}

/// The text regions that become text blocks: the indices, in increasing order, of the
/// recognitions that succeeded with non-empty text. Failed recognitions (degenerate
/// regions among them) and empty texts are skipped.
pub fn kept_regions(outcomes: &Vec<Result<String, PaddleOcrError>>) -> (r: Vec<usize>)
    ensures
        is_kept_listing(outcomes@, r@),
{
    let mut kept: Vec<usize> = Vec::new();
    let mut i: usize = 0;
    while i < outcomes.len()
        invariant
            0 <= i <= outcomes@.len(),
            forall|k: int, l: int| 0 <= k < l < kept@.len() ==> kept@[k] < kept@[l],
            forall|k: int| 0 <= k < kept@.len() ==> #[trigger] kept@[k] < i,
            forall|k: int|
                0 <= k < kept@.len() ==> yields_block(outcomes@[#[trigger] kept@[k] as int]),
            forall|j: int|
                0 <= j < i && yields_block(#[trigger] outcomes@[j]) ==> exists|k: int|
                    0 <= k < kept@.len() && kept@[k] == j,
        decreases outcomes@.len() - i,
    {
        let keep = match &outcomes[i] {
            Ok(text) => !text.as_str().is_empty(),
            Err(_) => false,
        };
        if keep {
            let ghost before = kept@;
            kept.push(i);
            assert forall|j: int|
                0 <= j < i + 1 && yields_block(#[trigger] outcomes@[j]) implies exists|k: int|
                0 <= k < kept@.len() && kept@[k] == j by {
                if j == i {
                    assert(kept@[before.len() as int] == j);
                } else {
                    let k0 = choose|k: int| 0 <= k < before.len() && before[k] == j;
                    assert(kept@[k0] == j);
                }
            }
        }
        i = i + 1;
    }
    kept
}

/// Whether an image of this size can be recognised as a whole, when detection found no
/// text region: it has at least one pixel in each direction.
pub fn full_image_usable(width: u32, height: u32) -> (r: bool)
    ensures
        r == (width >= 1 && height >= 1),
{
    width >= 1 && height >= 1
}

} // verus!
