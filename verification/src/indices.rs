//! Triangle-index tables, described compactly and expanded at run time.
//!
//! Each triangulation layout is a short list of descriptors over base-relative
//! vertex offsets: a quad `a b c d` bridges two cross-sections with the two
//! triangles `a b c` and `c b d`; a lone triangle is given directly. Expanding
//! a descriptor list against a base vertex id yields the flat index array.

use vstd::prelude::*;

verus! {

/// One descriptor: a standalone triangle, or a quad spanning offsets
/// `a b c d`, covered by triangles `a b c` and `c b d`.
#[derive(Clone, Copy, Debug, PartialEq, Eq, Structural)]
pub enum IndexPart {
    Triangle(u16, u16, u16),
    Quad(u16, u16, u16, u16),
}

/// The flat indices one descriptor contributes, relative to `base`.
pub open spec fn part_indices(p: IndexPart, base: int) -> Seq<int> {
    match p {
        IndexPart::Triangle(a, b, c) => seq![base + a, base + b, base + c],
        IndexPart::Quad(a, b, c, d) => seq![
            base + a,
            base + b,
            base + c,
            base + c,
            base + b,
            base + d,
        ],
    }
}

/// Every index the descriptor contributes fits in `u16` once based.
pub open spec fn part_fits(p: IndexPart, base: int) -> bool {
    match p {
        IndexPart::Triangle(a, b, c) => base + a <= u16::MAX && base + b <= u16::MAX && base + c
            <= u16::MAX,
        IndexPart::Quad(a, b, c, d) => base + a <= u16::MAX && base + b <= u16::MAX && base + c
            <= u16::MAX && base + d <= u16::MAX,
    }
}

/// Every offset the descriptor references lies below `bound`.
pub open spec fn part_bounded(p: IndexPart, bound: int) -> bool {
    match p {
        IndexPart::Triangle(a, b, c) => a < bound && b < bound && c < bound,
        IndexPart::Quad(a, b, c, d) => a < bound && b < bound && c < bound && d < bound,
    }
}

/// The concatenation of all descriptors' indices, in order.
pub open spec fn expand_parts(parts: Seq<IndexPart>, base: int) -> Seq<int>
    decreases parts.len(),
{
    if parts.len() == 0 {
        Seq::empty()
    } else {
        expand_parts(parts.drop_last(), base) + part_indices(parts.last(), base)
    }
}

proof fn lemma_expand_take_step(parts: Seq<IndexPart>, base: int, i: int)
    requires
        0 <= i < parts.len(),
    ensures
        expand_parts(parts.take(i + 1), base) == expand_parts(parts.take(i), base) + part_indices(
            parts[i],
            base,
        ),
{
    let t = parts.take(i + 1);
    assert(t.drop_last() =~= parts.take(i));
    assert(t.last() == parts[i]);
}

proof fn lemma_expand_take_all(parts: Seq<IndexPart>, base: int)
    ensures
        expand_parts(parts.take(parts.len() as int), base) == expand_parts(parts, base),
{
    assert(parts.take(parts.len() as int) =~= parts);
}

/// When every descriptor's offsets lie below `bound`, so does everything the
/// expansion emits, relative to `base`.
pub proof fn lemma_expand_parts_bounded(parts: Seq<IndexPart>, base: int, bound: int)
    requires
        forall|i: int| 0 <= i < parts.len() ==> #[trigger] part_bounded(parts[i], bound),
    ensures
        forall|j: int|
            0 <= j < expand_parts(parts, base).len() ==> base <= #[trigger] expand_parts(
                parts,
                base,
            )[j] < base + bound,
    decreases parts.len(),
{
    if parts.len() > 0 {
        let prefix = parts.drop_last();
        assert(forall|i: int| 0 <= i < prefix.len() ==> #[trigger] part_bounded(prefix[i], bound));
        lemma_expand_parts_bounded(prefix, base, bound);
        assert(part_bounded(parts.last(), bound));
        let tail = part_indices(parts.last(), base);
        let whole = expand_parts(parts, base);
        assert forall|j: int| 0 <= j < whole.len() implies base <= #[trigger] whole[j] < base
            + bound by {
            if j < expand_parts(prefix, base).len() {
                assert(whole[j] == expand_parts(prefix, base)[j]);
            } else {
                assert(whole[j] == tail[j - expand_parts(prefix, base).len()]);
            }
        }
    }
}

/// Expands a descriptor list against a base vertex id into the flat index
/// array: two triangles per quad, one per triangle descriptor.
pub fn expand_indices(parts: &Vec<IndexPart>, start_id: u16) -> (r: Vec<u16>)
    requires
        forall|i: int| 0 <= i < parts@.len() ==> part_fits(parts@[i], start_id as int),
    ensures
        r@.len() == expand_parts(parts@, start_id as int).len(),
        forall|i: int|
            0 <= i < r@.len() ==> r@[i] as int == expand_parts(parts@, start_id as int)[i],
{
    let mut r: Vec<u16> = Vec::new();
    let ghost full = expand_parts(parts@, start_id as int);
    let mut k: usize = 0;
    while k < parts.len()
        invariant
            0 <= k <= parts@.len(),
            forall|i: int| 0 <= i < parts@.len() ==> part_fits(parts@[i], start_id as int),
            r@.len() == expand_parts(parts@.take(k as int), start_id as int).len(),
            forall|i: int|
                0 <= i < r@.len() ==> r@[i] as int == expand_parts(
                    parts@.take(k as int),
                    start_id as int,
                )[i],
        decreases parts@.len() - k,
    {
        let ghost prefix = expand_parts(parts@.take(k as int), start_id as int);
        proof {
            lemma_expand_take_step(parts@, start_id as int, k as int);
        }
        match parts[k] {
            IndexPart::Triangle(a, b, c) => {
                r.push(start_id + a);
                r.push(start_id + b);
                r.push(start_id + c);
            }
            IndexPart::Quad(a, b, c, d) => {
                r.push(start_id + a);
                r.push(start_id + b);
                r.push(start_id + c);
                r.push(start_id + c);
                r.push(start_id + b);
                r.push(start_id + d);
            }
        }
        k = k + 1;
        assert(r@.len() == expand_parts(parts@.take(k as int), start_id as int).len());
    }
    proof {
        lemma_expand_take_all(parts@, start_id as int);
    }
    r
}

} // verus!
