//! The service's cross-cutting guarantees, each stated over the models that
//! the operations' own contracts use and proved once and for all.

use vstd::prelude::*;

use crate::list::{matching, page_slice, spec_total_pages, Criteria};
use crate::post::{created_model, merged, CreateModel, PostModel, UpdateModel};
use crate::store::{contains_id, ids_unique, slug_visible, sorted_by_created_desc};

verus! {

/// Every row a filter lets through is a row of the table.
proof fn lemma_matching_members(s: Seq<PostModel>, c: Criteria)
    ensures
        forall|k: int| 0 <= k < matching(s, c).len() ==> s.contains(#[trigger] matching(s, c)[k]),
    decreases s.len(),
{
    if s.len() > 0 {
        let pre = s.drop_last();
        lemma_matching_members(pre, c);
        assert forall|k: int| 0 <= k < matching(s, c).len() implies s.contains(
            #[trigger] matching(s, c)[k],
        ) by {
            if k < matching(pre, c).len() {
                assert(pre.contains(matching(pre, c)[k]));
                let j = choose|j: int| 0 <= j < pre.len() && pre[j] == matching(pre, c)[k];
                assert(s[j] == matching(s, c)[k]);
            } else {
                assert(matching(s, c)[k] == s.last());
                assert(s[s.len() - 1] == s.last());
            }
        }
    }
}

/// A listing never reorders: the rows a filter lets through, and so any page
/// cut from them, stand newest first, as the table does.
pub proof fn lemma_listing_newest_first(
    s: Seq<PostModel>,
    c: Criteria,
    offset: int,
    limit: int,
)
    requires
        sorted_by_created_desc(s),
        offset >= 0,
        limit >= 0,
    ensures
        sorted_by_created_desc(matching(s, c)),
        sorted_by_created_desc(page_slice(matching(s, c), offset, limit)),
    decreases s.len(),
{
    if s.len() > 0 {
        let pre = s.drop_last();
        assert(sorted_by_created_desc(pre)) by {
            assert(forall|i: int| 0 <= i < pre.len() ==> pre[i] == s[i]);
        }
        lemma_listing_newest_first(pre, c, offset, limit);
        lemma_matching_members(pre, c);
        if matching(s, c).len() > 0 && matching(s, c) == matching(pre, c).push(s.last()) {
            assert forall|i: int, j: int|
                0 <= i <= j < matching(s, c).len() implies matching(s, c)[i].created_at >= matching(
                s,
                c,
            )[j].created_at by {
                if j < matching(pre, c).len() {
                    assert(matching(s, c)[i] == matching(pre, c)[i]);
                    assert(matching(s, c)[j] == matching(pre, c)[j]);
                } else {
                    assert(matching(s, c)[j] == s.last());
                    if i < matching(pre, c).len() {
                        assert(matching(s, c)[i] == matching(pre, c)[i]);
                        assert(pre.contains(matching(pre, c)[i]));
                        let m = choose|m: int|
                            0 <= m < pre.len() && pre[m] == matching(pre, c)[i];
                        assert(s[m].created_at >= s[s.len() - 1].created_at);
                    }
                }
            }
        }
    }
    let rows = matching(s, c);
    let sliced = page_slice(rows, offset, limit);
    assert forall|i: int, j: int|
        0 <= i <= j < sliced.len() implies sliced[i].created_at >= sliced[j].created_at by {
        let start = if offset > rows.len() {
            rows.len() as int
        } else {
            offset
        };
        assert(sliced[i] == rows[start + i]);
        assert(sliced[j] == rows[start + j]);
    }
}

/// A created post leaves creation with both timestamps equal, and two
/// successful creates return distinct ids: the second create found its id
/// still free in a table that already held the first post.
pub proof fn lemma_create_ids_distinct(
    c: CreateModel,
    s0: Seq<PostModel>,
    s1: Seq<PostModel>,
    p1: PostModel,
    k1: int,
    p2: PostModel,
)
    requires
        0 <= k1 <= s0.len(),
        s1 == s0.insert(k1, p1),
        !contains_id(s1, p2.id),
    ensures
        p2.id != p1.id,
        created_model(c, p1.id, p1.created_at).created_at == created_model(
            c,
            p1.id,
            p1.created_at,
        ).updated_at,
{
    s0.insert_ensures(k1, p1);
    assert(s1[k1] == p1);
    assert(contains_id(s1, p1.id));
}

/// An unpublished post is served by the admin lookup by id yet hidden from
/// the public lookup by slug — provided no published post shares its slug,
/// since the slug is the public key, not a unique one.
pub proof fn lemma_unpublished_post_hidden(s: Seq<PostModel>, p: PostModel)
    requires
        s.contains(p),
        !p.published,
        forall|i: int| 0 <= i < s.len() && s[i].slug == p.slug ==> !s[i].published,
    ensures
        contains_id(s, p.id),
        !slug_visible(s, p.slug),
{
    let j = choose|j: int| 0 <= j < s.len() && s[j] == p;
    assert(s[j].id == p.id);
}

/// Pagination arithmetic: with `n` matching rows (at most the 32-bit cap, so
/// saturation never bites) and a page size `l` of at least one, the reported
/// page count is the ceiling of n / l, and the last page shows `n mod l`
/// rows — a full `l` of them when `l` divides `n`.
pub proof fn lemma_last_page(rows: Seq<PostModel>, l: int)
    requires
        1 <= l,
        0 < rows.len() <= 0x7fffffff,
    ensures
        ({
            let n = rows.len() as int;
            let tp = spec_total_pages(n, l);
            &&& tp == (n + l - 1) / l
            &&& 1 <= tp
            &&& page_slice(rows, (tp - 1) * l, l).len() == (if n % l == 0 {
                l
            } else {
                n % l
            })
        }),
{
    let n = rows.len() as int;
    vstd::arithmetic::div_mod::lemma_fundamental_div_mod(n + l - 1, l);
    let tp = (n + l - 1) / l;
    let r = (n + l - 1) % l;
    vstd::arithmetic::div_mod::lemma_mod_bound(n + l - 1, l);
    assert(n + l - 1 == l * tp + r);
    assert(0 <= r < l);
    let offset = (tp - 1) * l;
    assert((tp - 1) * l == l * tp - l) by (nonlinear_arith);
    assert(offset == n - 1 - r);
    assert(tp >= 1) by (nonlinear_arith)
        requires
            l >= 1,
            0 <= r < l,
            l * tp + r == n + l - 1,
            n >= 1,
    ;
    assert(tp <= n) by (nonlinear_arith)
        requires
            l >= 1,
            r >= 0,
            l * tp + r == n + l - 1,
            n >= 1,
    ;
    vstd::arithmetic::div_mod::lemma_fundamental_div_mod(n, l);
    vstd::arithmetic::div_mod::lemma_mod_bound(n, l);
    let qn = n / l;
    let rn = n % l;
    assert(n == l * qn + rn);
    assert(qn >= 0) by (nonlinear_arith)
        requires
            n == l * qn + rn,
            0 <= rn < l,
            n >= 1,
            l >= 1,
    ;
    if rn == 0 {
        assert(n + l - 1 == l * qn + (l - 1)) by (nonlinear_arith)
            requires
                n == l * qn,
        ;
        vstd::arithmetic::div_mod::lemma_fundamental_div_mod_converse(n + l - 1, l, qn, l - 1);
        assert(r == l - 1);
        assert(l <= n) by (nonlinear_arith)
            requires
                n == l * qn,
                n >= 1,
                l >= 1,
                qn >= 0,
        ;
    } else {
        assert(n + l - 1 == l * (qn + 1) + (rn - 1)) by (nonlinear_arith)
            requires
                n == l * qn + rn,
        ;
        vstd::arithmetic::div_mod::lemma_fundamental_div_mod_converse(n + l - 1, l, qn + 1, rn - 1);
        assert(r == rn - 1);
        assert(rn <= n) by (nonlinear_arith)
            requires
                n == l * qn + rn,
                qn >= 0,
                l >= 1,
    ;
    }
    assert(0 <= offset < n);
    assert(offset + l >= n);
    assert(page_slice(rows, offset, l).len() == n - offset);
    assert(spec_total_pages(n, l) == tp);
}

/// A partial update that supplies only the title keeps every other stored
/// field untouched, never moves `created_at`, and stamps `updated_at` to the
/// update instant — strictly later than the stored stamp whenever the clock
/// has moved at all since the last write.
pub proof fn lemma_update_merges_single_field(cur: PostModel, up: UpdateModel, now: int)
    requires
        up.content is None,
        up.excerpt is None,
        up.slug is None,
        up.author is None,
        up.published is None,
        up.featured_image is None,
        up.tags is None,
        now > cur.updated_at,
    ensures
        ({
            let m = merged(cur, up, now);
            &&& m.id == cur.id
            &&& (match up.title {
                Some(t) => m.title == t,
                None => m.title == cur.title,
            })
            &&& m.content == cur.content
            &&& m.excerpt == cur.excerpt
            &&& m.slug == cur.slug
            &&& m.author == cur.author
            &&& m.published == cur.published
            &&& m.featured_image == cur.featured_image
            &&& m.tags == cur.tags
            &&& m.created_at == cur.created_at
            &&& m.updated_at == now
            &&& m.updated_at > cur.updated_at
        }),
{
}

/// The featured-image quirk: a payload that leaves `featured_image` absent
/// keeps an existing image in place; no update can clear the field, only
/// replace it.
pub proof fn lemma_featured_image_never_cleared(
    cur: PostModel,
    up: UpdateModel,
    now: int,
    img: Seq<char>,
)
    requires
        up.featured_image is None,
        cur.featured_image == Some(img),
    ensures
        merged(cur, up, now).featured_image == Some(img),
{
}

/// Deleting a post removes exactly one row and leaves no row with its id: a
/// second delete of the same id finds nothing — it reports the id as absent
/// and removes nothing further.
pub proof fn lemma_delete_idempotent_effect(s0: Seq<PostModel>, i: int, id: Seq<char>)
    requires
        ids_unique(s0),
        0 <= i < s0.len(),
        s0[i].id == id,
    ensures
        s0.remove(i).len() == s0.len() - 1,
        !contains_id(s0.remove(i), id),
{
    s0.remove_ensures(i);
    let s1 = s0.remove(i);
    assert forall|x: int| 0 <= x < s1.len() implies s1[x].id != id by {
        if x < i {
            assert(s1[x] == s0[x]);
        } else {
            assert(s1[x] == s0[x + 1]);
        }
    }
}

} // verus!
