//! Filtered, paginated listings over the table of posts: the public listing
//! (published rows only, page size capped) and the admin listing (all rows,
//! page size uncapped, empty filter strings ignored).

use vstd::prelude::*;

use crate::post::{Post, PostModel};
use crate::store::PostStore;
use crate::text::{contains_seq, contains_substr, tags_contain};
use crate::ServiceError;

verus! {

/// Model of the listing query parameters.
pub ghost struct QueryModel {
    pub page: Option<int>,
    pub limit: Option<int>,
    pub tag: Option<Seq<char>>,
    pub search: Option<Seq<char>>,
}

/// The query parameters of both listings: page and page size, an exact tag
/// filter, and a substring search over title and content. Every field is
/// optional.
#[derive(Debug)]
pub struct PostQuery {
    pub page: Option<i32>,
    pub limit: Option<i32>,
    pub tag: Option<String>,
    pub search: Option<String>,
}

impl View for PostQuery {
    type V = QueryModel;

    open spec fn view(&self) -> QueryModel {
        QueryModel {
            page: match self.page {
                Some(p) => Some(p as int),
                None => None,
            },
            limit: match self.limit {
                Some(l) => Some(l as int),
                None => None,
            },
            tag: self.tag.deep_view(),
            search: self.search.deep_view(),
        }
    }
}

/// What a listing filters by: publication state, exact tag membership, and a
/// substring search over title and content. Absent parts match every row.
pub ghost struct Criteria {
    pub published_only: bool,
    pub tag: Option<Seq<char>>,
    pub search: Option<Seq<char>>,
}

/// Does the row satisfy every part of the criteria?
pub open spec fn row_matches(p: PostModel, c: Criteria) -> bool {
    &&& (c.published_only ==> p.published)
    &&& (match c.tag {
        Some(t) => p.tags.contains(t),
        None => true,
    })
    &&& (match c.search {
        Some(s) => contains_seq(p.title, s) || contains_seq(p.content, s),
        None => true,
    })
}

/// The rows that satisfy the criteria, in their order in the table.
pub open spec fn matching(s: Seq<PostModel>, c: Criteria) -> Seq<PostModel>
    decreases s.len(),
{
    if s.len() == 0 {
        Seq::empty()
    } else {
        let rest = matching(s.drop_last(), c);
        if row_matches(s.last(), c) {
            rest.push(s.last())
        } else {
            rest
        }
    }
}

/// An empty filter string counts as no filter at all (the admin rule).
pub open spec fn nonempty_or_none(o: Option<Seq<char>>) -> Option<Seq<char>> {
    match o {
        Some(s) => if s.len() == 0 {
            None
        } else {
            Some(s)
        },
        None => None,
    }
}

/// The public listing sees published rows only and takes the filter strings
/// as given, empty or not.
pub open spec fn public_criteria(q: QueryModel) -> Criteria {
    Criteria { published_only: true, tag: q.tag, search: q.search }
}

/// The admin listing sees every row and ignores empty filter strings.
pub open spec fn admin_criteria(q: QueryModel) -> Criteria {
    Criteria {
        published_only: false,
        tag: nonempty_or_none(q.tag),
        search: nonempty_or_none(q.search),
    }
}

/// The page the public listing serves: the requested one, floored at 1;
/// 1 when not requested.
pub open spec fn public_page(q: QueryModel) -> int {
    match q.page {
        Some(p) => if p < 1 {
            1
        } else {
            p
        },
        None => 1,
    }
}

/// The page size the public listing uses: the requested one, else the
/// configured posts-per-page; either way capped at 50.
pub open spec fn public_limit(q: QueryModel, posts_per_page: int) -> int {
    let l = match q.limit {
        Some(l) => l,
        None => posts_per_page,
    };
    if l > 50 {
        50
    } else {
        l
    }
}

/// The page the admin listing serves: the requested one, taken as given
/// (not floored); 1 when not requested.
pub open spec fn admin_page(q: QueryModel) -> int {
    match q.page {
        Some(p) => p,
        None => 1,
    }
}

/// The page size the admin listing uses: the requested one, uncapped;
/// 10 when not requested.
pub open spec fn admin_limit(q: QueryModel) -> int {
    match q.limit {
        Some(l) => l,
        None => 10,
    }
}

/// The number of pages reported for `total` rows at page size `limit`: the
/// ceiling of total / limit, saturated at the largest 32-bit value — which is
/// also what a page size of zero reports whenever any row matches.
pub open spec fn spec_total_pages(total: int, limit: int) -> int
    recommends
        total >= 0,
        limit >= 0,
{
    if limit == 0 {
        if total == 0 {
            0
        } else {
            0x7fffffff
        }
    } else {
        let tp = (total + limit - 1) / limit;
        if tp > 0x7fffffff {
            0x7fffffff
        } else {
            tp
        }
    }
}

/// The window of `s` a page shows: `limit` rows from `offset`, clipped to
/// the end of `s`.
pub open spec fn page_slice(s: Seq<PostModel>, offset: int, limit: int) -> Seq<PostModel>
    recommends
        offset >= 0,
        limit >= 0,
{
    let start = if offset > s.len() {
        s.len() as int
    } else {
        offset
    };
    let end = if offset + limit > s.len() {
        s.len() as int
    } else {
        offset + limit
    };
    s.subrange(start, end)
}

/// The pagination summary served beside a page of posts.
#[derive(Debug)]
pub struct Pagination {
    pub current_page: i32,
    pub total_pages: i32,
    pub total_posts: u64,
    pub posts_per_page: i32,
}

/// One page of posts plus its pagination summary.
#[derive(Debug)]
pub struct PostPage {
    pub posts: Vec<Post>,
    pub pagination: Pagination,
}

/// The served page is correct for `rows` (the rows that match the criteria,
/// in table order), the effective page number and the effective page size.
pub open spec fn list_result_ok(rows: Seq<PostModel>, page: int, limit: int, pg: PostPage) -> bool {
    &&& pg.pagination.current_page == page
    &&& pg.pagination.posts_per_page == limit
    &&& pg.pagination.total_posts == rows.len()
    &&& pg.pagination.total_pages == spec_total_pages(rows.len() as int, limit)
    &&& pg.posts.deep_view() == page_slice(rows, (page - 1) * limit, limit)
}

/// Does the row satisfy every part of the criteria?
fn row_matches_exec(
    p: &Post,
    published_only: bool,
    tag: &Option<String>,
    search: &Option<String>,
) -> (r: bool)
    ensures
        r == row_matches(
            p@,
            (Criteria { published_only, tag: tag.deep_view(), search: search.deep_view() }),
        ),
{
    if published_only && !p.published {
        return false;
    }
    match tag {
        Some(t) => {
            if !tags_contain(&p.tags, t) {
                return false;
            }
        },
        None => {},
    }
    match search {
        Some(s) => {
            if !contains_substr(p.title.as_str(), s.as_str()) && !contains_substr(
                p.content.as_str(),
                s.as_str(),
            ) {
                return false;
            }
        },
        None => {},
    }
    true
}

impl PostStore {
    /// The rows that satisfy the criteria, in table order.
    #[verifier::loop_isolation(false)]
    fn filter_rows(&self, published_only: bool, tag: &Option<String>, search: &Option<String>) -> (r:
        Vec<Post>)
        ensures
            r.deep_view() == matching(
                self@,
                (Criteria { published_only, tag: tag.deep_view(), search: search.deep_view() }),
            ),
    {
        let ghost crit = Criteria {
            published_only,
            tag: tag.deep_view(),
            search: search.deep_view(),
        };
        let mut out: Vec<Post> = Vec::new();
        let mut i: usize = 0;
        proof {
            assert(self@.subrange(0, 0) =~= Seq::<PostModel>::empty());
        }
        while i < self.posts.len()
            invariant
                i <= self.posts.len(),
                out.deep_view() == matching(self@.subrange(0, i as int), crit),
            decreases self.posts.len() - i,
        {
            let ghost pre = self@.subrange(0, i as int);
            let ghost cur = self@.subrange(0, i as int + 1);
            proof {
                assert(cur.drop_last() =~= pre);
                assert(cur.last() == self@[i as int]);
            }
            let row = &self.posts[i];
            if row_matches_exec(row, published_only, tag, search) {
                let ghost before = out.deep_view();
                out.push(row.clone());
                proof {
                    assert(out.deep_view() =~= before.push(row@));
                }
            }
            i = i + 1;
        }
        proof {
            assert(self@.subrange(0, i as int) =~= self@);
        }
        out
    }

    /// Builds the served page: `limit` rows of `rows` from the offset that
    /// `page` selects, with the pagination summary.
    #[verifier::loop_isolation(false)]
    fn paginate(rows: Vec<Post>, page: i32, limit: i32) -> (pg: PostPage)
        requires
            limit >= 0,
            (page as int - 1) * (limit as int) >= 0,
        ensures
            list_result_ok(rows.deep_view(), page as int, limit as int, pg),
    {
        let total: usize = rows.len();
        proof {
            assert(rows.deep_view().len() == total);
        }
        let total_pages: i32 = if limit == 0 {
            if total == 0 {
                0
            } else {
                i32::MAX
            }
        } else {
            let t: u128 = total as u128;
            let l: u128 = limit as u128;
            let tp: u128 = (t + l - 1) / l;
            if tp > 0x7fffffff {
                i32::MAX
            } else {
                tp as i32
            }
        };
        let p1: i64 = page as i64 - 1;
        let l1: i64 = limit as i64;
        proof {
            assert(-0x4000_0000_0000_0000 <= p1 as int * l1 as int
                <= 0x4000_0000_0000_0000) by (nonlinear_arith)
                requires
                    -0x8000_0001 <= p1 as int <= 0x8000_0001,
                    0 <= l1 as int <= 0x7fff_ffff,
            ;
        }
        let offset: i64 = p1 * l1;
        let start: usize = if offset as u128 > total as u128 {
            total
        } else {
            offset as usize
        };
        let end_wide: u128 = start as u128 + limit as u128;
        let end: usize = if end_wide > total as u128 {
            total
        } else {
            end_wide as usize
        };
        let ghost rows_view = rows.deep_view();
        let ghost spec_start = if offset as int > rows_view.len() {
            rows_view.len() as int
        } else {
            offset as int
        };
        proof {
            assert(start == spec_start);
        }
        let mut posts: Vec<Post> = Vec::new();
        let mut idx: usize = start;
        proof {
            assert(posts.deep_view() =~= rows_view.subrange(start as int, start as int));
        }
        while idx < end
            invariant
                start <= idx <= end,
                end <= rows.len(),
                posts.deep_view() == rows_view.subrange(start as int, idx as int),
            decreases end - idx,
        {
            let ghost before = posts.deep_view();
            posts.push(rows[idx].clone());
            proof {
                assert(posts.deep_view() =~= rows_view.subrange(start as int, idx as int + 1));
            }
            idx = idx + 1;
        }
        proof {
            assert(posts.deep_view() == page_slice(
                rows_view,
                (page as int - 1) * (limit as int),
                limit as int,
            ));
        }
        PostPage {
            posts,
            pagination: Pagination {
                current_page: page,
                total_pages,
                total_posts: total as u64,
                posts_per_page: limit,
            },
        }
    }

    /// The public listing: published rows that pass the filters, ordered by
    /// creation time, newest first, paginated with the page size capped at 50.
    /// Fails — as the database would on a negative row limit — exactly when
    /// the effective page size is negative.
    pub fn list_public(&self, q: &PostQuery, posts_per_page: i32) -> (r: Result<
        PostPage,
        ServiceError,
    >)
        ensures
            r is Ok <==> public_limit(q@, posts_per_page as int) >= 0,
            match r {
                Ok(pg) => list_result_ok(
                    matching(self@, public_criteria(q@)),
                    public_page(q@),
                    public_limit(q@, posts_per_page as int),
                    pg,
                ),
                Err(e) => e == ServiceError::InternalError,
            },
    {
        let page: i32 = match q.page {
            Some(p) => if p < 1 {
                1
            } else {
                p
            },
            None => 1,
        };
        let limit: i32 = {
            let l: i32 = match q.limit {
                Some(l) => l,
                None => posts_per_page,
            };
            if l > 50 {
                50
            } else {
                l
            }
        };
        if limit < 0 {
            return Err(ServiceError::InternalError);
        }
        let rows = self.filter_rows(true, &q.tag, &q.search);
        Ok(Self::paginate(rows, page, limit))
    }

    /// The admin listing: every row, published or not, with empty filter
    /// strings ignored, the page taken as requested and the page size
    /// uncapped. Fails — as the database would on a negative row limit or
    /// offset — exactly when the page size or the resulting offset is
    /// negative.
    pub fn list_admin(&self, q: &PostQuery) -> (r: Result<PostPage, ServiceError>)
        ensures
            r is Ok <==> admin_limit(q@) >= 0 && (admin_page(q@) - 1) * admin_limit(q@) >= 0,
            match r {
                Ok(pg) => list_result_ok(
                    matching(self@, admin_criteria(q@)),
                    admin_page(q@),
                    admin_limit(q@),
                    pg,
                ),
                Err(e) => e == ServiceError::InternalError,
            },
    {
        let page: i32 = match q.page {
            Some(p) => p,
            None => 1,
        };
        let limit: i32 = match q.limit {
            Some(l) => l,
            None => 10,
        };
        if limit < 0 {
            return Err(ServiceError::InternalError);
        }
        let p1: i64 = page as i64 - 1;
        let l1: i64 = limit as i64;
        proof {
            assert(-0x4000_0000_0000_0000 <= p1 as int * l1 as int
                <= 0x4000_0000_0000_0000) by (nonlinear_arith)
                requires
                    -0x8000_0001 <= p1 as int <= 0x8000_0001,
                    0 <= l1 as int <= 0x7fff_ffff,
            ;
        }
        let offset: i64 = p1 * l1;
        if offset < 0 {
            return Err(ServiceError::InternalError);
        }
        let tag_f: Option<String> = match &q.tag {
            Some(t) => if t.as_str().is_empty() {
                None
            } else {
                Some(t.clone())
            },
            None => None,
        };
        let search_f: Option<String> = match &q.search {
            Some(s) => if s.as_str().is_empty() {
                None
            } else {
                Some(s.clone())
            },
            None => None,
        };
        proof {
            assert(tag_f.deep_view() == nonempty_or_none(q@.tag));
            assert(search_f.deep_view() == nonempty_or_none(q@.search));
        }
        let rows = self.filter_rows(false, &tag_f, &search_f);
        Ok(Self::paginate(rows, page, limit))
    }
}

} // verus!
