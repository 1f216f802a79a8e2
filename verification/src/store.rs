//! The table of posts and the four row operations on it: create, read (by id
//! or by slug), update (merge), delete. The table keeps three invariants: ids
//! are unique, rows are ordered by creation time, newest first, and no row was
//! updated before it was created.

use vstd::prelude::*;
use vstd::pervasive::VecAdditionalExecFns;

use crate::post::{Post, PostModel, CreatePost, UpdatePost, created_model, merged};
use crate::ServiceError;

verus! {

/// Some row carries this id.
pub open spec fn contains_id(s: Seq<PostModel>, id: Seq<char>) -> bool {
    exists|i: int| 0 <= i < s.len() && s[i].id == id
}

/// Some published row carries this slug: exactly the rows that the public
/// lookup by slug can return.
pub open spec fn slug_visible(s: Seq<PostModel>, slug: Seq<char>) -> bool {
    exists|i: int| 0 <= i < s.len() && s[i].slug == slug && s[i].published
}

/// No two rows share an id.
pub open spec fn ids_unique(s: Seq<PostModel>) -> bool {
    forall|i: int, j: int| 0 <= i < j < s.len() ==> s[i].id != s[j].id
}

/// Rows are ordered by creation time, newest first.
pub open spec fn sorted_by_created_desc(s: Seq<PostModel>) -> bool {
    forall|i: int, j: int| 0 <= i <= j < s.len() ==> s[i].created_at >= s[j].created_at
}

/// Every row was created no later than it was last updated.
pub open spec fn stamps_ordered(s: Seq<PostModel>) -> bool {
    forall|i: int| 0 <= i < s.len() ==> s[i].created_at <= s[i].updated_at
}

/// `k` is the place where a row created at `now` belongs: after every row
/// created strictly later, before the rest.
pub open spec fn insert_pos_ok(s: Seq<PostModel>, k: int, now: int) -> bool {
    &&& 0 <= k <= s.len()
    &&& forall|j: int| 0 <= j < k ==> s[j].created_at > now
    &&& (k == s.len() || s[k].created_at <= now)
}

/// The table of posts.
pub struct PostStore {
    pub posts: Vec<Post>,
}

impl View for PostStore {
    type V = Seq<PostModel>;

    open spec fn view(&self) -> Seq<PostModel> {
        self.posts.deep_view()
    }
}

impl PostStore {
    /// The table's invariant.
    pub open spec fn wf(self) -> bool {
        &&& ids_unique(self@)
        &&& sorted_by_created_desc(self@)
        &&& stamps_ordered(self@)
    }

    /// An empty table.
    pub fn new() -> (r: PostStore)
        ensures
            r.wf(),
            r@ =~= Seq::<PostModel>::empty(),
    {
        let posts: Vec<Post> = Vec::new();
        proof {
            assert(posts.deep_view() =~= Seq::<PostModel>::empty());
        }
        PostStore { posts }
    }

    /// How many rows the table holds.
    pub fn len(&self) -> (n: usize)
        ensures
            n == self@.len(),
    {
        self.posts.len()
    }

    /// The row with this id, regardless of publication state.
    pub fn get_by_id(&self, id: &String) -> (r: Option<Post>)
        ensures
            r is Some <==> contains_id(self@, id@),
            match r {
                Some(p) => p@.id == id@ && self@.contains(p@),
                None => !contains_id(self@, id@),
            },
    {
        let mut i: usize = 0;
        while i < self.posts.len()
            invariant
                i <= self.posts.len(),
                forall|k: int| 0 <= k < i ==> self@[k].id != id@,
            decreases self.posts.len() - i,
        {
            let row = &self.posts[i];
            if row.id == *id {
                let p = row.clone();
                proof {
                    assert(self@[i as int] == p@);
                    assert(self@.contains(p@));
                }
                return Some(p);
            }
            i = i + 1;
        }
        None
    }

    /// The published row with this slug. An unpublished row with the slug is
    /// not returned: through this lookup it cannot be told from an absent one.
    pub fn get_by_slug(&self, slug: &String) -> (r: Option<Post>)
        ensures
            r is Some <==> slug_visible(self@, slug@),
            match r {
                Some(p) => p@.slug == slug@ && p@.published && self@.contains(p@),
                None => !slug_visible(self@, slug@),
            },
    {
        let mut i: usize = 0;
        while i < self.posts.len()
            invariant
                i <= self.posts.len(),
                forall|k: int| 0 <= k < i ==> !(self@[k].slug == slug@ && self@[k].published),
            decreases self.posts.len() - i,
        {
            let row = &self.posts[i];
            if row.published && row.slug == *slug {
                let p = row.clone();
                proof {
                    assert(self@[i as int] == p@);
                    assert(self@.contains(p@));
                }
                return Some(p);
            }
            i = i + 1;
        }
        None
    }

    /// Stores a new row built from the payload, the chosen id and the creation
    /// instant `now`; both timestamps are set to `now`. Fails, leaving the
    /// table unchanged, exactly when the id is already taken — the analogue of
    /// a key constraint violation. The row is placed so that the table stays
    /// ordered by creation time, newest first.
    #[verifier::loop_isolation(false)]
    pub fn create(&mut self, payload: CreatePost, id: String, now: i64) -> (r: Result<
        Post,
        ServiceError,
    >)
        requires
            old(self).wf(),
        ensures
            final(self).wf(),
            r is Ok <==> !contains_id(old(self)@, id@),
            match r {
                Ok(p) => {
                    &&& p@ == created_model(payload@, id@, now as int)
                    &&& exists|k: int|
                        insert_pos_ok(old(self)@, k, now as int) && final(self)@ == old(
                            self,
                        )@.insert(k, p@)
                },
                Err(e) => e == ServiceError::InternalError && final(self)@ == old(self)@,
            },
    {
        let mut i: usize = 0;
        while i < self.posts.len()
            invariant
                i <= self.posts.len(),
                self == old(self),
                forall|k: int| 0 <= k < i ==> self@[k].id != id@,
            decreases self.posts.len() - i,
        {
            if self.posts[i].id == id {
                proof {
                    assert(self@[i as int].id == id@);
                    assert(contains_id(self@, id@));
                }
                return Err(ServiceError::InternalError);
            }
            i = i + 1;
        }
        assert(!contains_id(self@, id@));
        let mut k: usize = 0;
        while k < self.posts.len() && self.posts[k].created_at > now
            invariant
                k <= self.posts.len(),
                self == old(self),
                forall|j: int| 0 <= j < k ==> self@[j].created_at > now as int,
            decreases self.posts.len() - k,
        {
            k = k + 1;
        }
        assert(insert_pos_ok(self@, k as int, now as int));
        let row = Post {
            id,
            title: payload.title,
            content: payload.content,
            excerpt: payload.excerpt,
            slug: payload.slug,
            author: payload.author,
            published: payload.published,
            featured_image: payload.featured_image,
            tags: payload.tags,
            created_at: now,
            updated_at: now,
        };
        let returned = row.clone();
        let ghost old_view = self@;
        let ghost model = row@;
        self.posts.insert(k, row);
        proof {
            old_view.insert_ensures(k as int, model);
            assert(self@ =~= old_view.insert(k as int, model));
            assert forall|x: int, y: int| 0 <= x < y < self@.len() implies self@[x].id
                != self@[y].id by {
                if x < k && y > k {
                    assert(self@[x] == old_view[x] && self@[y] == old_view[y - 1]);
                } else if x == k {
                    assert(old_view[y - 1].id != id@);
                } else if y == k {
                    assert(old_view[x].id != id@);
                }
            }
            assert forall|x: int, y: int| 0 <= x <= y < self@.len() implies self@[x].created_at
                >= self@[y].created_at by {
                if x == k || y == k {
                } else {
                    let xo: int = if x < k {
                        x
                    } else {
                        x - 1
                    };
                    let yo: int = if y < k {
                        y
                    } else {
                        y - 1
                    };
                    assert(self@[x] == old_view[xo] && self@[y] == old_view[yo]);
                }
            }
        }
        Ok(returned)
    }

    /// Merges the payload into the row with this id and stamps `updated_at`
    /// with `now`; the rest of the table is untouched. Fails with `NotFound`,
    /// leaving the table unchanged, exactly when no row has the id. `now` may
    /// not lie before the row's creation instant.
    #[verifier::loop_isolation(false)]
    pub fn update(&mut self, id: &String, payload: &UpdatePost, now: i64) -> (r: Result<
        Post,
        ServiceError,
    >)
        requires
            old(self).wf(),
            forall|i: int|
                0 <= i < old(self)@.len() && old(self)@[i].id == id@ ==> old(self)@[i].created_at
                    <= now as int,
        ensures
            final(self).wf(),
            r is Ok <==> contains_id(old(self)@, id@),
            match r {
                Ok(p) => exists|i: int|
                    {
                        &&& 0 <= i < old(self)@.len()
                        &&& old(self)@[i].id == id@
                        &&& p@ == merged(old(self)@[i], payload@, now as int)
                        &&& final(self)@ == old(self)@.update(i, p@)
                    },
                Err(e) => e == ServiceError::NotFound && final(self)@ == old(self)@,
            },
    {
        let mut i: usize = 0;
        while i < self.posts.len()
            invariant
                i <= self.posts.len(),
                self@ == old(self)@,
                forall|k: int| 0 <= k < i ==> self@[k].id != id@,
            decreases self.posts.len() - i,
        {
            if self.posts[i].id == *id {
                let row = self.posts[i].apply_update(payload, now);
                let returned = row.clone();
                let ghost old_view = self@;
                let ghost model = row@;
                self.posts.set(i, row);
                proof {
                    assert(self@ =~= old_view.update(i as int, model));
                    assert(old_view[i as int].id == id@);
                    assert(contains_id(old_view, id@));
                    assert(model.id == old_view[i as int].id);
                    assert(model.created_at == old_view[i as int].created_at);
                    assert(model.updated_at == now as int);
                    assert forall|x: int| 0 <= x < self@.len() implies self@[x] == (if x == i as int {
                        model
                    } else {
                        old_view[x]
                    }) by {
                        if x == i as int {
                            assert(old_view.update(i as int, model)[x] == model);
                        } else {
                            assert(old_view.update(i as int, model)[x] == old_view[x]);
                        }
                    }
                    assert(self.wf());
                }
                return Ok(returned);
            }
            i = i + 1;
        }
        Err(ServiceError::NotFound)
    }

    /// Removes the row with this id. Fails with `NotFound`, leaving the table
    /// unchanged, exactly when no row has the id; so a second delete of the
    /// same id reports `NotFound`, and only the first one removes a row.
    #[verifier::loop_isolation(false)]
    pub fn delete(&mut self, id: &String) -> (r: Result<(), ServiceError>)
        requires
            old(self).wf(),
        ensures
            final(self).wf(),
            r is Ok <==> contains_id(old(self)@, id@),
            match r {
                Ok(u) => exists|i: int|
                    {
                        &&& 0 <= i < old(self)@.len()
                        &&& old(self)@[i].id == id@
                        &&& final(self)@ == old(self)@.remove(i)
                    },
                Err(e) => e == ServiceError::NotFound && final(self)@ == old(self)@,
            },
    {
        let mut i: usize = 0;
        while i < self.posts.len()
            invariant
                i <= self.posts.len(),
                self@ == old(self)@,
                forall|k: int| 0 <= k < i ==> self@[k].id != id@,
            decreases self.posts.len() - i,
        {
            if self.posts[i].id == *id {
                let ghost old_view = self@;
                self.posts.remove(i);
                proof {
                    old_view.remove_ensures(i as int);
                    assert(self@ =~= old_view.remove(i as int));
                    assert(old_view[i as int].id == id@);
                    assert(contains_id(old_view, id@));
                    assert forall|x: int| 0 <= x < self@.len() implies self@[x] == (if x
                        < i as int {
                        old_view[x]
                    } else {
                        old_view[x + 1]
                    }) by {
                        if x < i as int {
                            assert(old_view.remove(i as int)[x] == old_view[x]);
                        } else {
                            assert(old_view.remove(i as int)[x] == old_view[x + 1]);
                        }
                    }
                    assert forall|x: int, y: int| 0 <= x < y < self@.len() implies self@[x].id
                        != self@[y].id by {
                        let xo: int = if x < i as int {
                            x
                        } else {
                            x + 1
                        };
                        let yo: int = if y < i as int {
                            y
                        } else {
                            y + 1
                        };
                        assert(self@[x] == old_view[xo] && self@[y] == old_view[yo]);
                        assert(0 <= xo < yo < old_view.len());
                    }
                    assert forall|x: int, y: int| 0 <= x <= y < self@.len() implies self@[x].created_at
                        >= self@[y].created_at by {
                        let xo: int = if x < i as int {
                            x
                        } else {
                            x + 1
                        };
                        let yo: int = if y < i as int {
                            y
                        } else {
                            y + 1
                        };
                        assert(self@[x] == old_view[xo] && self@[y] == old_view[yo]);
                        assert(0 <= xo <= yo < old_view.len());
                    }
                    assert(self.wf());
                }
                return Ok(());
            }
            i = i + 1;
        }
        Err(ServiceError::NotFound)
    }
}

} // verus!
