//! The request handlers: one function per endpoint, each a thin, fully
//! specified operation over the shared application state (the table of posts
//! and the immutable site configuration).

use vstd::prelude::*;

use crate::config::SiteConfig;
use crate::ext::{current_millis, fresh_post_id};
use crate::list::{
    admin_criteria, admin_limit, admin_page, list_result_ok, matching, public_criteria,
    public_limit, public_page, PostPage, PostQuery,
};
use crate::post::{created_model, merged, CreatePost, Post, UpdatePost};
use crate::store::{contains_id, insert_pos_ok, slug_visible, PostStore};
use crate::ServiceError;

verus! {

/// The process-wide state: the table of posts and the configuration snapshot,
/// built once at startup and handed to every handler.
pub struct AppState {
    pub store: PostStore,
    pub config: SiteConfig,
}

impl AppState {
    /// The state is sound exactly when its table is.
    pub open spec fn wf(self) -> bool {
        self.store.wf()
    }

    /// A fresh state: an empty table and the given configuration.
    pub fn new(config: SiteConfig) -> (s: AppState)
        ensures
            s.wf(),
            s.store@ =~= Seq::<crate::post::PostModel>::empty(),
            s.config == config,
    {
        AppState { store: PostStore::new(), config }
    }

    /// The public listing endpoint; the default page size is the configured
    /// posts-per-page.
    pub fn get_posts(&self, q: &PostQuery) -> (r: Result<PostPage, ServiceError>)
        ensures
            r is Ok <==> public_limit(q@, self.config.posts_per_page as int) >= 0,
            match r {
                Ok(pg) => list_result_ok(
                    matching(self.store@, public_criteria(q@)),
                    public_page(q@),
                    public_limit(q@, self.config.posts_per_page as int),
                    pg,
                ),
                Err(e) => e == ServiceError::InternalError,
            },
    {
        self.store.list_public(q, self.config.posts_per_page)
    }

    /// The admin listing endpoint: unpublished rows included, default page
    /// size 10.
    pub fn get_admin_posts(&self, q: &PostQuery) -> (r: Result<PostPage, ServiceError>)
        ensures
            r is Ok <==> admin_limit(q@) >= 0 && (admin_page(q@) - 1) * admin_limit(q@) >= 0,
            match r {
                Ok(pg) => list_result_ok(
                    matching(self.store@, admin_criteria(q@)),
                    admin_page(q@),
                    admin_limit(q@),
                    pg,
                ),
                Err(e) => e == ServiceError::InternalError,
            },
    {
        self.store.list_admin(q)
    }

    /// The public lookup by slug: only a published post is found; an
    /// unpublished one answers exactly like a missing one.
    pub fn get_post_by_slug(&self, slug: &String) -> (r: Result<Post, ServiceError>)
        ensures
            r is Ok <==> slug_visible(self.store@, slug@),
            match r {
                Ok(p) => p@.slug == slug@ && p@.published && self.store@.contains(p@),
                Err(e) => e == ServiceError::NotFound,
            },
    {
        match self.store.get_by_slug(slug) {
            Some(p) => Ok(p),
            None => Err(ServiceError::NotFound),
        }
    }

    /// The admin lookup by id, regardless of publication state.
    pub fn get_post_by_id(&self, id: &String) -> (r: Result<Post, ServiceError>)
        ensures
            r is Ok <==> contains_id(self.store@, id@),
            match r {
                Ok(p) => p@.id == id@ && self.store@.contains(p@),
                Err(e) => e == ServiceError::NotFound,
            },
    {
        match self.store.get_by_id(id) {
            Some(p) => Ok(p),
            None => Err(ServiceError::NotFound),
        }
    }

    /// The create endpoint: draws a fresh id and the current instant, stores
    /// the payload as a new post with both timestamps equal, and returns the
    /// stored record. Fails, leaving the table unchanged, only when the drawn
    /// id is already taken.
    pub fn create_post(&mut self, payload: CreatePost) -> (r: Result<Post, ServiceError>)
        requires
            old(self).wf(),
        ensures
            final(self).wf(),
            final(self).config == old(self).config,
            match r {
                Ok(p) => {
                    &&& !contains_id(old(self).store@, p@.id)
                    &&& p@ == created_model(payload@, p@.id, p@.created_at)
                    &&& p@.created_at == p@.updated_at
                    &&& exists|k: int|
                        insert_pos_ok(old(self).store@, k, p@.created_at) && final(self).store@
                            == old(self).store@.insert(k, p@)
                },
                Err(e) => e == ServiceError::InternalError && final(self).store@ == old(
                    self,
                ).store@,
            },
    {
        let id = fresh_post_id();
        let now = current_millis();
        self.store.create(payload, id, now)
    }

    /// The update endpoint: loads the post, merges the payload over it,
    /// stamps `updated_at` with the current instant — never earlier than the
    /// post's creation — and stores the merged record back. Fails with
    /// `NotFound`, leaving the table unchanged, exactly when no post has the
    /// id.
    pub fn update_post(&mut self, id: &String, payload: &UpdatePost) -> (r: Result<
        Post,
        ServiceError,
    >)
        requires
            old(self).wf(),
        ensures
            final(self).wf(),
            final(self).config == old(self).config,
            r is Ok <==> contains_id(old(self).store@, id@),
            match r {
                Ok(p) => exists|i: int, t: int|
                    {
                        &&& 0 <= i < old(self).store@.len()
                        &&& old(self).store@[i].id == id@
                        &&& t >= old(self).store@[i].created_at
                        &&& p@ == merged(old(self).store@[i], payload@, t)
                        &&& final(self).store@ == old(self).store@.update(i, p@)
                    },
                Err(e) => e == ServiceError::NotFound && final(self).store@ == old(self).store@,
            },
    {
        let now = current_millis();
        let current = match self.store.get_by_id(id) {
            Some(p) => p,
            None => {
                return Err(ServiceError::NotFound);
            },
        };
        let stamp = if now < current.created_at {
            current.created_at
        } else {
            now
        };
        proof {
            let j = choose|j: int|
                0 <= j < self.store@.len() && self.store@[j] == current@;
            assert forall|i: int|
                0 <= i < self.store@.len() && self.store@[i].id == id@ implies self.store@[i].created_at
                <= stamp as int by {
                assert(self.store@[j].id == id@);
                if i != j {
                    assert(self.store@[i].id != self.store@[j].id);
                }
            }
        }
        let r = self.store.update(id, payload, stamp);
        proof {
            if r is Ok {
                let p = r->Ok_0;
                let i = choose|i: int|
                    {
                        &&& 0 <= i < old(self).store@.len()
                        &&& old(self).store@[i].id == id@
                        &&& p@ == merged(old(self).store@[i], payload@, stamp as int)
                        &&& final(self).store@ == old(self).store@.update(i, p@)
                    };
                assert(stamp as int >= old(self).store@[i].created_at);
            }
        }
        r
    }

    /// The delete endpoint: removes the post bodily. Fails with `NotFound`,
    /// leaving the table unchanged, exactly when no post has the id — so a
    /// repeated delete reports `NotFound` and removes nothing further.
    pub fn delete_post(&mut self, id: &String) -> (r: Result<(), ServiceError>)
        requires
            old(self).wf(),
        ensures
            final(self).wf(),
            final(self).config == old(self).config,
            r is Ok <==> contains_id(old(self).store@, id@),
            match r {
                Ok(u) => exists|i: int|
                    {
                        &&& 0 <= i < old(self).store@.len()
                        &&& old(self).store@[i].id == id@
                        &&& final(self).store@ == old(self).store@.remove(i)
                    },
                Err(e) => e == ServiceError::NotFound && final(self).store@ == old(self).store@,
            },
    {
        self.store.delete(id)
    }

    /// The configuration endpoint: the snapshot taken at startup, verbatim.
    pub fn get_site_config(&self) -> (c: SiteConfig)
        ensures
            c == self.config,
    {
        self.config.clone()
    }
}

} // verus!
