//! The post entity, the payload shapes of the create and update operations,
//! and the merge rule that a partial update applies to a stored post.

use vstd::prelude::*;

verus! {

/// Mathematical model of a stored post: every text field as a sequence of
/// characters, the tag list as a sequence of such sequences, and the two
/// timestamps as unbounded integers (milliseconds).
pub ghost struct PostModel {
    pub id: Seq<char>,
    pub title: Seq<char>,
    pub content: Seq<char>,
    pub excerpt: Seq<char>,
    pub slug: Seq<char>,
    pub author: Seq<char>,
    pub published: bool,
    pub featured_image: Option<Seq<char>>,
    pub tags: Seq<Seq<char>>,
    pub created_at: int,
    pub updated_at: int,
}

/// A stored blog post. `id` is assigned at creation and never changes;
/// `created_at` is set once; `updated_at` moves on every successful update.
/// Timestamps are milliseconds since the epoch.
#[derive(Debug)]
pub struct Post {
    pub id: String,
    pub title: String,
    pub content: String,
    pub excerpt: String,
    pub slug: String,
    pub author: String,
    pub published: bool,
    pub featured_image: Option<String>,
    pub tags: Vec<String>,
    pub created_at: i64,
    pub updated_at: i64,
}

impl View for Post {
    type V = PostModel;

    open spec fn view(&self) -> PostModel {
        PostModel {
            id: self.id@,
            title: self.title@,
            content: self.content@,
            excerpt: self.excerpt@,
            slug: self.slug@,
            author: self.author@,
            published: self.published,
            featured_image: self.featured_image.deep_view(),
            tags: self.tags.deep_view(),
            created_at: self.created_at as int,
            updated_at: self.updated_at as int,
        }
    }
}

impl DeepView for Post {
    type V = PostModel;

    open spec fn deep_view(&self) -> PostModel {
        self.view()
    }
}

/// Model of a create payload: all required fields, tags possibly empty.
pub ghost struct CreateModel {
    pub title: Seq<char>,
    pub content: Seq<char>,
    pub excerpt: Seq<char>,
    pub slug: Seq<char>,
    pub author: Seq<char>,
    pub published: bool,
    pub featured_image: Option<Seq<char>>,
    pub tags: Seq<Seq<char>>,
}

/// The payload of the create operation. Every field is required except
/// `featured_image`; the tag list may be empty.
#[derive(Debug)]
pub struct CreatePost {
    pub title: String,
    pub content: String,
    pub excerpt: String,
    pub slug: String,
    pub author: String,
    pub published: bool,
    pub featured_image: Option<String>,
    pub tags: Vec<String>,
}

impl View for CreatePost {
    type V = CreateModel;

    open spec fn view(&self) -> CreateModel {
        CreateModel {
            title: self.title@,
            content: self.content@,
            excerpt: self.excerpt@,
            slug: self.slug@,
            author: self.author@,
            published: self.published,
            featured_image: self.featured_image.deep_view(),
            tags: self.tags.deep_view(),
        }
    }
}

/// Model of an update payload: each field either absent or a replacement.
pub ghost struct UpdateModel {
    pub title: Option<Seq<char>>,
    pub content: Option<Seq<char>>,
    pub excerpt: Option<Seq<char>>,
    pub slug: Option<Seq<char>>,
    pub author: Option<Seq<char>>,
    pub published: Option<bool>,
    pub featured_image: Option<Seq<char>>,
    pub tags: Option<Seq<Seq<char>>>,
}

/// The payload of the partial update: every field optional. An absent field
/// keeps the stored value. For `featured_image` this means an existing image
/// can never be cleared through an update, only replaced.
#[derive(Debug)]
pub struct UpdatePost {
    pub title: Option<String>,
    pub content: Option<String>,
    pub excerpt: Option<String>,
    pub slug: Option<String>,
    pub author: Option<String>,
    pub published: Option<bool>,
    pub featured_image: Option<String>,
    pub tags: Option<Vec<String>>,
}

impl View for UpdatePost {
    type V = UpdateModel;

    open spec fn view(&self) -> UpdateModel {
        UpdateModel {
            title: self.title.deep_view(),
            content: self.content.deep_view(),
            excerpt: self.excerpt.deep_view(),
            slug: self.slug.deep_view(),
            author: self.author.deep_view(),
            published: match self.published {
                Some(b) => Some(b),
                None => None,
            },
            featured_image: self.featured_image.deep_view(),
            tags: match self.tags {
                Some(ts) => Some(ts.deep_view()),
                None => None,
            },
        }
    }
}

/// The post that a create operation stores: the payload's fields, the chosen
/// id, and both timestamps equal to the creation instant.
pub open spec fn created_model(c: CreateModel, id: Seq<char>, now: int) -> PostModel {
    PostModel {
        id: id,
        title: c.title,
        content: c.content,
        excerpt: c.excerpt,
        slug: c.slug,
        author: c.author,
        published: c.published,
        featured_image: c.featured_image,
        tags: c.tags,
        created_at: now,
        updated_at: now,
    }
}

/// The merge rule of the partial update: a supplied field replaces the stored
/// value, an absent field keeps it; `id` and `created_at` never change;
/// `updated_at` is always refreshed to `now`, whether or not anything changed.
/// `featured_image` follows the same keep-or-replace rule, so an absent
/// payload value leaves an existing image in place rather than clearing it.
pub open spec fn merged(cur: PostModel, up: UpdateModel, now: int) -> PostModel {
    PostModel {
        id: cur.id,
        title: match up.title {
            Some(t) => t,
            None => cur.title,
        },
        content: match up.content {
            Some(t) => t,
            None => cur.content,
        },
        excerpt: match up.excerpt {
            Some(t) => t,
            None => cur.excerpt,
        },
        slug: match up.slug {
            Some(t) => t,
            None => cur.slug,
        },
        author: match up.author {
            Some(t) => t,
            None => cur.author,
        },
        published: match up.published {
            Some(b) => b,
            None => cur.published,
        },
        featured_image: match up.featured_image {
            Some(f) => Some(f),
            None => cur.featured_image,
        },
        tags: match up.tags {
            Some(ts) => ts,
            None => cur.tags,
        },
        created_at: cur.created_at,
        updated_at: now,
    }
}

/// Copies a tag list; the copy holds the same strings in the same order.
pub fn clone_string_vec(v: &Vec<String>) -> (r: Vec<String>)
    ensures
        r.deep_view() == v.deep_view(),
{
    let mut r: Vec<String> = Vec::new();
    let mut i: usize = 0;
    while i < v.len()
        invariant
            i <= v.len(),
            r@.len() == i,
            forall|k: int| 0 <= k < i ==> r@[k]@ == v@[k]@,
        decreases v.len() - i,
    {
        r.push(v[i].clone());
        i = i + 1;
    }
    proof {
        assert(r.deep_view() =~= v.deep_view());
    }
    r
}

/// Copies an optional string.
pub fn clone_opt_string(o: &Option<String>) -> (r: Option<String>)
    ensures
        r.deep_view() == o.deep_view(),
{
    match o {
        Some(s) => Some(s.clone()),
        None => None,
    }
}

impl Clone for Post {
    /// The copy denotes the same post.
    fn clone(&self) -> (r: Self)
        ensures
            r@ == self@,
    {
        Post {
            id: self.id.clone(),
            title: self.title.clone(),
            content: self.content.clone(),
            excerpt: self.excerpt.clone(),
            slug: self.slug.clone(),
            author: self.author.clone(),
            published: self.published,
            featured_image: clone_opt_string(&self.featured_image),
            tags: clone_string_vec(&self.tags),
            created_at: self.created_at,
            updated_at: self.updated_at,
        }
    }
}

impl Post {
    /// Applies an update payload to this post, giving the fully merged record
    /// with `updated_at` stamped to `now`.
    pub fn apply_update(&self, up: &UpdatePost, now: i64) -> (r: Post)
        ensures
            r@ == merged(self@, up@, now as int),
    {
        Post {
            id: self.id.clone(),
            title: match &up.title {
                Some(t) => t.clone(),
                None => self.title.clone(),
            },
            content: match &up.content {
                Some(t) => t.clone(),
                None => self.content.clone(),
            },
            excerpt: match &up.excerpt {
                Some(t) => t.clone(),
                None => self.excerpt.clone(),
            },
            slug: match &up.slug {
                Some(t) => t.clone(),
                None => self.slug.clone(),
            },
            author: match &up.author {
                Some(t) => t.clone(),
                None => self.author.clone(),
            },
            published: match up.published {
                Some(b) => b,
                None => self.published,
            },
            featured_image: match &up.featured_image {
                Some(f) => Some(f.clone()),
                None => clone_opt_string(&self.featured_image),
            },
            tags: match &up.tags {
                Some(ts) => clone_string_vec(ts),
                None => clone_string_vec(&self.tags),
            },
            created_at: self.created_at,
            updated_at: now,
        }
    }
}

} // verus!
