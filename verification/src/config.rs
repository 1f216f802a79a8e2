//! The static site configuration: captured once at process start, immutable
//! afterwards, served verbatim by its endpoint.

use vstd::prelude::*;

verus! {

/// Environment-derived site settings. `posts_per_page` is the default page
/// size of the public listing.
#[derive(Debug)]
pub struct SiteConfig {
    pub site_name: String,
    pub site_description: String,
    pub site_url: String,
    pub site_author: String,
    pub site_email: String,
    pub site_keywords: String,
    pub site_language: String,
    pub twitter_handle: String,
    pub github_url: String,
    pub enable_comments: bool,
    pub posts_per_page: i32,
    pub enable_search: bool,
}

impl Clone for SiteConfig {
    /// The copy equals the original in every field.
    fn clone(&self) -> (r: Self)
        ensures
            r == *self,
    {
        SiteConfig {
            site_name: self.site_name.clone(),
            site_description: self.site_description.clone(),
            site_url: self.site_url.clone(),
            site_author: self.site_author.clone(),
            site_email: self.site_email.clone(),
            site_keywords: self.site_keywords.clone(),
            site_language: self.site_language.clone(),
            twitter_handle: self.twitter_handle.clone(),
            github_url: self.github_url.clone(),
            enable_comments: self.enable_comments,
            posts_per_page: self.posts_per_page,
            enable_search: self.enable_search,
        }
    }
}

impl Default for SiteConfig {
    /// The value each setting takes when its environment variable is unset.
    fn default() -> (c: Self)
        ensures
            c.site_name@ == "My Blog"@,
            c.site_description@ == "A beautiful blog"@,
            c.site_url@ == "http://localhost:4321"@,
            c.site_author@ == "Blog Author"@,
            c.site_email@ == "author@example.com"@,
            c.site_keywords@ == "blog"@,
            c.site_language@ == "en"@,
            c.twitter_handle@ == "@blog"@,
            c.github_url@ == "https://github.com"@,
            c.enable_comments == true,
            c.posts_per_page == 10,
            c.enable_search == true,
    {
        SiteConfig {
            site_name: "My Blog".to_owned(),
            site_description: "A beautiful blog".to_owned(),
            site_url: "http://localhost:4321".to_owned(),
            site_author: "Blog Author".to_owned(),
            site_email: "author@example.com".to_owned(),
            site_keywords: "blog".to_owned(),
            site_language: "en".to_owned(),
            twitter_handle: "@blog".to_owned(),
            github_url: "https://github.com".to_owned(),
            enable_comments: true,
            posts_per_page: 10,
            enable_search: true,
        }
    }
}

} // verus!
