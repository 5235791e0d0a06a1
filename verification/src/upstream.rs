//! What the upstream API hands back, reduced to the fields the gateway reads.
//!
//! Each type comes with a mathematical model (its view), over which the
//! projections and the handlers state their contracts.

use vstd::prelude::*;

verus! {

/// A user profile as returned by the upstream API.
#[derive(Debug, Clone)]
pub struct User {
    pub name: String,
    pub short_name: String,
    pub url: String,
    pub bio: Option<String>,
    pub large_avatar_url: String,
}

/// Mathematical value of a [`User`].
pub struct UserModel {
    pub name: Seq<char>,
    pub short_name: Seq<char>,
    pub url: Seq<char>,
    pub bio: Option<Seq<char>>,
    pub large_avatar_url: Seq<char>,
}

impl View for User {
    type V = UserModel;

    open spec fn view(&self) -> UserModel {
        UserModel {
            name: self.name@,
            short_name: self.short_name@,
            url: self.url@,
            bio: self.bio.deep_view(),
            large_avatar_url: self.large_avatar_url@,
        }
    }
}

impl DeepView for User {
    type V = UserModel;

    open spec fn deep_view(&self) -> UserModel {
        self@
    }
}

/// A curated post as returned by the upstream API.
#[derive(Debug, Clone)]
pub struct Post {
    pub title: String,
    pub html_content: String,
    pub html_fragment: Option<String>,
    pub html_insight: Option<String>,
    pub scoop_url: String,
    pub url: Option<String>,
    pub large_image_url: Option<String>,
}

/// Mathematical value of a [`Post`].
pub struct PostModel {
    pub title: Seq<char>,
    pub html_content: Seq<char>,
    pub html_fragment: Option<Seq<char>>,
    pub html_insight: Option<Seq<char>>,
    pub scoop_url: Seq<char>,
    pub url: Option<Seq<char>>,
    pub large_image_url: Option<Seq<char>>,
}

impl View for Post {
    type V = PostModel;

    open spec fn view(&self) -> PostModel {
        PostModel {
            title: self.title@,
            html_content: self.html_content@,
            html_fragment: self.html_fragment.deep_view(),
            html_insight: self.html_insight.deep_view(),
            scoop_url: self.scoop_url@,
            url: self.url.deep_view(),
            large_image_url: self.large_image_url.deep_view(),
        }
    }
}

impl DeepView for Post {
    type V = PostModel;

    open spec fn deep_view(&self) -> PostModel {
        self@
    }
}

/// A topic as returned by the upstream API.
///
/// `creator` and `curated_posts` are only present when the upstream chose to
/// send them.
#[derive(Debug, Clone)]
pub struct Topic {
    pub name: String,
    pub short_name: String,
    pub description: Option<String>,
    pub curated_post_count: u64,
    pub large_image_url: String,
    pub url: String,
    pub creator: Option<Box<User>>,
    pub curated_posts: Option<Vec<Post>>,
}

/// Mathematical value of a [`Topic`].
pub struct TopicModel {
    pub name: Seq<char>,
    pub short_name: Seq<char>,
    pub description: Option<Seq<char>>,
    pub curated_post_count: u64,
    pub large_image_url: Seq<char>,
    pub url: Seq<char>,
    pub creator: Option<UserModel>,
    pub curated_posts: Option<Seq<PostModel>>,
}

impl View for Topic {
    type V = TopicModel;

    open spec fn view(&self) -> TopicModel {
        TopicModel {
            name: self.name@,
            short_name: self.short_name@,
            description: self.description.deep_view(),
            curated_post_count: self.curated_post_count,
            large_image_url: self.large_image_url@,
            url: self.url@,
            creator: match self.creator {
                Some(user) => Some(user@),
                None => None,
            },
            curated_posts: self.curated_posts.deep_view(),
        }
    }
}

impl DeepView for Topic {
    type V = TopicModel;

    open spec fn deep_view(&self) -> TopicModel {
        self@
    }
}

/// The answer to a search: one list per kind of object, each present only
/// when that kind was searched for.
#[derive(Debug, Clone)]
pub struct SearchResults {
    pub users: Option<Vec<User>>,
    pub topics: Option<Vec<Topic>>,
    pub posts: Option<Vec<Post>>,
    pub total_found: i32,
}

/// Mathematical value of a [`SearchResults`].
pub struct SearchResultsModel {
    pub users: Option<Seq<UserModel>>,
    pub topics: Option<Seq<TopicModel>>,
    pub posts: Option<Seq<PostModel>>,
    pub total_found: i32,
}

impl View for SearchResults {
    type V = SearchResultsModel;

    open spec fn view(&self) -> SearchResultsModel {
        SearchResultsModel {
            users: self.users.deep_view(),
            topics: self.topics.deep_view(),
            posts: self.posts.deep_view(),
            total_found: self.total_found,
        }
    }
}

} // verus!
