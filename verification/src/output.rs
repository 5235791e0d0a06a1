//! Client-facing shapes and the projections that produce them.
//!
//! A projection keeps a handful of fields of an upstream object, takes every
//! image from the large variant, and never invents a value: an optional field
//! stays optional. Two rules differ on purpose. A topic without a creator is
//! refused; a topic without a list of curated posts gets an empty list.

use vstd::prelude::*;
use crate::upstream::{Post, PostModel, SearchResults, SearchResultsModel, Topic, TopicModel, User, UserModel};

verus! {

/// Why an upstream object could not be projected.
#[derive(Debug, Clone, Copy, PartialEq, Eq, Structural)]
pub enum ProjectionError {
    /// A topic came without its creator.
    MissingCreator,
}

/// A user as shown to clients.
#[derive(Debug, Clone)]
pub struct UserJsonOutput {
    pub name: String,
    pub short_name: String,
    pub url: String,
    pub bio: Option<String>,
    pub avatar_url: String,
}

/// Mathematical value of a [`UserJsonOutput`].
pub struct UserJson {
    pub name: Seq<char>,
    pub short_name: Seq<char>,
    pub url: Seq<char>,
    pub bio: Option<Seq<char>>,
    pub avatar_url: Seq<char>,
}

impl View for UserJsonOutput {
    type V = UserJson;

    open spec fn view(&self) -> UserJson {
        UserJson {
            name: self.name@,
            short_name: self.short_name@,
            url: self.url@,
            bio: self.bio.deep_view(),
            avatar_url: self.avatar_url@,
        }
    }
}

impl DeepView for UserJsonOutput {
    type V = UserJson;

    open spec fn deep_view(&self) -> UserJson {
        self@
    }
}

/// A post as shown to clients.
#[derive(Debug, Clone)]
pub struct PostJsonOutput {
    pub title: String,
    pub html_content: String,
    pub html_fragment: Option<String>,
    pub html_insight: Option<String>,
    pub scoop_url: String,
    pub url: Option<String>,
    pub image_url: Option<String>,
}

/// Mathematical value of a [`PostJsonOutput`].
pub struct PostJson {
    pub title: Seq<char>,
    pub html_content: Seq<char>,
    pub html_fragment: Option<Seq<char>>,
    pub html_insight: Option<Seq<char>>,
    pub scoop_url: Seq<char>,
    pub url: Option<Seq<char>>,
    pub image_url: Option<Seq<char>>,
}

impl View for PostJsonOutput {
    type V = PostJson;

    open spec fn view(&self) -> PostJson {
        PostJson {
            title: self.title@,
            html_content: self.html_content@,
            html_fragment: self.html_fragment.deep_view(),
            html_insight: self.html_insight.deep_view(),
            scoop_url: self.scoop_url@,
            url: self.url.deep_view(),
            image_url: self.image_url.deep_view(),
        }
    }
}

impl DeepView for PostJsonOutput {
    type V = PostJson;

    open spec fn deep_view(&self) -> PostJson {
        self@
    }
}

/// A topic as shown to clients, with its creator and its curated posts.
#[derive(Debug, Clone)]
pub struct TopicJsonOutput {
    pub name: String,
    pub short_name: String,
    pub description: Option<String>,
    pub post_count: u64,
    pub image_url: String,
    pub url: String,
    pub creator: UserJsonOutput,
    pub posts: Vec<PostJsonOutput>,
}

/// Mathematical value of a [`TopicJsonOutput`].
pub struct TopicJson {
    pub name: Seq<char>,
    pub short_name: Seq<char>,
    pub description: Option<Seq<char>>,
    pub post_count: u64,
    pub image_url: Seq<char>,
    pub url: Seq<char>,
    pub creator: UserJson,
    pub posts: Seq<PostJson>,
}

impl View for TopicJsonOutput {
    type V = TopicJson;

    open spec fn view(&self) -> TopicJson {
        TopicJson {
            name: self.name@,
            short_name: self.short_name@,
            description: self.description.deep_view(),
            post_count: self.post_count,
            image_url: self.image_url@,
            url: self.url@,
            creator: self.creator@,
            posts: self.posts.deep_view(),
        }
    }
}

impl DeepView for TopicJsonOutput {
    type V = TopicJson;

    open spec fn deep_view(&self) -> TopicJson {
        self@
    }
}

/// Search results as shown to clients.
#[derive(Debug, Clone)]
pub struct SearchJsonOutput {
    pub users: Option<Vec<UserJsonOutput>>,
    pub topics: Option<Vec<TopicJsonOutput>>,
    pub posts: Option<Vec<PostJsonOutput>>,
    pub total_found: i32,
}

/// Mathematical value of a [`SearchJsonOutput`].
pub struct SearchJson {
    pub users: Option<Seq<UserJson>>,
    pub topics: Option<Seq<TopicJson>>,
    pub posts: Option<Seq<PostJson>>,
    pub total_found: i32,
}

impl View for SearchJsonOutput {
    type V = SearchJson;

    open spec fn view(&self) -> SearchJson {
        SearchJson {
            users: self.users.deep_view(),
            topics: self.topics.deep_view(),
            posts: self.posts.deep_view(),
            total_found: self.total_found,
        }
    }
}

/// The client-facing value of a user: the avatar is the large one.
pub open spec fn project_user(u: UserModel) -> UserJson {
    UserJson {
        name: u.name,
        short_name: u.short_name,
        url: u.url,
        bio: u.bio,
        avatar_url: u.large_avatar_url,
    }
}

/// The client-facing value of a post: the image is the large one.
pub open spec fn project_post(p: PostModel) -> PostJson {
    PostJson {
        title: p.title,
        html_content: p.html_content,
        html_fragment: p.html_fragment,
        html_insight: p.html_insight,
        scoop_url: p.scoop_url,
        url: p.url,
        image_url: p.large_image_url,
    }
}

/// The client-facing values of a list of users, in the same order.
pub open spec fn project_users(us: Seq<UserModel>) -> Seq<UserJson> {
    us.map_values(|u: UserModel| project_user(u))
}

/// The client-facing values of a list of posts, in the same order.
pub open spec fn project_posts(ps: Seq<PostModel>) -> Seq<PostJson> {
    ps.map_values(|p: PostModel| project_post(p))
}

/// The client-facing value of a topic that has a creator. An absent list of
/// curated posts becomes the empty list.
pub open spec fn project_topic_with_creator(t: TopicModel) -> TopicJson
    recommends
        t.creator is Some,
{
    TopicJson {
        name: t.name,
        short_name: t.short_name,
        description: t.description,
        post_count: t.curated_post_count,
        image_url: t.large_image_url,
        url: t.url,
        creator: project_user(t.creator->0),
        posts: match t.curated_posts {
            Some(ps) => project_posts(ps),
            None => Seq::empty(),
        },
    }
}

/// The projection of a topic: it fails exactly when the creator is absent.
pub open spec fn project_topic(t: TopicModel) -> Result<TopicJson, ProjectionError> {
    if t.creator is Some {
        Ok(project_topic_with_creator(t))
    } else {
        Err(ProjectionError::MissingCreator)
    }
}

/// Whether every topic of a list has a creator.
pub open spec fn all_have_creator(ts: Seq<TopicModel>) -> bool {
    forall|i: int| 0 <= i < ts.len() ==> (#[trigger] ts[i]).creator is Some
}

/// The client-facing values of a list of topics that all have a creator.
pub open spec fn project_topics(ts: Seq<TopicModel>) -> Seq<TopicJson>
    recommends
        all_have_creator(ts),
{
    ts.map_values(|t: TopicModel| project_topic_with_creator(t))
}

/// The projection of search results: each list that is present is projected
/// item by item, and the whole fails exactly when a topic lacks its creator.
pub open spec fn project_search(s: SearchResultsModel) -> Result<SearchJson, ProjectionError> {
    if s.topics is Some && !all_have_creator(s.topics->0) {
        Err(ProjectionError::MissingCreator)
    } else {
        Ok(
            SearchJson {
                users: match s.users {
                    Some(us) => Some(project_users(us)),
                    None => None,
                },
                topics: match s.topics {
                    Some(ts) => Some(project_topics(ts)),
                    None => None,
                },
                posts: match s.posts {
                    Some(ps) => Some(project_posts(ps)),
                    None => None,
                },
                total_found: s.total_found,
            },
        )
    }
}

impl From<Post> for PostJsonOutput {
    /// Projects a post. Total: every post has a client-facing value.
    fn from(p: Post) -> (out: Self)
        ensures
            out@ == project_post(p@),
    {
        PostJsonOutput {
            title: p.title,
            html_content: p.html_content,
            html_fragment: p.html_fragment,
            html_insight: p.html_insight,
            scoop_url: p.scoop_url,
            url: p.url,
            image_url: p.large_image_url,
        }
    }
}

impl vstd::std_specs::convert::FromSpecImpl<Post> for PostJsonOutput {
    open spec fn obeys_from_spec() -> bool {
        true
    }

    open spec fn from_spec(p: Post) -> PostJsonOutput {
        PostJsonOutput {
            title: p.title,
            html_content: p.html_content,
            html_fragment: p.html_fragment,
            html_insight: p.html_insight,
            scoop_url: p.scoop_url,
            url: p.url,
            image_url: p.large_image_url,
        }
    }
}

impl From<User> for UserJsonOutput {
    /// Projects a user. Total: every user has a client-facing value.
    fn from(u: User) -> (out: Self)
        ensures
            out@ == project_user(u@),
    {
        UserJsonOutput {
            name: u.name,
            short_name: u.short_name,
            url: u.url,
            bio: u.bio,
            avatar_url: u.large_avatar_url,
        }
    }
}

impl vstd::std_specs::convert::FromSpecImpl<User> for UserJsonOutput {
    open spec fn obeys_from_spec() -> bool {
        true
    }

    open spec fn from_spec(u: User) -> UserJsonOutput {
        UserJsonOutput {
            name: u.name,
            short_name: u.short_name,
            url: u.url,
            bio: u.bio,
            avatar_url: u.large_avatar_url,
        }
    }
}

impl From<Box<User>> for UserJsonOutput {
    /// Projects a user held in a box, as a topic holds its creator.
    fn from(u: Box<User>) -> (out: Self)
        ensures
            out@ == project_user(u@),
    {
        UserJsonOutput {
            name: u.name,
            short_name: u.short_name,
            url: u.url,
            bio: u.bio,
            avatar_url: u.large_avatar_url,
        }
    }
}

impl vstd::std_specs::convert::FromSpecImpl<Box<User>> for UserJsonOutput {
    open spec fn obeys_from_spec() -> bool {
        true
    }

    open spec fn from_spec(u: Box<User>) -> UserJsonOutput {
        UserJsonOutput {
            name: u.name,
            short_name: u.short_name,
            url: u.url,
            bio: u.bio,
            avatar_url: u.large_avatar_url,
        }
    }
}

/// Projects a list of posts, item by item and in order.
fn posts_to_output(posts: Vec<Post>) -> (out: Vec<PostJsonOutput>)
    ensures
        out.deep_view() == project_posts(posts.deep_view()),
{
    let ghost model = posts.deep_view();
    let mut out: Vec<PostJsonOutput> = Vec::new();
    for p in it: posts
        invariant
            it.seq().len() == model.len(),
            forall|j: int| 0 <= j < model.len() ==> (#[trigger] it.seq()[j])@ == model[j],
            out@.len() == it.index(),
            forall|j: int| 0 <= j < out@.len() ==> (#[trigger] out@[j])@ == project_post(model[j]),
    {
        out.push(PostJsonOutput::from(p));
    }
    out
}

/// Projects a list of users, item by item and in order.
fn users_to_output(users: Vec<User>) -> (out: Vec<UserJsonOutput>)
    ensures
        out.deep_view() == project_users(users.deep_view()),
{
    let ghost model = users.deep_view();
    let mut out: Vec<UserJsonOutput> = Vec::new();
    for u in it: users
        invariant
            it.seq().len() == model.len(),
            forall|j: int| 0 <= j < model.len() ==> (#[trigger] it.seq()[j])@ == model[j],
            out@.len() == it.index(),
            forall|j: int| 0 <= j < out@.len() ==> (#[trigger] out@[j])@ == project_user(model[j]),
    {
        out.push(UserJsonOutput::from(u));
    }
    out
}

/// Projects a list of topics in order, and stops at the first one without a
/// creator.
fn topics_to_output(topics: Vec<Topic>) -> (r: Result<Vec<TopicJsonOutput>, ProjectionError>)
    ensures
        all_have_creator(topics.deep_view()) ==> r is Ok && r->Ok_0.deep_view() == project_topics(
            topics.deep_view(),
        ),
        !all_have_creator(topics.deep_view()) ==> r == Err::<Vec<TopicJsonOutput>, _>(
            ProjectionError::MissingCreator,
        ),
{
    let ghost model = topics.deep_view();
    let mut out: Vec<TopicJsonOutput> = Vec::new();
    for t in it: topics
        invariant
            model == topics.deep_view(),
            it.seq().len() == model.len(),
            forall|j: int| 0 <= j < model.len() ==> (#[trigger] it.seq()[j])@ == model[j],
            out@.len() == it.index(),
            forall|j: int| 0 <= j < out@.len() ==> (#[trigger] model[j]).creator is Some,
            forall|j: int|
                0 <= j < out@.len() ==> (#[trigger] out@[j])@ == project_topic_with_creator(
                    model[j],
                ),
    {
        match TopicJsonOutput::project(t) {
            Ok(json) => {
                out.push(json);
            },
            Err(e) => {
                return Err(e);
            },
        }
    }
    Ok(out)
}

impl TopicJsonOutput {
    /// Projects a topic. It fails exactly when the topic has no creator; a
    /// topic without a list of curated posts is given an empty one.
    pub fn project(t: Topic) -> (r: Result<TopicJsonOutput, ProjectionError>)
        ensures
            match project_topic(t@) {
                Ok(json) => r is Ok && r->Ok_0@ == json,
                Err(e) => r == Err::<TopicJsonOutput, _>(e),
            },
    {
        let creator = match t.creator {
            Some(user) => UserJsonOutput::from(user),
            None => {
                return Err(ProjectionError::MissingCreator);
            },
        };
        let posts = match t.curated_posts {
            Some(curated) => posts_to_output(curated),
            None => Vec::new(),
        };
        let out = TopicJsonOutput {
            name: t.name,
            short_name: t.short_name,
            description: t.description,
            post_count: t.curated_post_count,
            image_url: t.large_image_url,
            url: t.url,
            creator,
            posts,
        };
        assert(out@.posts =~= project_topic_with_creator(t@).posts);
        Ok(out)
    }
}

impl SearchJsonOutput {
    /// Projects search results. Each list that is present is projected item by
    /// item; the count of results is kept as it came. It fails exactly when a
    /// topic among the results has no creator.
    pub fn project(s: SearchResults) -> (r: Result<SearchJsonOutput, ProjectionError>)
        ensures
            match project_search(s@) {
                Ok(json) => r is Ok && r->Ok_0@ == json,
                Err(e) => r == Err::<SearchJsonOutput, _>(e),
            },
    {
        let SearchResults { posts, topics, users, total_found } = s;
        let users = match users {
            Some(list) => Some(users_to_output(list)),
            None => None,
        };
        let topics = match topics {
            Some(list) => match topics_to_output(list) {
                Ok(projected) => Some(projected),
                Err(e) => {
                    return Err(e);
                },
            },
            None => None,
        };
        let posts = match posts {
            Some(list) => Some(posts_to_output(list)),
            None => None,
        };
        Ok(SearchJsonOutput { users, topics, posts, total_found })
    }
}

/// A projected topic has as many posts as the upstream sent curated posts,
/// and none when the upstream sent no list: the absence of the list is never
/// an error.
pub proof fn lemma_topic_posts_len(t: TopicModel)
    requires
        t.creator is Some,
    ensures
        project_topic(t) is Ok,
        project_topic(t)->Ok_0.posts.len() == match t.curated_posts {
            Some(ps) => ps.len(),
            None => 0,
        },
{
}

/// A topic without a creator is never projected, whatever else it holds.
pub proof fn lemma_topic_without_creator_fails(t: TopicModel)
    requires
        t.creator is None,
    ensures
        project_topic(t) == Err::<TopicJson, _>(ProjectionError::MissingCreator),
{
}

/// Projecting the same user twice gives the same client-facing value: the
/// projection reads nothing but its argument.
pub proof fn lemma_user_projection_repeatable(first: User, second: User)
    requires
        first@ == second@,
    ensures
        project_user(first@) == project_user(second@),
{
}

} // verus!
