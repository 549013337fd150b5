//! The per-user post store: one isolated partition per user identifier,
//! created lazily on the first write, holding that user's posts and nobody
//! else's.
//!
//! The store's view is the sequence of partitions, each the sequence of its
//! posts in insertion order. `parts_wf` is the invariant: partitions are
//! unique by user identifier, and post identifiers are unique within a
//! partition. An operation on one user's partition leaves every other
//! partition exactly as it was — the contracts say so by giving the whole
//! new view.

use vstd::math::min;
use vstd::prelude::*;

use crate::errors::UserPostError;
use crate::ids::fresh_uuid;

verus! {

/// One post: an opaque generated identifier, a title and a body.
#[derive(Clone, Debug)]
pub struct Post {
    pub uuid: String,
    pub title: String,
    pub body: String,
}

/// The mathematical image of a post.
#[verifier::ext_equal]
pub ghost struct PostRecord {
    pub uuid: Seq<char>,
    pub title: Seq<char>,
    pub body: Seq<char>,
}

impl View for Post {
    type V = PostRecord;

    open spec fn view(&self) -> PostRecord {
        PostRecord { uuid: self.uuid@, title: self.title@, body: self.body@ }
    }
}

/// One user's partition.
#[derive(Debug)]
pub struct Partition {
    pub user_uuid: String,
    pub posts: Vec<Post>,
}

/// The mathematical image of a partition.
#[verifier::ext_equal]
pub ghost struct PartitionRecord {
    pub user_uuid: Seq<char>,
    pub posts: Seq<PostRecord>,
}

impl View for Partition {
    type V = PartitionRecord;

    open spec fn view(&self) -> PartitionRecord {
        PartitionRecord {
            user_uuid: self.user_uuid@,
            posts: self.posts@.map_values(|p: Post| p@),
        }
    }
}

/// Some partition belongs to this user.
pub open spec fn has_partition(s: Seq<PartitionRecord>, user: Seq<char>) -> bool {
    exists|i: int| 0 <= i < s.len() && s[i].user_uuid == user
}

/// The position of this user's partition; meaningful only under
/// `has_partition`.
pub open spec fn partition_index(s: Seq<PartitionRecord>, user: Seq<char>) -> int {
    choose|i: int| 0 <= i < s.len() && s[i].user_uuid == user
}

/// This user's posts; meaningful only under `has_partition`.
pub open spec fn posts_of(s: Seq<PartitionRecord>, user: Seq<char>) -> Seq<PostRecord> {
    s[partition_index(s, user)].posts
}

/// Some post carries this identifier.
pub open spec fn has_post(posts: Seq<PostRecord>, uuid: Seq<char>) -> bool {
    exists|i: int| 0 <= i < posts.len() && posts[i].uuid == uuid
}

/// The position of the post with this identifier; meaningful only under
/// `has_post`.
pub open spec fn post_index(posts: Seq<PostRecord>, uuid: Seq<char>) -> int {
    choose|i: int| 0 <= i < posts.len() && posts[i].uuid == uuid
}

/// The post with this identifier; meaningful only under `has_post`.
pub open spec fn post_of(posts: Seq<PostRecord>, uuid: Seq<char>) -> PostRecord {
    posts[post_index(posts, uuid)]
}

/// Post identifiers are unique within the sequence.
pub open spec fn posts_wf(posts: Seq<PostRecord>) -> bool {
    forall|i: int, j: int|
        #![trigger posts[i], posts[j]]
        0 <= i < j < posts.len() ==> posts[i].uuid != posts[j].uuid
}

/// The store's invariant: partitions are unique by user identifier, and
/// each partition's posts are unique by post identifier.
pub open spec fn parts_wf(s: Seq<PartitionRecord>) -> bool {
    &&& forall|i: int, j: int|
        #![trigger s[i], s[j]]
        0 <= i < j < s.len() ==> s[i].user_uuid != s[j].user_uuid
    &&& forall|i: int| 0 <= i < s.len() ==> posts_wf(#[trigger] s[i].posts)
}

/// Under the invariant, a partition that belongs to the user is the one
/// that `partition_index` picks.
pub proof fn lemma_partition_index_is_unique(s: Seq<PartitionRecord>, user: Seq<char>, i: int)
    requires
        parts_wf(s),
        0 <= i < s.len(),
        s[i].user_uuid == user,
    ensures
        partition_index(s, user) == i,
{
    assert(has_partition(s, user));
    let j = partition_index(s, user);
    if i < j {
        assert(s[i].user_uuid != s[j].user_uuid);
    } else if j < i {
        assert(s[j].user_uuid != s[i].user_uuid);
    }
}

/// Appending a post whose identifier is new keeps post identifiers unique.
pub proof fn lemma_posts_wf_push(posts: Seq<PostRecord>, rec: PostRecord)
    requires
        posts_wf(posts),
        !has_post(posts, rec.uuid),
    ensures
        posts_wf(posts.push(rec)),
{
    let p2 = posts.push(rec);
    assert forall|i: int, j: int| 0 <= i < j < p2.len() implies (#[trigger] p2[i]).uuid
        != (#[trigger] p2[j]).uuid by {
        if j == posts.len() {
            if posts[i].uuid == rec.uuid {
                assert(has_post(posts, rec.uuid));
            }
        } else {
            assert(posts[i].uuid != posts[j].uuid);
        }
    }
}

/// Under uniqueness, a post that carries the identifier is the one that
/// `post_index` picks.
pub proof fn lemma_post_index_is_unique(posts: Seq<PostRecord>, uuid: Seq<char>, i: int)
    requires
        posts_wf(posts),
        0 <= i < posts.len(),
        posts[i].uuid == uuid,
    ensures
        post_index(posts, uuid) == i,
{
    assert(has_post(posts, uuid));
    let j = post_index(posts, uuid);
    if i < j {
        assert(posts[i].uuid != posts[j].uuid);
    } else if j < i {
        assert(posts[j].uuid != posts[i].uuid);
    }
}

/// How many posts a listing returns at most.
pub const POST_LIST_LIMIT: usize = 100;

/// The store of every user's partition.
#[derive(Debug)]
pub struct PostDb {
    partitions: Vec<Partition>,
}

impl View for PostDb {
    type V = Seq<PartitionRecord>;

    closed spec fn view(&self) -> Seq<PartitionRecord> {
        self.partitions@.map_values(|p: Partition| p@)
    }
}

impl PostDb {
    /// An empty store: no user has a partition yet.
    pub fn new() -> (r: PostDb)
        ensures
            r@ =~= Seq::<PartitionRecord>::empty(),
            parts_wf(r@),
    {
        PostDb { partitions: Vec::new() }
    }

    /// The partitions of the store, for whoever persists them.
    pub fn partitions(&self) -> (r: &Vec<Partition>)
        ensures
            r@.map_values(|p: Partition| p@) == self@,
    {
        &self.partitions
    }

    /// The position of this user's partition, if any.
    fn partition_position(&self, user_uuid: &String) -> (r: Option<usize>)
        ensures
            r matches Some(i) ==> 0 <= i < self@.len() && self@[i as int].user_uuid == user_uuid@,
            r is None ==> !has_partition(self@, user_uuid@),
    {
        let n = self.partitions.len();
        let mut i: usize = 0;
        while i < n
            invariant
                n == self@.len(),
                i <= n,
                forall|k: int| 0 <= k < i ==> self@[k].user_uuid != user_uuid@,
            decreases n - i,
        {
            if self.partitions[i].user_uuid == *user_uuid {
                return Some(i);
            }
            i = i + 1;
        }
        None
    }

    /// Stores a post whose identifier is already fixed, in this user's
    /// partition, creating the partition if this is the user's first post.
    /// Exact: insertion succeeds if and only if the identifier is not
    /// already stored in that partition.
    pub fn insert_post(&mut self, user_uuid: &str, post: Post) -> (r: Result<(), UserPostError>)
        requires
            parts_wf(old(self)@),
        ensures
            parts_wf(final(self)@),
            r is Ok <==> !(has_partition(old(self)@, user_uuid@) && has_post(
                posts_of(old(self)@, user_uuid@),
                post.uuid@,
            )),
            r is Ok ==> if has_partition(old(self)@, user_uuid@) {
                final(self)@ =~= old(self)@.update(
                    partition_index(old(self)@, user_uuid@),
                    PartitionRecord {
                        user_uuid: user_uuid@,
                        posts: posts_of(old(self)@, user_uuid@).push(post@),
                    },
                )
            } else {
                final(self)@ =~= old(self)@.push(
                    PartitionRecord { user_uuid: user_uuid@, posts: seq![post@] },
                )
            },
            r is Err ==> final(self)@ == old(self)@ && r == Err::<(), UserPostError>(
                UserPostError::GenericError,
            ),
    {
        let ghost rec = post@;
        let pid = post.uuid.clone();
        let user_owned = String::from_str(user_uuid);
        match self.partition_position(&user_owned) {
            Some(i) => {
                proof {
                    lemma_partition_index_is_unique(self@, user_uuid@, i as int);
                }
                if post_position(&self.partitions[i].posts, &pid).is_some() {
                    return Err(UserPostError::GenericError);
                }
                self.partitions[i].posts.push(post);
                proof {
                    let s0 = old(self)@;
                    let updated = PartitionRecord {
                        user_uuid: user_uuid@,
                        posts: posts_of(s0, user_uuid@).push(rec),
                    };
                    assert(self.partitions@[i as int]@.posts =~= posts_of(s0, user_uuid@).push(
                        rec,
                    ));
                    assert(self@[i as int] =~~= updated);
                    assert(self@ =~~= s0.update(i as int, updated));
                    lemma_posts_wf_push(posts_of(s0, user_uuid@), rec);
                    assert forall|x: int| 0 <= x < self@.len() implies posts_wf(
                        #[trigger] self@[x].posts,
                    ) by {
                        if x != i as int {
                            assert(self@[x] == s0[x]);
                        }
                    }
                }
                Ok(())
            },
            None => {
                let mut posts: Vec<Post> = Vec::new();
                posts.push(post);
                self.partitions.push(Partition { user_uuid: user_owned, posts });
                proof {
                    let s0 = old(self)@;
                    let fresh_part = PartitionRecord { user_uuid: user_uuid@, posts: seq![rec] };
                    assert(self.partitions@.last()@.posts =~= seq![rec]);
                    assert(self@.last() =~~= fresh_part);
                    assert(self@ =~~= s0.push(fresh_part));
                    assert forall|x: int, y: int| 0 <= x < y < self@.len() implies (
                    #[trigger] self@[x]).user_uuid != (#[trigger] self@[y]).user_uuid by {
                        if y == s0.len() {
                            if s0[x].user_uuid == user_uuid@ {
                                assert(has_partition(s0, user_uuid@));
                            }
                        } else {
                            assert(s0[x].user_uuid != s0[y].user_uuid);
                        }
                    }
                }
                Ok(())
            },
        }
    }

    /// Stores a new post in this user's partition, under a freshly generated
    /// identifier, creating the partition if this is the user's first post.
    /// Returns the generated post identifier; fails only when that
    /// identifier collides with a stored one.
    pub fn create_post(&mut self, user_uuid: &str, title: &str, body: &str) -> (r: Result<
        String,
        UserPostError,
    >)
        requires
            parts_wf(old(self)@),
        ensures
            parts_wf(final(self)@),
            r matches Ok(pid) ==> {
                let rec = PostRecord { uuid: pid@, title: title@, body: body@ };
                if has_partition(old(self)@, user_uuid@) {
                    &&& !has_post(posts_of(old(self)@, user_uuid@), pid@)
                    &&& final(self)@ =~= old(self)@.update(
                        partition_index(old(self)@, user_uuid@),
                        PartitionRecord {
                            user_uuid: user_uuid@,
                            posts: posts_of(old(self)@, user_uuid@).push(rec),
                        },
                    )
                } else {
                    final(self)@ =~= old(self)@.push(
                        PartitionRecord { user_uuid: user_uuid@, posts: seq![rec] },
                    )
                }
            },
            r is Err ==> final(self)@ == old(self)@ && r == Err::<String, UserPostError>(
                UserPostError::GenericError,
            ) && has_partition(old(self)@, user_uuid@),
    {
        let pid = fresh_uuid();
        let post = Post {
            uuid: pid.clone(),
            title: String::from_str(title),
            body: String::from_str(body),
        };
        match self.insert_post(user_uuid, post) {
            Ok(()) => Ok(pid),
            Err(e) => Err(e),
        }
    }

    /// The post with this identifier in this user's partition. Fails with
    /// `PostNotFound` when the partition does not exist or holds no such
    /// post.
    pub fn get_post(&self, user_uuid: &str, post_uuid: &str) -> (r: Result<Post, UserPostError>)
        requires
            parts_wf(self@),
        ensures
            r is Ok <==> (has_partition(self@, user_uuid@) && has_post(
                posts_of(self@, user_uuid@),
                post_uuid@,
            )),
            r matches Ok(p) ==> p@ == post_of(posts_of(self@, user_uuid@), post_uuid@),
            r is Err ==> r == Err::<Post, UserPostError>(UserPostError::PostNotFound),
    {
        let user_owned = String::from_str(user_uuid);
        let post_owned = String::from_str(post_uuid);
        match self.partition_position(&user_owned) {
            Some(i) => {
                proof {
                    lemma_partition_index_is_unique(self@, user_uuid@, i as int);
                }
                match post_position(&self.partitions[i].posts, &post_owned) {
                    Some(k) => {
                        proof {
                            lemma_post_index_is_unique(
                                posts_of(self@, user_uuid@),
                                post_uuid@,
                                k as int,
                            );
                        }
                        let found = &self.partitions[i].posts[k];
                        Ok(
                            Post {
                                uuid: found.uuid.clone(),
                                title: found.title.clone(),
                                body: found.body.clone(),
                            },
                        )
                    },
                    None => Err(UserPostError::PostNotFound),
                }
            },
            None => Err(UserPostError::PostNotFound),
        }
    }

    /// The first posts of this user's partition, in insertion order, at most
    /// `POST_LIST_LIMIT` of them. Fails with `PostNotFound` when the user
    /// has no partition.
    pub fn list_posts(&self, user_uuid: &str) -> (r: Result<Vec<Post>, UserPostError>)
        requires
            parts_wf(self@),
        ensures
            r is Ok <==> has_partition(self@, user_uuid@),
            r matches Ok(v) ==> v@.map_values(|p: Post| p@) =~= posts_of(
                self@,
                user_uuid@,
            ).take(min(posts_of(self@, user_uuid@).len() as int, POST_LIST_LIMIT as int)),
            r is Err ==> r == Err::<Vec<Post>, UserPostError>(UserPostError::PostNotFound),
    {
        let user_owned = String::from_str(user_uuid);
        match self.partition_position(&user_owned) {
            Some(i) => {
                proof {
                    lemma_partition_index_is_unique(self@, user_uuid@, i as int);
                }
                let posts = &self.partitions[i].posts;
                let n = if posts.len() < POST_LIST_LIMIT {
                    posts.len()
                } else {
                    POST_LIST_LIMIT
                };
                let mut out: Vec<Post> = Vec::new();
                let mut k: usize = 0;
                while k < n
                    invariant
                        k <= n,
                        n == min(posts@.len() as int, POST_LIST_LIMIT as int),
                        posts@.map_values(|p: Post| p@) == posts_of(self@, user_uuid@),
                        out@.map_values(|p: Post| p@) =~= posts_of(self@, user_uuid@).take(k as int),
                    decreases n - k,
                {
                    let found = &posts[k];
                    let ghost prev = out@.map_values(|p: Post| p@);
                    out.push(
                        Post {
                            uuid: found.uuid.clone(),
                            title: found.title.clone(),
                            body: found.body.clone(),
                        },
                    );
                    proof {
                        let ps = posts_of(self@, user_uuid@);
                        assert(out@.map_values(|p: Post| p@) =~= prev.push(ps[k as int]));
                        assert(prev.push(ps[k as int]) =~= ps.take(k as int + 1));
                    }
                    k = k + 1;
                }
                Ok(out)
            },
            None => Err(UserPostError::PostNotFound),
        }
    }
}

/// The position of the post with this identifier, if any.
fn post_position(posts: &Vec<Post>, uuid: &String) -> (r: Option<usize>)
    ensures
        r matches Some(i) ==> 0 <= i < posts@.len() && posts@.map_values(|p: Post| p@)[i as int].uuid
            == uuid@,
        r is None ==> !has_post(posts@.map_values(|p: Post| p@), uuid@),
{
    let n = posts.len();
    let mut i: usize = 0;
    while i < n
        invariant
            n == posts@.len(),
            i <= n,
            forall|k: int| 0 <= k < i ==> (#[trigger] posts@[k]).uuid@ != uuid@,
        decreases n - i,
    {
        if posts[i].uuid == *uuid {
            return Some(i);
        }
        i = i + 1;
    }
    None
}

} // verus!
