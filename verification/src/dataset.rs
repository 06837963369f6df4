//! The deterministic seed data of a scenario: users named by their index,
//! alternating hair colours, and one post for every third user.

use crate::decimal::{decimal, lemma_decimal_injective, push_decimal};
use crate::scenario::{QueryShape, MAX_ROWS};
use vstd::prelude::*;
use vstd::string::StringExecFns;

verus! {

/// A stored user row.
#[derive(Clone, Debug, PartialEq, Eq)]
pub struct User {
    pub id: i32,
    pub name: String,
    pub hair_color: Option<String>,
}

/// A stored post row; `user_id` names the owning user.
#[derive(Clone, Debug, PartialEq, Eq)]
pub struct Post {
    pub id: i32,
    pub user_id: i32,
    pub title: String,
    pub body: Option<String>,
}

/// A user as handed to storage for insertion; storage assigns the identity.
#[derive(Clone, Debug, PartialEq, Eq)]
pub struct NewUser {
    pub name: String,
    pub hair_color: Option<String>,
}

/// A post as handed to storage for insertion.
#[derive(Clone, Debug, PartialEq, Eq)]
pub struct NewPost {
    pub user_id: i32,
    pub title: String,
    pub body: Option<String>,
}

/// One generated user together with the post generated for it, if any.
#[derive(Clone, Debug, PartialEq, Eq)]
pub struct SeedRow {
    pub user: NewUser,
    pub post: Option<NewPost>,
}

/// The seed data of one scenario, in generation order.
#[derive(Clone, Debug, PartialEq, Eq)]
pub struct SeedBatch {
    pub rows: Vec<SeedRow>,
    pub post_count: usize,
}

/// The view of an optional text.
pub open spec fn text_view(text: Option<String>) -> Option<Seq<char>> {
    match text {
        Some(t) => Some(t@),
        None => None,
    }
}

/// What a stored user is: its identity, its name and its hair colour, if any.
#[verifier::ext_equal]
pub struct UserView {
    pub id: int,
    pub name: Seq<char>,
    pub hair_color: Option<Seq<char>>,
}

/// What a stored post is: its identity, its owner, its title and its body, if any.
#[verifier::ext_equal]
pub struct PostView {
    pub id: int,
    pub user_id: int,
    pub title: Seq<char>,
    pub body: Option<Seq<char>>,
}

/// What a user to insert is: a name and a hair colour, if any.
#[verifier::ext_equal]
pub struct NewUserView {
    pub name: Seq<char>,
    pub hair_color: Option<Seq<char>>,
}

/// What a post to insert is: its owner, its title and its body, if any.
#[verifier::ext_equal]
pub struct NewPostView {
    pub user_id: int,
    pub title: Seq<char>,
    pub body: Option<Seq<char>>,
}

/// What a seed row is: a user to insert and the post generated for it, if any.
#[verifier::ext_equal]
pub struct SeedRowView {
    pub user: NewUserView,
    pub post: Option<NewPostView>,
}

impl View for User {
    type V = UserView;

    open spec fn view(&self) -> UserView {
        UserView { id: self.id as int, name: self.name@, hair_color: text_view(self.hair_color) }
    }
}

impl View for Post {
    type V = PostView;

    open spec fn view(&self) -> PostView {
        PostView {
            id: self.id as int,
            user_id: self.user_id as int,
            title: self.title@,
            body: text_view(self.body),
        }
    }
}

impl View for NewUser {
    type V = NewUserView;

    open spec fn view(&self) -> NewUserView {
        NewUserView { name: self.name@, hair_color: text_view(self.hair_color) }
    }
}

impl View for NewPost {
    type V = NewPostView;

    open spec fn view(&self) -> NewPostView {
        NewPostView { user_id: self.user_id as int, title: self.title@, body: text_view(self.body) }
    }
}

/// The view of an optional new post.
pub open spec fn new_post_view(post: Option<NewPost>) -> Option<NewPostView> {
    match post {
        Some(p) => Some(p@),
        None => None,
    }
}

impl View for SeedRow {
    type V = SeedRowView;

    open spec fn view(&self) -> SeedRowView {
        SeedRowView { user: self.user@, post: new_post_view(self.post) }
    }
}

impl View for SeedBatch {
    type V = Seq<SeedRowView>;

    open spec fn view(&self) -> Seq<SeedRowView> {
        Seq::new(self.rows@.len(), |i: int| self.rows@[i]@)
    }
}

/// Name of the user generated at index `i`: the word `User`, a space, the index.
pub open spec fn user_name(i: nat) -> Seq<char> {
    "User "@ + decimal(i)
}

/// Hair colour of the user generated at index `i`.
///
/// The simple scenario leaves it absent; the complex one alternates, black first.
pub open spec fn seed_hair_color(mode: QueryShape, i: nat) -> Option<Seq<char>> {
    match mode {
        QueryShape::Simple => None,
        QueryShape::Complex => Some(
            if i % 2 == 0 {
                "black"@
            } else {
                "brown"@
            },
        ),
    }
}

/// Whether the user generated at index `i` gets a post.
pub open spec fn has_seed_post(mode: QueryShape, i: nat) -> bool {
    mode == QueryShape::Complex && i % 3 == 0
}

/// The post generated for the user at index `i`, owned by identity `i + 1`.
pub open spec fn seed_post(mode: QueryShape, i: nat) -> Option<NewPostView> {
    if has_seed_post(mode, i) {
        Some(
            NewPostView {
                user_id: i as int + 1,
                title: "My first post"@,
                body: Some("This is the body of my first post"@),
            },
        )
    } else {
        None
    }
}

/// The seed row generated at index `i`.
pub open spec fn seed_row(mode: QueryShape, i: nat) -> SeedRowView {
    SeedRowView {
        user: NewUserView { name: user_name(i), hair_color: seed_hair_color(mode, i) },
        post: seed_post(mode, i),
    }
}

/// The whole seed batch of a scenario with `n` users.
pub open spec fn seed_batch(mode: QueryShape, n: nat) -> Seq<SeedRowView> {
    Seq::new(n, |i: int| seed_row(mode, i as nat))
}

/// Number of rows of `rows` that carry a post.
pub open spec fn count_posts(rows: Seq<SeedRowView>) -> nat
    decreases rows.len(),
{
    if rows.len() == 0 {
        0
    } else {
        count_posts(rows.drop_last()) + if rows.last().post is Some {
            1nat
        } else {
            0nat
        }
    }
}

/// Number of posts a scenario with `n` users generates.
pub open spec fn post_total(mode: QueryShape, n: nat) -> nat {
    match mode {
        QueryShape::Simple => 0,
        QueryShape::Complex => (n + 2) / 3,
    }
}

impl SeedBatch {
    /// The recorded post count agrees with the rows.
    pub open spec fn wf(&self) -> bool {
        self.post_count == count_posts(self@)
    }

    /// Number of generated users.
    pub fn len(&self) -> (n: usize)
        ensures
            n == self@.len(),
    {
        self.rows.len()
    }
}

/// The batch of `n + 1` users is the batch of `n` users with one more row.
pub proof fn lemma_seed_batch_step(mode: QueryShape, n: nat)
    ensures
        seed_batch(mode, n + 1) == seed_batch(mode, n).push(seed_row(mode, n)),
        seed_batch(mode, n + 1).drop_last() == seed_batch(mode, n),
{
    assert(seed_batch(mode, n + 1) =~= seed_batch(mode, n).push(seed_row(mode, n)));
    assert(seed_batch(mode, n + 1).drop_last() =~= seed_batch(mode, n));
}

/// A scenario with `n` users generates one post for each index `0, 3, 6, ..` below `n`:
/// none in the simple scenario, `ceil(n / 3)` in the complex one.
pub proof fn lemma_post_total(mode: QueryShape, n: nat)
    ensures
        count_posts(seed_batch(mode, n)) == post_total(mode, n),
    decreases n,
{
    if n > 0 {
        let m = (n - 1) as nat;
        lemma_post_total(mode, m);
        lemma_seed_batch_step(mode, m);
        assert(seed_batch(mode, n).last() == seed_row(mode, m));
    }
}

/// Builds the text `User <i>`.
fn make_user_name(i: usize) -> (name: String)
    ensures
        name@ == user_name(i as nat),
{
    let mut name = String::from_str("User ");
    push_decimal(&mut name, i as u64);
    name
}

/// Builds the seed row of index `i`.
fn make_seed_row(mode: QueryShape, i: usize) -> (row: SeedRow)
    requires
        mode == QueryShape::Complex ==> i < MAX_ROWS,
    ensures
        row@ == seed_row(mode, i as nat),
{
    let name = make_user_name(i);
    match mode {
        QueryShape::Simple => SeedRow { user: NewUser { name, hair_color: None }, post: None },
        QueryShape::Complex => {
            let hair_color = if i % 2 == 0 {
                String::from_str("black")
            } else {
                String::from_str("brown")
            };
            let post = if i % 3 == 0 {
                Some(
                    NewPost {
                        user_id: (i + 1) as i32,
                        title: String::from_str("My first post"),
                        body: Some(String::from_str("This is the body of my first post")),
                    },
                )
            } else {
                None
            };
            SeedRow { user: NewUser { name, hair_color: Some(hair_color) }, post }
        },
    }
}

/// Generates the seed batch of a scenario: `num_rows` users, and in the complex
/// scenario a post for every third of them, together with the post count.
///
/// A post names its owner by a 32-bit identity, so the complex scenario cannot
/// have more users than such identities can number.
pub fn generate(num_rows: usize, mode: QueryShape) -> (batch: SeedBatch)
    requires
        mode == QueryShape::Complex ==> num_rows <= MAX_ROWS,
    ensures
        batch@ == seed_batch(mode, num_rows as nat),
        batch@.len() == num_rows,
        batch.post_count == post_total(mode, num_rows as nat),
        batch.wf(),
{
    let mut rows: Vec<SeedRow> = Vec::new();
    let mut post_count: usize = 0;
    let mut i: usize = 0;
    while i < num_rows
        invariant
            i <= num_rows,
            mode == QueryShape::Complex ==> num_rows <= MAX_ROWS,
            rows@.len() == i,
            forall|j: int| 0 <= j < i ==> (#[trigger] rows@[j])@ == seed_row(mode, j as nat),
            post_count == post_total(mode, i as nat),
        decreases num_rows - i,
    {
        let row = make_seed_row(mode, i);
        if row.post.is_some() {
            post_count = post_count + 1;
        }
        rows.push(row);
        i = i + 1;
    }
    let batch = SeedBatch { rows, post_count };
    proof {
        assert(batch@ =~= seed_batch(mode, num_rows as nat));
        lemma_post_total(mode, num_rows as nat);
    }
    batch
}

/// The views of a sequence of values, element by element.
pub open spec fn views<T: View>(items: Seq<T>) -> Seq<T::V> {
    Seq::new(items.len(), |i: int| items[i]@)
}

/// The users of a batch, in generation order.
pub open spec fn users_of(rows: Seq<SeedRowView>) -> Seq<NewUserView> {
    Seq::new(rows.len(), |i: int| rows[i].user)
}

/// The posts of a batch, in generation order; rows without a post contribute nothing.
pub open spec fn posts_of(rows: Seq<SeedRowView>) -> Seq<NewPostView>
    decreases rows.len(),
{
    if rows.len() == 0 {
        Seq::empty()
    } else {
        match rows.last().post {
            Some(post) => posts_of(rows.drop_last()).push(post),
            None => posts_of(rows.drop_last()),
        }
    }
}

/// Number of rows of `rows` whose user has black hair.
pub open spec fn count_black(rows: Seq<SeedRowView>) -> nat
    decreases rows.len(),
{
    if rows.len() == 0 {
        0
    } else {
        count_black(rows.drop_last()) + if rows.last().user.hair_color == Some("black"@) {
            1nat
        } else {
            0nat
        }
    }
}

/// There are as many posts to insert as rows that carry one.
pub proof fn lemma_posts_of_len(rows: Seq<SeedRowView>)
    ensures
        posts_of(rows).len() == count_posts(rows),
    decreases rows.len(),
{
    if rows.len() > 0 {
        lemma_posts_of_len(rows.drop_last());
    }
}

/// The two hair colours are different texts.
pub proof fn lemma_colours_differ()
    ensures
        "black"@ != "brown"@,
{
    reveal_strlit("black");
    reveal_strlit("brown");
    assert("black"@[1] == 'l');
    assert("brown"@[1] == 'r');
}

/// In the complex scenario the user at index `i` has black hair exactly when `i`
/// is even, and brown hair otherwise.
pub proof fn lemma_hair_colour_alternates(n: nat, i: nat)
    requires
        i < n,
    ensures
        seed_batch(QueryShape::Complex, n)[i as int].user.hair_color == Some("black"@) <==> i % 2
            == 0,
        seed_batch(QueryShape::Complex, n)[i as int].user.hair_color == Some("brown"@) <==> i % 2
            == 1,
{
    lemma_colours_differ();
}

/// The simple scenario leaves every hair colour absent and generates no post.
pub proof fn lemma_simple_rows_are_bare(n: nat, i: nat)
    requires
        i < n,
    ensures
        seed_batch(QueryShape::Simple, n)[i as int].user.hair_color is None,
        seed_batch(QueryShape::Simple, n)[i as int].post is None,
{
}

/// In the complex scenario the user at index `i` gets a post exactly when `i`
/// is a multiple of three, and that post names identity `i + 1` as its owner.
pub proof fn lemma_posts_every_third(n: nat, i: nat)
    requires
        i < n,
    ensures
        seed_batch(QueryShape::Complex, n)[i as int].post is Some <==> i % 3 == 0,
        i % 3 == 0 ==> seed_batch(QueryShape::Complex, n)[i as int].post->0.user_id == i + 1,
{
}

/// Every generated user is named after its index.
pub proof fn lemma_user_names(mode: QueryShape, n: nat, i: nat)
    requires
        i < n,
    ensures
        seed_batch(mode, n)[i as int].user.name == user_name(i),
{
}

/// In the complex scenario `ceil(n / 2)` of the `n` users have black hair.
pub proof fn lemma_black_total(n: nat)
    ensures
        count_black(seed_batch(QueryShape::Complex, n)) == (n + 1) / 2,
    decreases n,
{
    if n > 0 {
        let m = (n - 1) as nat;
        lemma_black_total(m);
        lemma_seed_batch_step(QueryShape::Complex, m);
        lemma_colours_differ();
        assert(seed_batch(QueryShape::Complex, n).last() == seed_row(QueryShape::Complex, m));
    }
}

/// In the simple scenario no user has black hair.
pub proof fn lemma_no_black_in_simple(n: nat)
    ensures
        count_black(seed_batch(QueryShape::Simple, n)) == 0,
    decreases n,
{
    if n > 0 {
        let m = (n - 1) as nat;
        lemma_no_black_in_simple(m);
        lemma_seed_batch_step(QueryShape::Simple, m);
        assert(seed_batch(QueryShape::Simple, n).last() == seed_row(QueryShape::Simple, m));
    }
}

/// Users generated at different indices have different names.
pub proof fn lemma_user_names_distinct(i: nat, j: nat)
    requires
        user_name(i) == user_name(j),
    ensures
        i == j,
{
    let prefix = "User "@;
    assert(user_name(i).subrange(prefix.len() as int, user_name(i).len() as int) =~= decimal(i));
    assert(user_name(j).subrange(prefix.len() as int, user_name(j).len() as int) =~= decimal(j));
    lemma_decimal_injective(i, j);
}

/// The post generated at index `3 * k`, the `k`-th of a batch.
pub open spec fn nth_seed_post(k: int) -> NewPostView {
    NewPostView {
        user_id: 3 * k + 1,
        title: "My first post"@,
        body: Some("This is the body of my first post"@),
    }
}

/// The posts handed to storage in the complex scenario: the `k`-th of them
/// belongs to the user at index `3 * k`, whose identity is `3 * k + 1` once
/// identities start at 1.
pub proof fn lemma_complex_posts(n: nat)
    ensures
        posts_of(seed_batch(QueryShape::Complex, n)) == Seq::new(
            (n + 2) / 3,
            |k: int| nth_seed_post(k),
        ),
    decreases n,
{
    let mode = QueryShape::Complex;
    if n > 0 {
        let m = (n - 1) as nat;
        lemma_complex_posts(m);
        lemma_seed_batch_step(mode, m);
        assert(seed_batch(mode, n).last() == seed_row(mode, m));
    }
    assert(posts_of(seed_batch(mode, n)) =~= Seq::new((n + 2) / 3, |k: int| nth_seed_post(k)));
}

/// The simple scenario hands no post to storage.
pub proof fn lemma_simple_posts(n: nat)
    ensures
        posts_of(seed_batch(QueryShape::Simple, n)) == Seq::<NewPostView>::empty(),
    decreases n,
{
    let mode = QueryShape::Simple;
    if n > 0 {
        let m = (n - 1) as nat;
        lemma_simple_posts(m);
        lemma_seed_batch_step(mode, m);
        assert(seed_batch(mode, n).last() == seed_row(mode, m));
    }
}

/// Copies an optional text.
fn copy_text(text: &Option<String>) -> (copy: Option<String>)
    ensures
        text_view(copy) == text_view(*text),
{
    match text {
        Some(t) => Some(t.clone()),
        None => None,
    }
}

impl SeedBatch {
    /// The users to insert, in generation order.
    pub fn users(&self) -> (users: Vec<NewUser>)
        ensures
            views(users@) == users_of(self@),
    {
        let mut users: Vec<NewUser> = Vec::new();
        let mut i: usize = 0;
        while i < self.rows.len()
            invariant
                i <= self.rows@.len(),
                users@.len() == i,
                forall|j: int| 0 <= j < i ==> (#[trigger] users@[j])@ == self.rows@[j].user@,
            decreases self.rows@.len() - i,
        {
            let user = &self.rows[i].user;
            users.push(NewUser { name: user.name.clone(), hair_color: copy_text(&user.hair_color) });
            i = i + 1;
        }
        assert(views(users@) =~= users_of(self@));
        users
    }

    /// The posts to insert, in generation order.
    pub fn posts(&self) -> (posts: Vec<NewPost>)
        ensures
            views(posts@) == posts_of(self@),
    {
        let mut posts: Vec<NewPost> = Vec::new();
        let mut i: usize = 0;
        assert(self@.take(0) =~= Seq::empty());
        assert(views(posts@) =~= posts_of(self@.take(0)));
        while i < self.rows.len()
            invariant
                i <= self.rows@.len(),
                views(posts@) == posts_of(self@.take(i as int)),
            decreases self.rows@.len() - i,
        {
            proof {
                let next = self@.take(i as int + 1);
                assert(next.drop_last() =~= self@.take(i as int));
                assert(next.last() == self.rows@[i as int]@);
            }
            let ghost before = posts@;
            match &self.rows[i].post {
                Some(post) => {
                    posts.push(
                        NewPost {
                            user_id: post.user_id,
                            title: post.title.clone(),
                            body: copy_text(&post.body),
                        },
                    );
                    assert(views(posts@) =~= views(before).push(post@));
                },
                None => {},
            }
            i = i + 1;
        }
        assert(self@.take(i as int) =~= self@);
        posts
    }
}

} // verus!
