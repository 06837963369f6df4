//! The statements of the plain-driver backend: their text, with numbered
//! placeholders, and the values bound to them; and the decoding of the joined
//! rows that the complex query returns.

use crate::dataset::{
    text_view, views, NewPost, NewPostView, NewUser, NewUserView, Post, PostView, User, UserView,
};
use crate::decimal::{decimal, push_decimal};
use crate::oracle::post_view;
use crate::scenario::{QueryShape, MAX_ROWS};
use vstd::prelude::*;
use vstd::string::StringExecFns;

verus! {

/// A value bound to a placeholder.
#[derive(Clone, Debug, PartialEq, Eq)]
pub enum Bind {
    Text(String),
    Int(i32),
    Null,
}

/// A statement ready to be sent: its text and the values for `$1`, `$2`, ..
#[derive(Clone, Debug, PartialEq, Eq)]
pub struct Prepared {
    pub text: String,
    pub binds: Vec<Bind>,
}

/// What a bound value is: a text, an integer or null.
#[verifier::ext_equal]
pub enum BindView {
    Text(Seq<char>),
    Int(int),
    Null,
}

/// What a prepared statement is: its text and its bound values, in placeholder order.
#[verifier::ext_equal]
pub struct PreparedView {
    pub text: Seq<char>,
    pub binds: Seq<BindView>,
}

impl View for Bind {
    type V = BindView;

    open spec fn view(&self) -> BindView {
        match self {
            Bind::Text(text) => BindView::Text(text@),
            Bind::Int(value) => BindView::Int(*value as int),
            Bind::Null => BindView::Null,
        }
    }
}

impl View for Prepared {
    type V = PreparedView;

    open spec fn view(&self) -> PreparedView {
        PreparedView { text: self.text@, binds: views(self.binds@) }
    }
}

/// The separator before the item at 1-based position `position` of a list:
/// nothing before the first, a comma and a space before every other.
pub open spec fn separator(position: nat) -> Seq<char> {
    if position > 1 {
        ", "@
    } else {
        Seq::empty()
    }
}

/// The first `count` placeholders of a group that starts at number `first`,
/// separated by commas: `$first, $first+1, ..`
pub open spec fn placeholders(first: nat, count: nat) -> Seq<char>
    decreases count,
{
    if count == 0 {
        Seq::empty()
    } else {
        placeholders(first, (count - 1) as nat) + separator(count) + "$"@ + decimal(
            (first + count - 1) as nat,
        )
    }
}

/// One parenthesised group of `width` placeholders, numbered from `first`.
pub open spec fn group(first: nat, width: nat) -> Seq<char> {
    "("@ + placeholders(first, width) + ")"@
}

/// The groups of the first `rows` rows, `width` placeholders each, numbered
/// consecutively from 1 and separated by commas.
pub open spec fn values_list(rows: nat, width: nat) -> Seq<char>
    decreases rows,
{
    if rows == 0 {
        Seq::empty()
    } else {
        values_list((rows - 1) as nat, width) + separator(rows) + group(
            ((rows - 1) * width + 1) as nat,
            width,
        )
    }
}

/// Number of columns the users insert fills: the name, and in the complex
/// scenario the hair colour.
pub open spec fn user_columns(shape: QueryShape) -> nat {
    match shape {
        QueryShape::Simple => 1,
        QueryShape::Complex => 2,
    }
}

/// The users insert up to its value list.
pub open spec fn users_head(shape: QueryShape) -> Seq<char> {
    match shape {
        QueryShape::Simple => "INSERT INTO users (name) VALUES "@,
        QueryShape::Complex => "INSERT INTO users (name, hair_color) VALUES "@,
    }
}

/// The posts insert up to its value list.
pub open spec fn posts_head() -> Seq<char> {
    "INSERT INTO posts (user_id, title, body) VALUES "@
}

/// The text of the statement that empties both tables and restarts their identities.
pub open spec fn reset_text() -> Seq<char> {
    "TRUNCATE TABLE users, posts RESTART IDENTITY"@
}

/// The text of the timed query of each shape.
pub open spec fn query_text(shape: QueryShape) -> Seq<char> {
    match shape {
        QueryShape::Simple => "SELECT * FROM users"@,
        QueryShape::Complex =>
            "SELECT users.id as user_id, users.name as user_name, users.hair_color as user_hair_color, posts.id as post_id, posts.user_id as post_user_id, posts.title as post_title, posts.body as post_body FROM users LEFT OUTER JOIN posts ON users.id = posts.user_id WHERE users.hair_color = $1 ORDER BY name DESC"@,
    }
}

/// The bind for an optional text: the text, or null where it is absent.
pub open spec fn text_bind(text: Option<Seq<char>>) -> BindView {
    match text {
        Some(t) => BindView::Text(t),
        None => BindView::Null,
    }
}

/// The values one user contributes to the users insert.
pub open spec fn binds_of_user(shape: QueryShape, user: NewUserView) -> Seq<BindView> {
    match shape {
        QueryShape::Simple => seq![BindView::Text(user.name)],
        QueryShape::Complex => seq![BindView::Text(user.name), text_bind(user.hair_color)],
    }
}

/// The values of the users insert, user by user.
pub open spec fn user_binds(shape: QueryShape, users: Seq<NewUserView>) -> Seq<BindView>
    decreases users.len(),
{
    if users.len() == 0 {
        Seq::empty()
    } else {
        user_binds(shape, users.drop_last()) + binds_of_user(shape, users.last())
    }
}

/// The values one post contributes to the posts insert.
pub open spec fn binds_of_post(post: NewPostView) -> Seq<BindView> {
    seq![BindView::Int(post.user_id), BindView::Text(post.title), text_bind(post.body)]
}

/// The values of the posts insert, post by post.
pub open spec fn post_binds(posts: Seq<NewPostView>) -> Seq<BindView>
    decreases posts.len(),
{
    if posts.len() == 0 {
        Seq::empty()
    } else {
        post_binds(posts.drop_last()) + binds_of_post(posts.last())
    }
}

/// The users insert for the given users.
pub open spec fn insert_users_prepared(
    shape: QueryShape,
    users: Seq<NewUserView>,
) -> PreparedView {
    PreparedView {
        text: users_head(shape) + values_list(users.len(), user_columns(shape)),
        binds: user_binds(shape, users),
    }
}

/// The posts insert for the given posts.
pub open spec fn insert_posts_prepared(posts: Seq<NewPostView>) -> PreparedView {
    PreparedView { text: posts_head() + values_list(posts.len(), 3), binds: post_binds(posts) }
}

/// The timed query of each shape: the complex one filters on black hair.
pub open spec fn query_prepared(shape: QueryShape) -> PreparedView {
    PreparedView {
        text: query_text(shape),
        binds: match shape {
            QueryShape::Simple => Seq::empty(),
            QueryShape::Complex => seq![BindView::Text("black"@)],
        },
    }
}

/// Appends one group of `width` placeholders numbered from `first`.
fn push_group(out: &mut String, first: u64, width: u64)
    requires
        first + width <= u64::MAX,
    ensures
        final(out)@ == old(out)@ + group(first as nat, width as nat),
{
    out.append("(");
    let mut j: u64 = 0;
    assert(out@ =~= old(out)@ + "("@ + placeholders(first as nat, 0));
    while j < width
        invariant
            j <= width,
            first + width <= u64::MAX,
            out@ == old(out)@ + "("@ + placeholders(first as nat, j as nat),
        decreases width - j,
    {
        let ghost before = out@;
        if j != 0 {
            out.append(", ");
        }
        out.append("$");
        push_decimal(out, first + j);
        j = j + 1;
        assert(out@ =~= old(out)@ + "("@ + placeholders(first as nat, j as nat)) by {
            assert(out@ == before + separator(j as nat) + "$"@ + decimal((first + j - 1) as nat));
        }
    }
    out.append(")");
    assert(out@ =~= old(out)@ + group(first as nat, width as nat));
}

/// Appends the value list of `rows` rows of `width` placeholders each.
fn push_values_list(out: &mut String, rows: usize, width: u64)
    requires
        rows <= MAX_ROWS,
        1 <= width <= 3,
    ensures
        final(out)@ == old(out)@ + values_list(rows as nat, width as nat),
{
    let mut i: usize = 0;
    let mut first: u64 = 1;
    assert(out@ =~= old(out)@ + values_list(0, width as nat));
    while i < rows
        invariant
            i <= rows <= MAX_ROWS,
            1 <= width <= 3,
            first == i * width + 1,
            out@ == old(out)@ + values_list(i as nat, width as nat),
        decreases rows - i,
    {
        let ghost before = out@;
        assert(i * width + 1 + width == (i + 1) * width + 1 && (i + 1) * width <= 3 * MAX_ROWS)
            by (nonlinear_arith)
            requires
                i < rows <= MAX_ROWS,
                1 <= width <= 3,
        ;
        if i != 0 {
            out.append(", ");
        }
        push_group(out, first, width);
        first = first + width;
        i = i + 1;
        assert(out@ =~= old(out)@ + values_list(i as nat, width as nat)) by {
            assert(out@ == before + separator(i as nat) + group(
                ((i - 1) * width + 1) as nat,
                width as nat,
            ));
        }
    }
}

/// Makes the bind for an optional text.
fn make_text_bind(text: &Option<String>) -> (bind: Bind)
    ensures
        bind@ == text_bind(text_view(*text)),
{
    match text {
        Some(t) => Bind::Text(t.clone()),
        None => Bind::Null,
    }
}

/// The statement that empties both tables and restarts their identities.
pub fn prepare_reset() -> (prepared: Prepared)
    ensures
        prepared@ == (PreparedView { text: reset_text(), binds: Seq::empty() }),
{
    let prepared = Prepared {
        text: String::from_str("TRUNCATE TABLE users, posts RESTART IDENTITY"),
        binds: Vec::new(),
    };
    assert(prepared@.binds =~= Seq::empty());
    prepared
}

/// The timed query of the given shape.
pub fn prepare_query(shape: QueryShape) -> (prepared: Prepared)
    ensures
        prepared@ == query_prepared(shape),
{
    let mut binds: Vec<Bind> = Vec::new();
    let text = match shape {
        QueryShape::Simple => String::from_str("SELECT * FROM users"),
        QueryShape::Complex => {
            binds.push(Bind::Text(String::from_str("black")));
            String::from_str(
                "SELECT users.id as user_id, users.name as user_name, users.hair_color as user_hair_color, posts.id as post_id, posts.user_id as post_user_id, posts.title as post_title, posts.body as post_body FROM users LEFT OUTER JOIN posts ON users.id = posts.user_id WHERE users.hair_color = $1 ORDER BY name DESC",
            )
        },
    };
    let prepared = Prepared { text, binds };
    assert(prepared@.binds =~= query_prepared(shape).binds);
    prepared
}

/// The one statement that inserts all the given users.
///
/// The simple scenario fills the name only; the complex one fills name and
/// hair colour. With no user the text ends after `VALUES` and is not a
/// statement: an empty batch is not inserted.
pub fn prepare_insert_users(shape: QueryShape, users: &Vec<NewUser>) -> (prepared: Prepared)
    requires
        users@.len() <= MAX_ROWS,
    ensures
        prepared@ == insert_users_prepared(shape, views(users@)),
{
    let mut text = match shape {
        QueryShape::Simple => String::from_str("INSERT INTO users (name) VALUES "),
        QueryShape::Complex => String::from_str("INSERT INTO users (name, hair_color) VALUES "),
    };
    let width: u64 = match shape {
        QueryShape::Simple => 1,
        QueryShape::Complex => 2,
    };
    push_values_list(&mut text, users.len(), width);
    let mut binds: Vec<Bind> = Vec::new();
    let mut i: usize = 0;
    let ghost all = views(users@);
    assert(all.take(0) =~= Seq::empty());
    assert(views(binds@) =~= user_binds(shape, all.take(0)));
    while i < users.len()
        invariant
            i <= users@.len(),
            all == views(users@),
            views(binds@) == user_binds(shape, all.take(i as int)),
        decreases users@.len() - i,
    {
        let ghost before = views(binds@);
        proof {
            let next = all.take(i as int + 1);
            assert(next.drop_last() =~= all.take(i as int));
            assert(next.last() == users@[i as int]@);
        }
        binds.push(Bind::Text(users[i].name.clone()));
        match shape {
            QueryShape::Simple => {},
            QueryShape::Complex => {
                binds.push(make_text_bind(&users[i].hair_color));
            },
        }
        assert(views(binds@) =~= before + binds_of_user(shape, users@[i as int]@));
        i = i + 1;
    }
    assert(all.take(i as int) =~= all);
    Prepared { text, binds }
}

/// The one statement that inserts all the given posts.
pub fn prepare_insert_posts(posts: &Vec<NewPost>) -> (prepared: Prepared)
    requires
        posts@.len() <= MAX_ROWS,
    ensures
        prepared@ == insert_posts_prepared(views(posts@)),
{
    let mut text = String::from_str("INSERT INTO posts (user_id, title, body) VALUES ");
    push_values_list(&mut text, posts.len(), 3);
    let mut binds: Vec<Bind> = Vec::new();
    let mut i: usize = 0;
    let ghost all = views(posts@);
    assert(all.take(0) =~= Seq::empty());
    assert(views(binds@) =~= post_binds(all.take(0)));
    while i < posts.len()
        invariant
            i <= posts@.len(),
            all == views(posts@),
            views(binds@) == post_binds(all.take(i as int)),
        decreases posts@.len() - i,
    {
        let ghost before = views(binds@);
        proof {
            let next = all.take(i as int + 1);
            assert(next.drop_last() =~= all.take(i as int));
            assert(next.last() == posts@[i as int]@);
        }
        binds.push(Bind::Int(posts[i].user_id));
        binds.push(Bind::Text(posts[i].title.clone()));
        binds.push(make_text_bind(&posts[i].body));
        assert(views(binds@) =~= before + binds_of_post(posts@[i as int]@));
        i = i + 1;
    }
    assert(all.take(i as int) =~= all);
    Prepared { text, binds }
}

/// The users insert binds one value for each placeholder of its text.
pub proof fn lemma_user_bind_count(shape: QueryShape, users: Seq<NewUserView>)
    ensures
        user_binds(shape, users).len() == users.len() * user_columns(shape),
    decreases users.len(),
{
    if users.len() > 0 {
        lemma_user_bind_count(shape, users.drop_last());
        assert((users.len() - 1) * user_columns(shape) + user_columns(shape) == users.len()
            * user_columns(shape)) by (nonlinear_arith);
    }
}

/// The posts insert binds three values for each post.
pub proof fn lemma_post_bind_count(posts: Seq<NewPostView>)
    ensures
        post_binds(posts).len() == posts.len() * 3,
    decreases posts.len(),
{
    if posts.len() > 0 {
        lemma_post_bind_count(posts.drop_last());
    }
}

/// Which value is bound to which placeholder of the users insert: user `i`
/// fills the group of row `i`, the name first, then the hair colour where
/// the statement has that column.
pub proof fn lemma_user_bind_at(shape: QueryShape, users: Seq<NewUserView>, i: int)
    requires
        0 <= i < users.len(),
    ensures
        user_binds(shape, users).len() == users.len() * user_columns(shape),
        user_binds(shape, users)[i * user_columns(shape)] == BindView::Text(users[i].name),
        shape == QueryShape::Complex ==> user_binds(shape, users)[i * 2 + 1] == text_bind(
            users[i].hair_color,
        ),
    decreases users.len(),
{
    lemma_user_bind_count(shape, users);
    lemma_user_bind_count(shape, users.drop_last());
    if i < users.len() - 1 {
        lemma_user_bind_at(shape, users.drop_last(), i);
    }
}

/// Which value is bound to which placeholder of the posts insert: post `i`
/// fills the group of row `i` with its owner, its title and its body.
pub proof fn lemma_post_bind_at(posts: Seq<NewPostView>, i: int)
    requires
        0 <= i < posts.len(),
    ensures
        post_binds(posts).len() == posts.len() * 3,
        post_binds(posts)[i * 3] == BindView::Int(posts[i].user_id),
        post_binds(posts)[i * 3 + 1] == BindView::Text(posts[i].title),
        post_binds(posts)[i * 3 + 2] == text_bind(posts[i].body),
    decreases posts.len(),
{
    lemma_post_bind_count(posts);
    lemma_post_bind_count(posts.drop_last());
    if i < posts.len() - 1 {
        lemma_post_bind_at(posts.drop_last(), i);
    }
}

/// The columns of one row of the complex query, as the driver delivers them.
/// The post columns are null where no post matches the user.
#[derive(Clone, Debug, PartialEq, Eq)]
pub struct JoinedColumns {
    pub user_id: i32,
    pub user_name: String,
    pub user_hair_color: Option<String>,
    pub post_id: Option<i32>,
    pub post_user_id: Option<i32>,
    pub post_title: Option<String>,
    pub post_body: Option<String>,
}

/// What the columns of a joined row hold.
#[verifier::ext_equal]
pub struct JoinedColumnsView {
    pub user_id: int,
    pub user_name: Seq<char>,
    pub user_hair_color: Option<Seq<char>>,
    pub post_id: Option<int>,
    pub post_user_id: Option<int>,
    pub post_title: Option<Seq<char>>,
    pub post_body: Option<Seq<char>>,
}

/// The view of an optional identity.
pub open spec fn id_view(id: Option<i32>) -> Option<int> {
    match id {
        Some(value) => Some(value as int),
        None => None,
    }
}

impl View for JoinedColumns {
    type V = JoinedColumnsView;

    open spec fn view(&self) -> JoinedColumnsView {
        JoinedColumnsView {
            user_id: self.user_id as int,
            user_name: self.user_name@,
            user_hair_color: text_view(self.user_hair_color),
            post_id: id_view(self.post_id),
            post_user_id: id_view(self.post_user_id),
            post_title: text_view(self.post_title),
            post_body: text_view(self.post_body),
        }
    }
}

/// The pair that a joined row stands for.
///
/// A null post identity means that no post matched: the user is paired with
/// absence. With a post identity, the owner and the title must be there too,
/// as the schema does not allow them to be null; a row that lacks one of them
/// stands for nothing.
pub open spec fn decoded(columns: JoinedColumnsView) -> Option<(UserView, Option<PostView>)> {
    let user = UserView {
        id: columns.user_id,
        name: columns.user_name,
        hair_color: columns.user_hair_color,
    };
    match (columns.post_id, columns.post_user_id, columns.post_title) {
        (None, _, _) => Some((user, None)),
        (Some(id), Some(user_id), Some(title)) => Some(
            (user, Some(PostView { id, user_id, title, body: columns.post_body })),
        ),
        _ => None,
    }
}

/// The view of a decoded pair, or of nothing.
pub open spec fn pair_view(pair: Option<(User, Option<Post>)>) -> Option<
    (UserView, Option<PostView>),
> {
    match pair {
        Some((user, post)) => Some((user@, post_view(post))),
        None => None,
    }
}

/// Decodes one row of the complex query into a user and its post, if any.
pub fn decode_joined(columns: JoinedColumns) -> (pair: Option<(User, Option<Post>)>)
    ensures
        pair_view(pair) == decoded(columns@),
{
    let JoinedColumns {
        user_id,
        user_name,
        user_hair_color,
        post_id,
        post_user_id,
        post_title,
        post_body,
    } = columns;
    let user = User { id: user_id, name: user_name, hair_color: user_hair_color };
    match (post_id, post_user_id, post_title) {
        (None, _, _) => Some((user, None)),
        (Some(id), Some(user_id), Some(title)) => Some(
            (user, Some(Post { id, user_id, title, body: post_body })),
        ),
        _ => None,
    }
}

} // verus!
