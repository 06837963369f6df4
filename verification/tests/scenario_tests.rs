use query_bench::dataset::{NewPost, NewUser, Post, User};
use query_bench::error::BenchError;
use query_bench::oracle::QueryResult;
use query_bench::runner::{Action, Event, Runner, Stage};
use query_bench::scenario::{Backend, QueryShape, Scenario};
use query_bench::sql::{
    decode_joined, prepare_insert_posts, prepare_insert_users, prepare_query, prepare_reset, Bind,
    JoinedColumns, Prepared,
};
use query_bench::sweep::{benchmark_complex_query, benchmark_simple_query};

/// Two tables in memory, standing for storage.
struct Tables {
    users: Vec<User>,
    posts: Vec<Post>,
    queries_run: usize,
    rows_lost_per_insert: usize,
}

fn tables() -> Tables {
    Tables { users: Vec::new(), posts: Vec::new(), queries_run: 0, rows_lost_per_insert: 0 }
}

fn add_users(tables: &mut Tables, users: Vec<NewUser>) -> usize {
    let keep = users.len() - tables.rows_lost_per_insert.min(users.len());
    for user in users.into_iter().take(keep) {
        let id = tables.users.len() as i32 + 1;
        tables.users.push(User { id, name: user.name, hair_color: user.hair_color });
    }
    keep
}

fn add_posts(tables: &mut Tables, posts: Vec<NewPost>) -> usize {
    let keep = posts.len() - tables.rows_lost_per_insert.min(posts.len());
    for post in posts.into_iter().take(keep) {
        assert!(tables.users.iter().any(|user| user.id == post.user_id));
        let id = tables.posts.len() as i32 + 1;
        tables.posts.push(Post { id, user_id: post.user_id, title: post.title, body: post.body });
    }
    keep
}

fn black_users_with_posts(tables: &Tables) -> Vec<(User, Option<Post>)> {
    let mut rows = Vec::new();
    for user in &tables.users {
        if user.hair_color.as_deref() != Some("black") {
            continue;
        }
        let owned: Vec<&Post> = tables.posts.iter().filter(|post| post.user_id == user.id).collect();
        if owned.is_empty() {
            rows.push((user.clone(), None));
        }
        for post in owned {
            rows.push((user.clone(), Some(post.clone())));
        }
    }
    rows.sort_by(|a, b| b.0.name.cmp(&a.0.name));
    rows
}

fn text_bind(bind: &Bind) -> Option<String> {
    match bind {
        Bind::Text(text) => Some(text.clone()),
        Bind::Null => None,
        Bind::Int(value) => panic!("integer {} bound where a text belongs", value),
    }
}

fn int_bind(bind: &Bind) -> i32 {
    match bind {
        Bind::Int(value) => *value,
        other => panic!("{:?} bound where an integer belongs", other),
    }
}

/// Executes a prepared statement of the plain driver against the tables.
fn execute(tables: &mut Tables, prepared: &Prepared) -> usize {
    assert_eq!(prepared.text.matches('$').count(), prepared.binds.len());
    for k in 1..=prepared.binds.len() {
        assert!(prepared.text.contains(&format!("${}", k)));
    }
    if prepared.text == prepare_reset().text {
        tables.users.clear();
        tables.posts.clear();
        0
    } else if prepared.text.starts_with("INSERT INTO users (name) VALUES (") {
        let users = prepared
            .binds
            .iter()
            .map(|name| NewUser { name: text_bind(name).unwrap(), hair_color: None })
            .collect();
        add_users(tables, users)
    } else if prepared.text.starts_with("INSERT INTO users (name, hair_color) VALUES (") {
        let users = prepared
            .binds
            .chunks(2)
            .map(|pair| NewUser { name: text_bind(&pair[0]).unwrap(), hair_color: text_bind(&pair[1]) })
            .collect();
        add_users(tables, users)
    } else if prepared.text.starts_with("INSERT INTO posts (user_id, title, body) VALUES (") {
        let posts = prepared
            .binds
            .chunks(3)
            .map(|triple| NewPost {
                user_id: int_bind(&triple[0]),
                title: text_bind(&triple[1]).unwrap(),
                body: text_bind(&triple[2]),
            })
            .collect();
        add_posts(tables, posts)
    } else {
        panic!("not a statement: {}", prepared.text)
    }
}

/// Runs a prepared query of the plain driver and decodes its rows.
fn query(tables: &Tables, prepared: &Prepared) -> QueryResult {
    if prepared.text == "SELECT * FROM users" {
        assert!(prepared.binds.is_empty());
        QueryResult::Users(tables.users.clone())
    } else {
        assert_eq!(prepared.binds, vec![Bind::Text("black".to_string())]);
        let rows = black_users_with_posts(tables)
            .into_iter()
            .map(|(user, post)| {
                let columns = JoinedColumns {
                    user_id: user.id,
                    user_name: user.name,
                    user_hair_color: user.hair_color,
                    post_id: post.as_ref().map(|p| p.id),
                    post_user_id: post.as_ref().map(|p| p.user_id),
                    post_title: post.as_ref().map(|p| p.title.clone()),
                    post_body: post.and_then(|p| p.body),
                };
                decode_joined(columns).unwrap()
            })
            .collect();
        QueryResult::Joined(rows)
    }
}

/// Carries out one action on the tables, as the scenario's backend would.
fn perform(tables: &mut Tables, scenario: Scenario, action: Action, clock: u64) -> (Event, Option<QueryResult>) {
    match (action, scenario.backend) {
        (Action::Reset, Backend::Orm) => {
            tables.users.clear();
            tables.posts.clear();
            (Event::ResetDone, None)
        }
        (Action::Reset, Backend::RawDriver) => {
            execute(tables, &prepare_reset());
            (Event::ResetDone, None)
        }
        (Action::InsertUsers(users), Backend::Orm) => (Event::Inserted(add_users(tables, users)), None),
        (Action::InsertUsers(users), Backend::RawDriver) => {
            let prepared = prepare_insert_users(scenario.shape, &users);
            (Event::Inserted(execute(tables, &prepared)), None)
        }
        (Action::InsertPosts(posts), Backend::Orm) => (Event::Inserted(add_posts(tables, posts)), None),
        (Action::InsertPosts(posts), Backend::RawDriver) => {
            let prepared = prepare_insert_posts(&posts);
            (Event::Inserted(execute(tables, &prepared)), None)
        }
        (Action::RunQuery(shape), backend) => {
            tables.queries_run += 1;
            let result = match (backend, shape) {
                (Backend::Orm, QueryShape::Simple) => QueryResult::Users(tables.users.clone()),
                (Backend::Orm, QueryShape::Complex) => QueryResult::Joined(black_users_with_posts(tables)),
                (Backend::RawDriver, _) => query(tables, &prepare_query(shape)),
            };
            (Event::Sample { result: result.clone(), elapsed_nanos: clock }, Some(result))
        }
        (Action::Finish, _) | (Action::Abort(_), _) => unreachable!(),
    }
}

/// Drives a scenario to its end and hands back the runner, the last action and every result seen.
fn drive(start: (Runner, Action), tables: &mut Tables) -> (Runner, Action, Vec<QueryResult>) {
    let (mut runner, mut action) = start;
    let mut results = Vec::new();
    let mut clock = 0;
    loop {
        if matches!(action, Action::Finish | Action::Abort(_)) {
            return (runner, action, results);
        }
        clock += 1;
        let (event, result) = perform(tables, runner.scenario(), action, clock);
        results.extend(result);
        let next = runner.step(event);
        runner = next.0;
        action = next.1;
    }
}

#[test]
fn simple_query_returns_every_inserted_row() {
    for backend in [Backend::Orm, Backend::RawDriver] {
        for n in [0usize, 1, 10, 100, 1000, 10000] {
            let mut store = tables();
            let (runner, action, results) = drive(benchmark_simple_query(n, backend, 2), &mut store);
            assert_eq!(action, Action::Finish);
            assert_eq!(runner.stage(), Stage::Done);
            assert_eq!(*runner.samples(), vec![if n == 0 { 2 } else { 3 }, if n == 0 { 3 } else { 4 }]);
            assert_eq!(results.len(), 2);
            for result in results {
                assert_eq!(result.row_count(), n);
            }
            assert_eq!(store.users.len(), n);
            assert!(store.posts.is_empty());
        }
    }
}

#[test]
fn empty_scenario_returns_an_empty_result_without_error() {
    for backend in [Backend::Orm, Backend::RawDriver] {
        let mut store = tables();
        let (_, action, results) = drive(benchmark_simple_query(0, backend, 1), &mut store);
        assert_eq!(action, Action::Finish);
        assert_eq!(results, vec![QueryResult::Users(vec![])]);
        let (_, action, results) = drive(benchmark_complex_query(0, backend, 1), &mut store);
        assert_eq!(action, Action::Finish);
        assert_eq!(results, vec![QueryResult::Joined(vec![])]);
    }
}

#[test]
fn reseeding_yields_the_same_identities() {
    for backend in [Backend::Orm, Backend::RawDriver] {
        let mut store = tables();
        for _ in 0..2 {
            let (_, action, _) = drive(benchmark_complex_query(100, backend, 1), &mut store);
            assert_eq!(action, Action::Finish);
            let ids: Vec<i32> = store.users.iter().map(|user| user.id).collect();
            assert_eq!(ids, (1..=100).collect::<Vec<i32>>());
            let owners: Vec<i32> = store.posts.iter().map(|post| post.user_id).collect();
            assert_eq!(owners, (0..34).map(|k| 3 * k + 1).collect::<Vec<i32>>());
        }
    }
}

#[test]
fn complex_query_over_ten_rows_returns_five_black_haired_users() {
    for backend in [Backend::Orm, Backend::RawDriver] {
        let mut store = tables();
        let (_, action, results) = drive(benchmark_complex_query(10, backend, 1), &mut store);
        assert_eq!(action, Action::Finish);
        match &results[0] {
            QueryResult::Joined(rows) => {
                assert_eq!(rows.len(), 5);
                let names: Vec<&str> = rows.iter().map(|row| row.0.name.as_str()).collect();
                assert_eq!(names, vec!["User 8", "User 6", "User 4", "User 2", "User 0"]);
                for (user, post) in rows {
                    assert_eq!(user.hair_color.as_deref(), Some("black"));
                    assert_eq!(post.is_some(), (user.id - 1) % 3 == 0);
                    if let Some(post) = post {
                        assert_eq!(post.user_id, user.id);
                    }
                }
            }
            other => panic!("unexpected result {:?}", other),
        }
    }
}

#[test]
fn complex_query_over_one_row_pairs_the_user_with_its_post() {
    for backend in [Backend::Orm, Backend::RawDriver] {
        let mut store = tables();
        let (_, action, results) = drive(benchmark_complex_query(1, backend, 1), &mut store);
        assert_eq!(action, Action::Finish);
        let user = User { id: 1, name: "User 0".to_string(), hair_color: Some("black".to_string()) };
        let post = Post {
            id: 1,
            user_id: 1,
            title: "My first post".to_string(),
            body: Some("This is the body of my first post".to_string()),
        };
        assert_eq!(results, vec![QueryResult::Joined(vec![(user, Some(post))])]);
    }
}

#[test]
fn both_backends_return_the_same_rows() {
    for n in [0usize, 1, 10, 100, 1000] {
        let mut orm = tables();
        let mut raw = tables();
        let (_, _, by_orm) = drive(benchmark_simple_query(n, Backend::Orm, 1), &mut orm);
        let (_, _, by_raw) = drive(benchmark_simple_query(n, Backend::RawDriver, 1), &mut raw);
        assert_eq!(by_orm, by_raw);
        assert_eq!(orm.users, raw.users);
        let (_, _, by_orm) = drive(benchmark_complex_query(n, Backend::Orm, 1), &mut orm);
        let (_, _, by_raw) = drive(benchmark_complex_query(n, Backend::RawDriver, 1), &mut raw);
        assert_eq!(by_orm, by_raw);
        assert_eq!(orm.users, raw.users);
        assert_eq!(orm.posts, raw.posts);
    }
}

#[test]
fn lossy_storage_never_reaches_the_timed_loop() {
    for backend in [Backend::Orm, Backend::RawDriver] {
        let mut store = tables();
        store.rows_lost_per_insert = 1;
        let (runner, action, results) = drive(benchmark_simple_query(10, backend, 5), &mut store);
        let mismatch = BenchError::SeedMismatch { requested: 10, inserted: 9 };
        assert_eq!(action, Action::Abort(mismatch));
        assert_eq!(runner.stage(), Stage::Failed(mismatch));
        assert!(runner.samples().is_empty());
        assert!(results.is_empty());
        assert_eq!(store.queries_run, 0);
    }
}

#[test]
fn storage_that_loses_rows_after_seeding_fails_the_sample() {
    let mut store = tables();
    let (runner, action) = benchmark_complex_query(10, Backend::Orm, 3);
    let (runner, action) = {
        let (event, _) = perform(&mut store, runner.scenario(), action, 0);
        runner.step(event)
    };
    let (runner, action) = {
        let (event, _) = perform(&mut store, runner.scenario(), action, 0);
        runner.step(event)
    };
    let (runner, action) = {
        let (event, _) = perform(&mut store, runner.scenario(), action, 0);
        runner.step(event)
    };
    assert_eq!(action, Action::RunQuery(QueryShape::Complex));
    store.users.retain(|user| user.id != 1);
    let (runner, action, results) = drive((runner, action), &mut store);
    assert_eq!(results.len(), 1);
    assert_eq!(
        action,
        Action::Abort(BenchError::Assertion {
            expected_shape: QueryShape::Complex,
            expected: 5,
            observed_shape: QueryShape::Complex,
            observed: 4,
        })
    );
    assert!(runner.samples().is_empty());
}
