use query_bench::dataset::{NewPost, NewUser, Post, User};
use query_bench::error::BenchError;
use query_bench::oracle::QueryResult;
use query_bench::runner::{Action, Event, Runner, Stage};
use query_bench::scenario::{Backend, QueryShape, Scenario, Statement};

fn scenario_of(shape: QueryShape, num_rows: usize) -> Scenario {
    Scenario { shape, num_rows, backend: Backend::Orm }
}

fn flat_rows(n: usize) -> QueryResult {
    QueryResult::Users(
        (0..n).map(|i| User { id: i as i32 + 1, name: format!("User {}", i), hair_color: None }).collect(),
    )
}

fn joined_rows(n: usize) -> QueryResult {
    QueryResult::Joined(
        (0..n)
            .map(|i| {
                let user = User {
                    id: 2 * i as i32 + 1,
                    name: format!("User {}", 2 * i),
                    hair_color: Some("black".to_string()),
                };
                (user, None::<Post>)
            })
            .collect(),
    )
}

fn sample(result: QueryResult, elapsed_nanos: u64) -> Event {
    Event::Sample { result, elapsed_nanos }
}

fn seeded(shape: QueryShape, num_rows: usize, wanted: usize) -> (Runner, Action) {
    let (runner, action) = Runner::begin(scenario_of(shape, num_rows), wanted);
    assert_eq!(action, Action::Reset);
    let (runner, action) = runner.step(Event::ResetDone);
    assert!(matches!(action, Action::InsertUsers(_)));
    let (runner, action) = runner.step(Event::Inserted(num_rows));
    match action {
        Action::InsertPosts(posts) => runner.step(Event::Inserted(posts.len())),
        other => (runner, other),
    }
}

#[test]
fn simple_scenario_runs_to_completion() {
    let (runner, action) = Runner::begin(scenario_of(QueryShape::Simple, 3), 2);
    assert_eq!(action, Action::Reset);
    assert_eq!(runner.stage(), Stage::Reset);
    assert!(!runner.is_over());

    let (runner, action) = runner.step(Event::ResetDone);
    assert_eq!(
        action,
        Action::InsertUsers(vec![
            NewUser { name: "User 0".to_string(), hair_color: None },
            NewUser { name: "User 1".to_string(), hair_color: None },
            NewUser { name: "User 2".to_string(), hair_color: None },
        ])
    );
    assert_eq!(runner.stage(), Stage::SeedUsers { requested: 3 });

    let (runner, action) = runner.step(Event::Inserted(3));
    assert_eq!(action, Action::RunQuery(QueryShape::Simple));
    assert_eq!(runner.stage(), Stage::Time);

    let (runner, action) = runner.step(sample(flat_rows(3), 120));
    assert_eq!(action, Action::RunQuery(QueryShape::Simple));
    assert_eq!(runner.stage(), Stage::Time);
    assert_eq!(*runner.samples(), vec![120]);

    let (runner, action) = runner.step(sample(flat_rows(3), 95));
    assert_eq!(action, Action::Finish);
    assert_eq!(runner.stage(), Stage::Done);
    assert_eq!(*runner.samples(), vec![120, 95]);
    assert!(runner.is_over());
}

#[test]
fn complex_scenario_inserts_users_then_posts() {
    let (runner, _) = Runner::begin(scenario_of(QueryShape::Complex, 4), 1);
    let (runner, action) = runner.step(Event::ResetDone);
    match action {
        Action::InsertUsers(users) => {
            assert_eq!(users.len(), 4);
            assert_eq!(users[0].hair_color, Some("black".to_string()));
            assert_eq!(users[1].hair_color, Some("brown".to_string()));
            assert_eq!(users[3].name, "User 3");
        }
        other => panic!("unexpected action {:?}", other),
    }
    let (runner, action) = runner.step(Event::Inserted(4));
    let body = Some("This is the body of my first post".to_string());
    assert_eq!(
        action,
        Action::InsertPosts(vec![
            NewPost { user_id: 1, title: "My first post".to_string(), body: body.clone() },
            NewPost { user_id: 4, title: "My first post".to_string(), body },
        ])
    );
    assert_eq!(runner.stage(), Stage::SeedPosts { requested: 2 });
    let (runner, action) = runner.step(Event::Inserted(2));
    assert_eq!(action, Action::RunQuery(QueryShape::Complex));
    let (runner, action) = runner.step(sample(joined_rows(2), 7));
    assert_eq!(action, Action::Finish);
    assert_eq!(runner.stage(), Stage::Done);
    assert_eq!(*runner.samples(), vec![7]);
}

#[test]
fn empty_scenario_skips_insertion() {
    for shape in [QueryShape::Simple, QueryShape::Complex] {
        let (runner, _) = Runner::begin(scenario_of(shape, 0), 1);
        let (runner, action) = runner.step(Event::ResetDone);
        assert_eq!(action, Action::RunQuery(shape));
        assert_eq!(runner.stage(), Stage::Time);
        let empty = match shape {
            QueryShape::Simple => flat_rows(0),
            QueryShape::Complex => joined_rows(0),
        };
        let (runner, action) = runner.step(sample(empty, 1));
        assert_eq!(action, Action::Finish);
        assert_eq!(runner.stage(), Stage::Done);
    }
}

#[test]
fn scenario_without_samples_finishes_after_seeding() {
    let (runner, action) = seeded(QueryShape::Complex, 10, 0);
    assert_eq!(action, Action::Finish);
    assert_eq!(runner.stage(), Stage::Done);
    assert!(runner.samples().is_empty());
    let (runner, _) = Runner::begin(scenario_of(QueryShape::Simple, 0), 0);
    let (runner, action) = runner.step(Event::ResetDone);
    assert_eq!(action, Action::Finish);
    assert_eq!(runner.stage(), Stage::Done);
}

#[test]
fn short_user_insert_stops_before_the_timed_loop() {
    let (runner, _) = Runner::begin(scenario_of(QueryShape::Simple, 3), 5);
    let (runner, _) = runner.step(Event::ResetDone);
    let (runner, action) = runner.step(Event::Inserted(2));
    let mismatch = BenchError::SeedMismatch { requested: 3, inserted: 2 };
    assert_eq!(action, Action::Abort(mismatch));
    assert_eq!(runner.stage(), Stage::Failed(mismatch));
    assert!(runner.is_over());
    assert!(runner.samples().is_empty());

    let later = [
        Event::ResetDone,
        Event::Inserted(3),
        sample(flat_rows(3), 10),
        Event::Rejected,
        Event::ConnectionLost,
    ];
    let mut runner = runner;
    for event in later {
        let (next, action) = runner.step(event);
        assert_eq!(action, Action::Abort(mismatch));
        assert_eq!(next.stage(), Stage::Failed(mismatch));
        assert!(next.samples().is_empty());
        runner = next;
    }
}

#[test]
fn short_post_insert_stops_before_the_timed_loop() {
    let (runner, _) = Runner::begin(scenario_of(QueryShape::Complex, 10), 5);
    let (runner, _) = runner.step(Event::ResetDone);
    let (runner, action) = runner.step(Event::Inserted(10));
    assert!(matches!(action, Action::InsertPosts(_)));
    let (runner, action) = runner.step(Event::Inserted(3));
    let mismatch = BenchError::SeedMismatch { requested: 4, inserted: 3 };
    assert_eq!(action, Action::Abort(mismatch));
    assert_eq!(runner.stage(), Stage::Failed(mismatch));
    let (runner, action) = runner.step(sample(joined_rows(5), 1));
    assert_eq!(action, Action::Abort(mismatch));
    assert!(runner.samples().is_empty());
}

#[test]
fn surplus_insert_count_is_a_mismatch_too() {
    let (runner, _) = Runner::begin(scenario_of(QueryShape::Simple, 1), 1);
    let (runner, _) = runner.step(Event::ResetDone);
    let (runner, action) = runner.step(Event::Inserted(2));
    assert_eq!(action, Action::Abort(BenchError::SeedMismatch { requested: 1, inserted: 2 }));
    assert!(runner.is_over());
}

#[test]
fn rejected_statement_is_named() {
    let (runner, _) = Runner::begin(scenario_of(QueryShape::Complex, 4), 1);
    let (failed, action) = runner.step(Event::Rejected);
    let error = BenchError::Storage { statement: Statement::Reset };
    assert_eq!(action, Action::Abort(error));
    assert_eq!(failed.stage(), Stage::Failed(error));

    let (runner, _) = Runner::begin(scenario_of(QueryShape::Complex, 4), 1);
    let (runner, _) = runner.step(Event::ResetDone);
    let (_, action) = runner.step(Event::Rejected);
    assert_eq!(action, Action::Abort(BenchError::Storage { statement: Statement::InsertUsers }));

    let (runner, _) = Runner::begin(scenario_of(QueryShape::Complex, 4), 1);
    let (runner, _) = runner.step(Event::ResetDone);
    let (runner, _) = runner.step(Event::Inserted(4));
    let (_, action) = runner.step(Event::Rejected);
    assert_eq!(action, Action::Abort(BenchError::Storage { statement: Statement::InsertPosts }));

    let (runner, _) = seeded(QueryShape::Complex, 4, 1);
    let (_, action) = runner.step(Event::Rejected);
    assert_eq!(
        action,
        Action::Abort(BenchError::Storage { statement: Statement::Query(QueryShape::Complex) })
    );

    let (runner, _) = seeded(QueryShape::Simple, 4, 1);
    let (_, action) = runner.step(Event::Rejected);
    assert_eq!(
        action,
        Action::Abort(BenchError::Storage { statement: Statement::Query(QueryShape::Simple) })
    );
}

#[test]
fn lost_connection_is_fatal_at_every_stage() {
    let (runner, _) = Runner::begin(scenario_of(QueryShape::Simple, 2), 1);
    let (failed, action) = runner.step(Event::ConnectionLost);
    assert_eq!(action, Action::Abort(BenchError::Connection));
    assert_eq!(failed.stage(), Stage::Failed(BenchError::Connection));

    let (runner, _) = Runner::begin(scenario_of(QueryShape::Simple, 2), 1);
    let (runner, _) = runner.step(Event::ResetDone);
    let (_, action) = runner.step(Event::ConnectionLost);
    assert_eq!(action, Action::Abort(BenchError::Connection));

    let (runner, _) = seeded(QueryShape::Simple, 2, 1);
    let (failed, action) = runner.step(Event::ConnectionLost);
    assert_eq!(action, Action::Abort(BenchError::Connection));
    assert!(failed.samples().is_empty());
}

#[test]
fn wrong_sample_stops_the_run_and_is_not_recorded() {
    let (runner, _) = seeded(QueryShape::Simple, 3, 4);
    let (runner, action) = runner.step(sample(flat_rows(3), 50));
    assert_eq!(action, Action::RunQuery(QueryShape::Simple));
    let (runner, action) = runner.step(sample(flat_rows(2), 60));
    let error = BenchError::Assertion {
        expected_shape: QueryShape::Simple,
        expected: 3,
        observed_shape: QueryShape::Simple,
        observed: 2,
    };
    assert_eq!(action, Action::Abort(error));
    assert_eq!(runner.stage(), Stage::Failed(error));
    assert_eq!(*runner.samples(), vec![50]);
    let (runner, action) = runner.step(sample(flat_rows(3), 70));
    assert_eq!(action, Action::Abort(error));
    assert_eq!(*runner.samples(), vec![50]);
}

#[test]
fn sample_of_the_wrong_shape_stops_the_run() {
    let (runner, _) = seeded(QueryShape::Complex, 2, 1);
    let (runner, action) = runner.step(sample(flat_rows(1), 9));
    let error = BenchError::Assertion {
        expected_shape: QueryShape::Complex,
        expected: 1,
        observed_shape: QueryShape::Simple,
        observed: 1,
    };
    assert_eq!(action, Action::Abort(error));
    assert!(runner.samples().is_empty());
}

#[test]
fn outcome_that_does_not_answer_the_action_is_fatal() {
    let (runner, _) = Runner::begin(scenario_of(QueryShape::Simple, 2), 1);
    let (failed, action) = runner.step(Event::Inserted(2));
    assert_eq!(action, Action::Abort(BenchError::Protocol));
    assert_eq!(failed.stage(), Stage::Failed(BenchError::Protocol));

    let (runner, _) = Runner::begin(scenario_of(QueryShape::Simple, 2), 1);
    let (_, action) = runner.step(sample(flat_rows(2), 1));
    assert_eq!(action, Action::Abort(BenchError::Protocol));

    let (runner, _) = Runner::begin(scenario_of(QueryShape::Simple, 2), 1);
    let (runner, _) = runner.step(Event::ResetDone);
    let (_, action) = runner.step(Event::ResetDone);
    assert_eq!(action, Action::Abort(BenchError::Protocol));

    let (runner, _) = Runner::begin(scenario_of(QueryShape::Simple, 2), 1);
    let (runner, _) = runner.step(Event::ResetDone);
    let (_, action) = runner.step(sample(flat_rows(2), 1));
    assert_eq!(action, Action::Abort(BenchError::Protocol));

    let (runner, _) = seeded(QueryShape::Simple, 2, 1);
    let (_, action) = runner.step(Event::Inserted(2));
    assert_eq!(action, Action::Abort(BenchError::Protocol));

    let (runner, _) = seeded(QueryShape::Simple, 2, 1);
    let (_, action) = runner.step(Event::ResetDone);
    assert_eq!(action, Action::Abort(BenchError::Protocol));
}

#[test]
fn finished_scenario_stays_finished() {
    let (runner, _) = seeded(QueryShape::Simple, 1, 1);
    let (runner, action) = runner.step(sample(flat_rows(1), 11));
    assert_eq!(action, Action::Finish);
    let mut runner = runner;
    for event in [Event::ResetDone, Event::Inserted(1), sample(flat_rows(0), 3), Event::Rejected, Event::ConnectionLost] {
        let (next, action) = runner.step(event);
        assert_eq!(action, Action::Finish);
        assert_eq!(next.stage(), Stage::Done);
        assert_eq!(*next.samples(), vec![11]);
        runner = next;
    }
}

#[test]
fn records_exactly_the_wanted_samples() {
    for wanted in [1usize, 2, 5, 17] {
        let (mut runner, mut action) = seeded(QueryShape::Complex, 10, wanted);
        let mut asked = 0u64;
        while action == Action::RunQuery(QueryShape::Complex) {
            asked += 1;
            let next = runner.step(sample(joined_rows(5), asked * 10));
            runner = next.0;
            action = next.1;
        }
        assert_eq!(action, Action::Finish);
        assert_eq!(asked as usize, wanted);
        let expected: Vec<u64> = (1..=wanted as u64).map(|k| k * 10).collect();
        assert_eq!(*runner.samples(), expected);
    }
}
