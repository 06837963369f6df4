//! The state machine of one scenario: reset, seed, then timed samples that are
//! each validated, until the wanted number of samples is recorded.
//!
//! The runner decides; the driver performs. The driver carries out each
//! [`Action`] against storage and reports what happened as an [`Event`].

use crate::dataset::{
    generate, posts_of, seed_batch, users_of, views, NewPost, NewPostView, NewUser, NewUserView,
};
use crate::error::BenchError;
use crate::oracle::{validate, verdict, QueryResult, QueryResultView};
use crate::scenario::{QueryShape, Scenario, Statement};
use vstd::prelude::*;

verus! {

/// Where a scenario stands: the outcome the runner is waiting for, or how it ended.
#[derive(Clone, Copy, Debug, PartialEq, Eq, Structural)]
pub enum Stage {
    /// Waiting for the tables to be truncated and their identities restarted.
    Reset,
    /// Waiting for the insert of `requested` users.
    SeedUsers { requested: usize },
    /// Waiting for the insert of `requested` posts.
    SeedPosts { requested: usize },
    /// Waiting for one timed execution of the query.
    Time,
    /// All wanted samples were recorded.
    Done,
    /// The scenario stopped on a fatal error.
    Failed(BenchError),
}

/// What the driver reports back after carrying out an action.
#[derive(Clone, Debug, PartialEq, Eq)]
pub enum Event {
    /// Both tables are empty and their identities restart at 1.
    ResetDone,
    /// The bulk insert went through; storage reports this many inserted rows.
    Inserted(usize),
    /// The query ran; its rows and the wall-clock time it took.
    Sample { result: QueryResult, elapsed_nanos: u64 },
    /// Storage rejected the statement.
    Rejected,
    /// The connection could not be opened or was lost.
    ConnectionLost,
}

/// What the driver has to do next.
#[derive(Clone, Debug, PartialEq, Eq)]
pub enum Action {
    /// Truncate both tables and restart their identities.
    Reset,
    /// Insert these users in one statement and report the inserted count.
    InsertUsers(Vec<NewUser>),
    /// Insert these posts in one statement and report the inserted count.
    InsertPosts(Vec<NewPost>),
    /// Run the query of this shape once, timed, and report rows and time.
    RunQuery(QueryShape),
    /// The scenario is complete; its samples can be reported.
    Finish,
    /// The scenario failed; stop with this error.
    Abort(BenchError),
}

/// What an event is, over the views of the rows it carries.
#[verifier::ext_equal]
pub enum EventView {
    ResetDone,
    Inserted(usize),
    Sample { result: QueryResultView, elapsed_nanos: u64 },
    Rejected,
    ConnectionLost,
}

/// What an action is, over the views of the rows it hands over.
#[verifier::ext_equal]
pub enum ActionView {
    Reset,
    InsertUsers(Seq<NewUserView>),
    InsertPosts(Seq<NewPostView>),
    RunQuery(QueryShape),
    Finish,
    Abort(BenchError),
}

impl View for Event {
    type V = EventView;

    open spec fn view(&self) -> EventView {
        match self {
            Event::ResetDone => EventView::ResetDone,
            Event::Inserted(count) => EventView::Inserted(*count),
            Event::Sample { result, elapsed_nanos } => EventView::Sample {
                result: result@,
                elapsed_nanos: *elapsed_nanos,
            },
            Event::Rejected => EventView::Rejected,
            Event::ConnectionLost => EventView::ConnectionLost,
        }
    }
}

impl View for Action {
    type V = ActionView;

    open spec fn view(&self) -> ActionView {
        match self {
            Action::Reset => ActionView::Reset,
            Action::InsertUsers(users) => ActionView::InsertUsers(views(users@)),
            Action::InsertPosts(posts) => ActionView::InsertPosts(views(posts@)),
            Action::RunQuery(shape) => ActionView::RunQuery(*shape),
            Action::Finish => ActionView::Finish,
            Action::Abort(error) => ActionView::Abort(*error),
        }
    }
}

/// The runner of one scenario.
#[derive(Debug)]
pub struct Runner {
    scenario: Scenario,
    wanted: usize,
    stage: Stage,
    users: Vec<NewUser>,
    posts: Vec<NewPost>,
    samples: Vec<u64>,
}

/// The state of a runner: its scenario, the number of samples wanted, its stage,
/// the seed data not yet handed out, and the times of the samples recorded so far.
#[verifier::ext_equal]
pub struct RunnerView {
    pub scenario: Scenario,
    pub wanted: nat,
    pub stage: Stage,
    pub users: Seq<NewUserView>,
    pub posts: Seq<NewPostView>,
    pub samples: Seq<u64>,
}

impl View for Runner {
    type V = RunnerView;

    closed spec fn view(&self) -> RunnerView {
        RunnerView {
            scenario: self.scenario,
            wanted: self.wanted as nat,
            stage: self.stage,
            users: views(self.users@),
            posts: views(self.posts@),
            samples: self.samples@,
        }
    }
}

/// The state in which a scenario starts: waiting for the reset, holding its
/// whole seed batch, with no sample recorded.
pub open spec fn start(scenario: Scenario, wanted: nat) -> RunnerView {
    RunnerView {
        scenario,
        wanted,
        stage: Stage::Reset,
        users: users_of(seed_batch(scenario.shape, scenario.num_rows as nat)),
        posts: posts_of(seed_batch(scenario.shape, scenario.num_rows as nat)),
        samples: Seq::empty(),
    }
}

/// The statement whose outcome a stage waits for.
pub open spec fn pending_statement(stage: Stage, shape: QueryShape) -> Statement {
    match stage {
        Stage::Reset => Statement::Reset,
        Stage::SeedUsers { .. } => Statement::InsertUsers,
        Stage::SeedPosts { .. } => Statement::InsertPosts,
        _ => Statement::Query(shape),
    }
}

/// Stops the scenario with `error`.
pub open spec fn fail(r: RunnerView, error: BenchError) -> (RunnerView, ActionView) {
    (RunnerView { stage: Stage::Failed(error), ..r }, ActionView::Abort(error))
}

/// Enters the timed loop, or finishes where no further sample is wanted.
pub open spec fn enter_timing(r: RunnerView) -> (RunnerView, ActionView) {
    if r.samples.len() >= r.wanted {
        (RunnerView { stage: Stage::Done, ..r }, ActionView::Finish)
    } else {
        (RunnerView { stage: Stage::Time, ..r }, ActionView::RunQuery(r.scenario.shape))
    }
}

/// Hands out the posts for insertion; with none to insert, goes on to timing.
pub open spec fn enter_posts(r: RunnerView) -> (RunnerView, ActionView) {
    if r.posts.len() == 0 {
        enter_timing(r)
    } else {
        (
            RunnerView {
                stage: Stage::SeedPosts { requested: r.posts.len() as usize },
                posts: Seq::empty(),
                ..r
            },
            ActionView::InsertPosts(r.posts),
        )
    }
}

/// Hands out the users for insertion; with none to insert, goes on to the posts.
pub open spec fn enter_users(r: RunnerView) -> (RunnerView, ActionView) {
    if r.users.len() == 0 {
        enter_posts(r)
    } else {
        (
            RunnerView {
                stage: Stage::SeedUsers { requested: r.users.len() as usize },
                users: Seq::empty(),
                ..r
            },
            ActionView::InsertUsers(r.users),
        )
    }
}

/// The transition function: the next state and the next action, for every
/// state and every event.
///
/// - A finished or failed scenario stays as it is and repeats its last word.
/// - A lost connection or a rejected statement is fatal at every stage.
/// - After the reset the users are inserted, then the posts; an empty batch
///   is not inserted at all.
/// - An insert that reports another count than the batch holds is fatal.
/// - Each sample is validated before its time is recorded; a sample that
///   fails validation is fatal and is not recorded.
/// - An event that does not answer the pending action is fatal.
pub open spec fn step_model(r: RunnerView, event: EventView) -> (RunnerView, ActionView) {
    match r.stage {
        Stage::Done => (r, ActionView::Finish),
        Stage::Failed(error) => (r, ActionView::Abort(error)),
        _ => match event {
            EventView::ConnectionLost => fail(r, BenchError::Connection),
            EventView::Rejected => fail(
                r,
                BenchError::Storage { statement: pending_statement(r.stage, r.scenario.shape) },
            ),
            EventView::ResetDone => if r.stage is Reset {
                enter_users(r)
            } else {
                fail(r, BenchError::Protocol)
            },
            EventView::Inserted(inserted) => match r.stage {
                Stage::SeedUsers { requested } => if inserted == requested {
                    enter_posts(r)
                } else {
                    fail(r, BenchError::SeedMismatch { requested, inserted })
                },
                Stage::SeedPosts { requested } => if inserted == requested {
                    enter_timing(r)
                } else {
                    fail(r, BenchError::SeedMismatch { requested, inserted })
                },
                _ => fail(r, BenchError::Protocol),
            },
            EventView::Sample { result, elapsed_nanos } => if r.stage is Time {
                match verdict(
                    r.scenario.shape,
                    r.scenario.num_rows,
                    result.shape(),
                    result.len() as usize,
                ) {
                    Ok(_) => enter_timing(
                        RunnerView { samples: r.samples.push(elapsed_nanos), ..r },
                    ),
                    Err(error) => fail(r, error),
                }
            } else {
                fail(r, BenchError::Protocol)
            },
        },
    }
}

impl Runner {
    /// Starts a scenario that is to record `wanted` samples. The first action
    /// is always the reset.
    pub fn begin(scenario: Scenario, wanted: usize) -> (out: (Runner, Action))
        requires
            scenario.wf(),
        ensures
            out.0@ == start(scenario, wanted as nat),
            out.1@ == ActionView::Reset,
    {
        let batch = generate(scenario.num_rows, scenario.shape);
        let runner = Runner {
            scenario,
            wanted,
            stage: Stage::Reset,
            users: batch.users(),
            posts: batch.posts(),
            samples: Vec::new(),
        };
        (runner, Action::Reset)
    }

    /// The scenario being run.
    pub fn scenario(&self) -> (scenario: Scenario)
        ensures
            scenario == self@.scenario,
    {
        self.scenario
    }

    /// The current stage.
    pub fn stage(&self) -> (stage: Stage)
        ensures
            stage == self@.stage,
    {
        self.stage
    }

    /// Number of samples the scenario is to record.
    pub fn wanted(&self) -> (wanted: usize)
        ensures
            wanted == self@.wanted,
    {
        self.wanted
    }

    /// The times, in nanoseconds, of the samples recorded so far.
    pub fn samples(&self) -> (samples: &Vec<u64>)
        ensures
            samples@ == self@.samples,
    {
        &self.samples
    }

    /// Whether the scenario has ended, in success or failure.
    pub fn is_over(&self) -> (over: bool)
        ensures
            over == (self@.stage is Done || self@.stage is Failed),
    {
        match self.stage {
            Stage::Done => true,
            Stage::Failed(_) => true,
            _ => false,
        }
    }

    fn fail(self, error: BenchError) -> (out: (Runner, Action))
        ensures
            (out.0@, out.1@) == fail(self@, error),
    {
        (Runner { stage: Stage::Failed(error), ..self }, Action::Abort(error))
    }

    fn enter_timing(self) -> (out: (Runner, Action))
        ensures
            (out.0@, out.1@) == enter_timing(self@),
    {
        if self.samples.len() >= self.wanted {
            (Runner { stage: Stage::Done, ..self }, Action::Finish)
        } else {
            let shape = self.scenario.shape;
            (Runner { stage: Stage::Time, ..self }, Action::RunQuery(shape))
        }
    }

    fn enter_posts(self) -> (out: (Runner, Action))
        ensures
            (out.0@, out.1@) == enter_posts(self@),
    {
        if self.posts.len() == 0 {
            self.enter_timing()
        } else {
            let Runner { scenario, wanted, stage: _, users, posts, samples } = self;
            let requested: usize = posts.len();
            let next = Runner {
                scenario,
                wanted,
                stage: Stage::SeedPosts { requested },
                users,
                posts: Vec::new(),
                samples,
            };
            assert(next@.posts =~= Seq::empty());
            (next, Action::InsertPosts(posts))
        }
    }

    fn enter_users(self) -> (out: (Runner, Action))
        ensures
            (out.0@, out.1@) == enter_users(self@),
    {
        if self.users.len() == 0 {
            self.enter_posts()
        } else {
            let Runner { scenario, wanted, stage: _, users, posts, samples } = self;
            let requested: usize = users.len();
            let next = Runner {
                scenario,
                wanted,
                stage: Stage::SeedUsers { requested },
                users: Vec::new(),
                posts,
                samples,
            };
            assert(next@.users =~= Seq::empty());
            (next, Action::InsertUsers(users))
        }
    }

    /// Takes the outcome of the pending action and decides what comes next.
    pub fn step(self, event: Event) -> (out: (Runner, Action))
        ensures
            (out.0@, out.1@) == step_model(self@, event@),
    {
        match self.stage {
            Stage::Done => (self, Action::Finish),
            Stage::Failed(error) => (self, Action::Abort(error)),
            Stage::Reset => match event {
                Event::ConnectionLost => self.fail(BenchError::Connection),
                Event::Rejected => self.fail(BenchError::Storage { statement: Statement::Reset }),
                Event::ResetDone => self.enter_users(),
                _ => self.fail(BenchError::Protocol),
            },
            Stage::SeedUsers { requested } => match event {
                Event::ConnectionLost => self.fail(BenchError::Connection),
                Event::Rejected => self.fail(
                    BenchError::Storage { statement: Statement::InsertUsers },
                ),
                Event::Inserted(inserted) => if inserted == requested {
                    self.enter_posts()
                } else {
                    self.fail(BenchError::SeedMismatch { requested, inserted })
                },
                _ => self.fail(BenchError::Protocol),
            },
            Stage::SeedPosts { requested } => match event {
                Event::ConnectionLost => self.fail(BenchError::Connection),
                Event::Rejected => self.fail(
                    BenchError::Storage { statement: Statement::InsertPosts },
                ),
                Event::Inserted(inserted) => if inserted == requested {
                    self.enter_timing()
                } else {
                    self.fail(BenchError::SeedMismatch { requested, inserted })
                },
                _ => self.fail(BenchError::Protocol),
            },
            Stage::Time => match event {
                Event::ConnectionLost => self.fail(BenchError::Connection),
                Event::Rejected => {
                    let shape = self.scenario.shape;
                    self.fail(BenchError::Storage { statement: Statement::Query(shape) })
                },
                Event::Sample { result, elapsed_nanos } => {
                    match validate(self.scenario.shape, self.scenario.num_rows, &result) {
                        Ok(_) => {
                            let Runner { scenario, wanted, stage, users, posts, mut samples } = self;
                            samples.push(elapsed_nanos);
                            Runner { scenario, wanted, stage, users, posts, samples }.enter_timing()
                        },
                        Err(error) => self.fail(error),
                    }
                },
                _ => self.fail(BenchError::Protocol),
            },
        }
    }
}

} // verus!
