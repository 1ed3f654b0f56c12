//! The deterministic test double: instead of a store, an ordered script of
//! (expected operation, canned reply) pairs. Each incoming request consumes
//! exactly one entry in order; a request whose kind does not match the next
//! entry — or for which nothing was scripted — is a test-authoring bug and
//! is reported loudly rather than answered with wrong data.
//!
//! The queue discipline is verified here; the channel plumbing that carries
//! requests to it lives in the unverified runtime shell.

use vstd::prelude::*;

use crate::entity::ActorEntity;
use crate::error::FrameworkError;

verus! {

/// The operation kind of a request, used to match an incoming request
/// against the next scripted expectation.
#[derive(Debug, Clone, Copy, PartialEq, Eq, Structural)]
pub enum RequestKind {
    Create,
    Get,
    Update,
    Delete,
    Action,
}

/// One scripted entry: which operation is expected next, and the canned
/// reply to answer it with. The baseline double matches on operation kind
/// only; the ids carried by the entries are kept for stricter doubles and
/// for diagnostics.
pub enum Expectation<T: ActorEntity> {
    Get { id: T::Id, response: Result<Option<T>, FrameworkError<T::Id, T::Error>> },
    Create { response: Result<T::Id, FrameworkError<T::Id, T::Error>> },
    Update { id: T::Id, response: Result<T, FrameworkError<T::Id, T::Error>> },
    Delete { id: T::Id, response: Result<(), FrameworkError<T::Id, T::Error>> },
    Action { id: T::Id, response: Result<T::ActionResult, FrameworkError<T::Id, T::Error>> },
}

impl<T: ActorEntity> Expectation<T> {
    /// The operation kind this entry expects.
    pub open spec fn kind_spec(&self) -> RequestKind {
        match *self {
            Expectation::Get { id, response } => RequestKind::Get,
            Expectation::Create { response } => RequestKind::Create,
            Expectation::Update { id, response } => RequestKind::Update,
            Expectation::Delete { id, response } => RequestKind::Delete,
            Expectation::Action { id, response } => RequestKind::Action,
        }
    }

    /// The operation kind this entry expects.
    pub fn kind(&self) -> (r: RequestKind)
        ensures
            r == self.kind_spec(),
    {
        match self {
            Expectation::Get { .. } => RequestKind::Get,
            Expectation::Create { .. } => RequestKind::Create,
            Expectation::Update { .. } => RequestKind::Update,
            Expectation::Delete { .. } => RequestKind::Delete,
            Expectation::Action { .. } => RequestKind::Action,
        }
    }
}

/// Why the double refuses to answer: these are fatal to a test run, never
/// recovered from.
#[derive(Debug, Clone, Copy, PartialEq, Eq, Structural)]
pub enum MockFailure {
    /// A request arrived but nothing was scripted for it.
    UnexpectedRequest,
    /// The next scripted entry expects a different operation kind.
    KindMismatch,
}

/// The expectation queue of the test double: entries are appended by the
/// `expect_*` builders during test setup and consumed in order, one per
/// incoming request.
pub struct MockScript<T: ActorEntity> {
    entries: Vec<Expectation<T>>,
}

impl<T: ActorEntity> View for MockScript<T> {
    type V = Seq<Expectation<T>>;

    closed spec fn view(&self) -> Seq<Expectation<T>> {
        self.entries@
    }
}

impl<T: ActorEntity> MockScript<T> {
    /// An empty script: any request would be unexpected.
    pub fn new() -> (r: Self)
        ensures
            r@ == Seq::<Expectation<T>>::empty(),
    {
        MockScript { entries: Vec::new() }
    }

    /// Starts scripting an expected `get` for the given id; the entry is
    /// appended once a reply is chosen on the returned builder.
    pub fn expect_get(self, id: T::Id) -> (r: GetExpectationBuilder<T>)
        ensures
            r.script_spec() == self@,
            r.id_spec() == id,
    {
        GetExpectationBuilder { script: self, id }
    }

    /// Starts scripting an expected `create`.
    pub fn expect_create(self) -> (r: CreateExpectationBuilder<T>)
        ensures
            r.script_spec() == self@,
    {
        CreateExpectationBuilder { script: self }
    }

    /// Starts scripting an expected `action` against the given id.
    pub fn expect_action(self, id: T::Id) -> (r: ActionExpectationBuilder<T>)
        ensures
            r.script_spec() == self@,
            r.id_spec() == id,
    {
        ActionExpectationBuilder { script: self, id }
    }

    /// Answers one incoming request of the given kind: pops the next
    /// scripted entry if its kind matches, and reports a test-authoring bug
    /// otherwise — an empty queue or a kind mismatch never answers.
    pub fn respond(&mut self, kind: RequestKind) -> (r: Result<Expectation<T>, MockFailure>)
        ensures
            old(self)@.len() == 0 ==> r == Err::<Expectation<T>, MockFailure>(
                MockFailure::UnexpectedRequest,
            ) && final(self)@ == old(self)@,
            old(self)@.len() > 0 && old(self)@[0].kind_spec() != kind ==> r == Err::<
                Expectation<T>,
                MockFailure,
            >(MockFailure::KindMismatch) && final(self)@ == old(self)@,
            old(self)@.len() > 0 && old(self)@[0].kind_spec() == kind ==> r == Ok::<
                Expectation<T>,
                MockFailure,
            >(old(self)@[0]) && final(self)@ == old(self)@.drop_first(),
    {
        if self.entries.len() == 0 {
            Err(MockFailure::UnexpectedRequest)
        } else if self.entries[0].kind() != kind {
            Err(MockFailure::KindMismatch)
        } else {
            let entry = self.entries.remove(0);
            proof {
                assert(self.entries@ =~= old(self)@.drop_first());
            }
            Ok(entry)
        }
    }

    /// Whether every scripted expectation has been consumed; a test that
    /// ends with unmet expectations must fail.
    pub fn verify(&self) -> (r: bool)
        ensures
            r == (self@.len() == 0),
    {
        self.entries.len() == 0
    }

    /// How many scripted expectations have not been consumed yet.
    pub fn remaining(&self) -> (r: usize)
        ensures
            r == self@.len(),
    {
        self.entries.len()
    }
}

/// Builder for `get` expectations.
pub struct GetExpectationBuilder<T: ActorEntity> {
    script: MockScript<T>,
    id: T::Id,
}

impl<T: ActorEntity> GetExpectationBuilder<T> {
    /// The script this builder extends.
    pub closed spec fn script_spec(&self) -> Seq<Expectation<T>> {
        self.script@
    }

    /// The id the scripted `get` is expected to ask for.
    pub closed spec fn id_spec(&self) -> T::Id {
        self.id
    }

    /// Scripts the `get` to answer the given entity, or absence.
    pub fn return_ok(self, value: Option<T>) -> (r: MockScript<T>)
        ensures
            r@ == self.script_spec().push(
                Expectation::Get { id: self.id_spec(), response: Ok(value) },
            ),
    {
        let GetExpectationBuilder { mut script, id } = self;
        script.entries.push(Expectation::Get { id, response: Ok(value) });
        script
    }

    /// Scripts the `get` to answer the given error.
    pub fn return_err(self, error: FrameworkError<T::Id, T::Error>) -> (r: MockScript<T>)
        ensures
            r@ == self.script_spec().push(
                Expectation::Get { id: self.id_spec(), response: Err(error) },
            ),
    {
        let GetExpectationBuilder { mut script, id } = self;
        script.entries.push(Expectation::Get { id, response: Err(error) });
        script
    }
}

/// Builder for `create` expectations.
pub struct CreateExpectationBuilder<T: ActorEntity> {
    script: MockScript<T>,
}

impl<T: ActorEntity> CreateExpectationBuilder<T> {
    /// The script this builder extends.
    pub closed spec fn script_spec(&self) -> Seq<Expectation<T>> {
        self.script@
    }

    /// Scripts the `create` to answer the given id.
    pub fn return_ok(self, id: T::Id) -> (r: MockScript<T>)
        ensures
            r@ == self.script_spec().push(Expectation::Create { response: Ok(id) }),
    {
        let CreateExpectationBuilder { mut script } = self;
        script.entries.push(Expectation::Create { response: Ok(id) });
        script
    }

    /// Scripts the `create` to answer the given error.
    pub fn return_err(self, error: FrameworkError<T::Id, T::Error>) -> (r: MockScript<T>)
        ensures
            r@ == self.script_spec().push(Expectation::Create { response: Err(error) }),
    {
        let CreateExpectationBuilder { mut script } = self;
        script.entries.push(Expectation::Create { response: Err(error) });
        script
    }
}

/// Builder for `action` expectations.
pub struct ActionExpectationBuilder<T: ActorEntity> {
    script: MockScript<T>,
    id: T::Id,
}

impl<T: ActorEntity> ActionExpectationBuilder<T> {
    /// The script this builder extends.
    pub closed spec fn script_spec(&self) -> Seq<Expectation<T>> {
        self.script@
    }

    /// The id the scripted `action` is expected to target.
    pub closed spec fn id_spec(&self) -> T::Id {
        self.id
    }

    /// Scripts the `action` to answer the given result.
    pub fn return_ok(self, result: T::ActionResult) -> (r: MockScript<T>)
        ensures
            r@ == self.script_spec().push(
                Expectation::Action { id: self.id_spec(), response: Ok(result) },
            ),
    {
        let ActionExpectationBuilder { mut script, id } = self;
        script.entries.push(Expectation::Action { id, response: Ok(result) });
        script
    }

    /// Scripts the `action` to answer the given error.
    pub fn return_err(self, error: FrameworkError<T::Id, T::Error>) -> (r: MockScript<T>)
        ensures
            r@ == self.script_spec().push(
                Expectation::Action { id: self.id_spec(), response: Err(error) },
            ),
    {
        let ActionExpectationBuilder { mut script, id } = self;
        script.entries.push(Expectation::Action { id, response: Err(error) });
        script
    }
}

} // verus!
