//! The publish session: for each broker in order, create a client, connect, publish
//! each message, disconnect. The first failure ends the request.
//!
//! The session decides and the caller acts: `step` hands out the next action, the caller
//! performs it against the broker and reports back whether it succeeded.
use vstd::prelude::*;

use crate::broker_url::BrokerUrl;
use crate::connect_info::Credentials;
use crate::error::Error;
use crate::publish::{brokers_of, messages_of, payload_bytes, reversed, Broker, Message, PublishRequest};

verus! {

/// One broker operation of a publish request.
#[derive(PartialEq, Eq, Debug)]
pub enum Operation {
    CreateClient { url: BrokerUrl },
    Connect { credentials: Option<Credentials> },
    Publish { message: Message },
    Disconnect,
}

/// The kind of the operation a session waits on.
#[derive(Clone, Copy, PartialEq, Eq, Debug, Structural)]
pub enum Stage {
    CreatingClient,
    Connecting,
    Publishing,
    Disconnecting,
}

/// What the caller must do next.
#[derive(PartialEq, Eq, Debug)]
pub enum PublishAction {
    /// Create a broker client bound to this URL.
    CreateClient { url: BrokerUrl },
    /// Connect, with these credentials or anonymously.
    Connect { credentials: Option<Credentials> },
    /// Publish these bytes.
    Publish { topic: String, payload: Vec<u8>, qos: i32 },
    /// Disconnect the client.
    Disconnect,
    /// The request is over, with this result.
    Finish(Result<(), Error>),
}

/// A step of the session in the abstract: an operation handed out, or the end.
pub enum Step {
    Issue(Operation),
    Finish(Result<(), Error>),
}

pub open spec fn stage_of(op: Operation) -> Stage {
    match op {
        Operation::CreateClient { .. } => Stage::CreatingClient,
        Operation::Connect { .. } => Stage::Connecting,
        Operation::Publish { .. } => Stage::Publishing,
        Operation::Disconnect => Stage::Disconnecting,
    }
}

/// The failure reported when an operation of this kind fails.
pub open spec fn failure_of(stage: Stage) -> Error {
    match stage {
        Stage::CreatingClient => Error::ClientInformation,
        Stage::Connecting => Error::BrokerConnection,
        Stage::Publishing => Error::Publish,
        Stage::Disconnecting => Error::Disconnect,
    }
}

/// The operations for one broker: create, connect, publish each message, disconnect.
pub open spec fn broker_plan(b: Broker) -> Seq<Operation> {
    seq![Operation::CreateClient { url: b.url }, Operation::Connect { credentials: b.credentials }]
        + messages_of(b.messages).map_values(|m: Message| Operation::Publish { message: m })
        + seq![Operation::Disconnect]
}

/// The operations for all brokers, one broker after another.
pub open spec fn plan_of(brokers: Seq<Broker>) -> Seq<Operation>
    decreases brokers.len(),
{
    if brokers.len() == 0 {
        Seq::empty()
    } else {
        plan_of(brokers.drop_last()) + broker_plan(brokers.last())
    }
}

/// One step of the session. A finished session stays finished. A failed operation
/// ends it with that operation's failure. Otherwise the next operation is handed out,
/// unless it is a message whose payload cannot be decoded, which ends the request; with
/// none left, the request has succeeded.
pub open spec fn publish_next(
    remaining: Seq<Operation>,
    awaiting: Option<Stage>,
    outcome: Option<Result<(), Error>>,
    succeeded: bool,
) -> (Seq<Operation>, Option<Stage>, Option<Result<(), Error>>, Step) {
    if outcome is Some {
        (remaining, awaiting, outcome, Step::Finish(outcome->0))
    } else if awaiting is Some && !succeeded {
        let e = failure_of(awaiting->0);
        (remaining, None, Some(Err(e)), Step::Finish(Err(e)))
    } else if remaining.len() == 0 {
        (remaining, None, Some(Ok(())), Step::Finish(Ok(())))
    } else {
        let op = remaining[0];
        let rest = remaining.drop_first();
        if op is Publish && payload_bytes(op->Publish_message.payload) is None {
            (rest, None, Some(Err(Error::Payload)), Step::Finish(Err(Error::Payload)))
        } else {
            (rest, Some(stage_of(op)), None, Step::Issue(op))
        }
    }
}

/// Whether an action carries out a step: a message is published as its decoded bytes.
pub open spec fn action_matches(a: PublishAction, s: Step) -> bool {
    match s {
        Step::Issue(Operation::CreateClient { url }) => a == PublishAction::CreateClient { url },
        Step::Issue(Operation::Connect { credentials }) => a == PublishAction::Connect { credentials },
        Step::Issue(Operation::Publish { message }) => match a {
            PublishAction::Publish { topic, payload, qos } => {
                &&& topic == message.topic
                &&& qos == message.qos
                &&& payload_bytes(message.payload) == Some(payload@)
            },
            _ => false,
        },
        Step::Issue(Operation::Disconnect) => a == PublishAction::Disconnect,
        Step::Finish(r) => a == PublishAction::Finish(r),
    }
}

/// The operations in the opposite order.
pub open spec fn reverse_of(s: Seq<Operation>) -> Seq<Operation> {
    Seq::new(s.len(), |j: int| s[s.len() - 1 - j])
}

/// A publish request in progress.
pub struct PublishSession {
    /// The operations not yet handed out, the next one last.
    pending: Vec<Operation>,
    awaiting: Option<Stage>,
    outcome: Option<Result<(), Error>>,
}

impl PublishSession {
    /// The operations not yet handed out, in order.
    pub closed spec fn remaining(&self) -> Seq<Operation> {
        reverse_of(self.pending@)
    }

    /// The kind of the operation whose result the session waits for.
    pub closed spec fn awaiting(&self) -> Option<Stage> {
        self.awaiting
    }

    /// How the request ended, once it has.
    pub closed spec fn outcome(&self) -> Option<Result<(), Error>> {
        self.outcome
    }

    /// A session that will carry out every operation of the request, in order.
    pub fn new(request: PublishRequest) -> (s: PublishSession)
        ensures
            s.remaining() == plan_of(brokers_of(request)),
            s.awaiting() is None,
            s.outcome() is None,
    {
        let ghost brokers = brokers_of(request);
        let mut ops: Vec<Operation> = Vec::new();
        let mut rest = reversed(request.into_brokers());
        while rest.len() > 0
            invariant
                rest@.len() <= brokers.len(),
                forall|j: int| 0 <= j < rest@.len() ==> rest@[j] == brokers[brokers.len() - 1 - j],
                ops@ == plan_of(brokers.take(brokers.len() - rest@.len())),
            decreases rest@.len(),
        {
            let ghost k = brokers.len() - rest@.len();
            if let Some(b) = rest.pop() {
                assert(b == brokers[k]);
                assert(brokers.take(k + 1).drop_last() =~= brokers.take(k));
                let ghost before = ops@;
                let Broker { url, credentials, messages } = b;
                let ghost ms = messages_of(messages);
                ops.push(Operation::CreateClient { url });
                ops.push(Operation::Connect { credentials });
                let mut queue = reversed(messages.into_messages());
                while queue.len() > 0
                    invariant
                        queue@.len() <= ms.len(),
                        forall|j: int| 0 <= j < queue@.len() ==> queue@[j] == ms[ms.len() - 1 - j],
                        ops@ == before + seq![Operation::CreateClient { url: b.url }, Operation::Connect { credentials: b.credentials }]
                            + ms.take(ms.len() - queue@.len()).map_values(|m: Message| Operation::Publish { message: m }),
                    decreases queue@.len(),
                {
                    let ghost i = ms.len() - queue@.len();
                    if let Some(m) = queue.pop() {
                        assert(m == ms[i]);
                        ops.push(Operation::Publish { message: m });
                        assert(ms.take(i + 1).map_values(|m: Message| Operation::Publish { message: m })
                            =~= ms.take(i).map_values(|m: Message| Operation::Publish { message: m }).push(Operation::Publish { message: ms[i] }));
                    }
                }
                assert(ms.take(ms.len() as int) =~= ms);
                ops.push(Operation::Disconnect);
                assert(ops@ =~= plan_of(brokers.take(k)) + broker_plan(brokers[k]));
            }
        }
        assert(brokers.take(brokers.len() as int) =~= brokers);
        let pending = reversed(ops);
        let s = PublishSession { pending, awaiting: None, outcome: None };
        assert(s.remaining() =~= plan_of(brokers));
        s
    }

    /// Hands out the next action. `succeeded` reports how the action handed out last
    /// went; on the first call it is not read.
    pub fn step(&mut self, succeeded: bool) -> (a: PublishAction)
        ensures
            ({
                let (remaining, awaiting, outcome, s) = publish_next(
                    old(self).remaining(),
                    old(self).awaiting(),
                    old(self).outcome(),
                    succeeded,
                );
                &&& final(self).remaining() == remaining
                &&& final(self).awaiting() == awaiting
                &&& final(self).outcome() == outcome
                &&& action_matches(a, s)
            }),
    {
        if let Some(o) = self.outcome {
            return PublishAction::Finish(o);
        }
        if let Some(stage) = self.awaiting {
            if !succeeded {
                let e = match stage {
                    Stage::CreatingClient => Error::ClientInformation,
                    Stage::Connecting => Error::BrokerConnection,
                    Stage::Publishing => Error::Publish,
                    Stage::Disconnecting => Error::Disconnect,
                };
                self.awaiting = None;
                self.outcome = Some(Err(e));
                return PublishAction::Finish(Err(e));
            }
        }
        let ghost before = self.pending@;
        match self.pending.pop() {
            None => {
                self.awaiting = None;
                self.outcome = Some(Ok(()));
                PublishAction::Finish(Ok(()))
            },
            Some(op) => {
                assert(self.remaining() =~= reverse_of(before).drop_first());
                match op {
                    Operation::CreateClient { url } => {
                        self.awaiting = Some(Stage::CreatingClient);
                        PublishAction::CreateClient { url }
                    },
                    Operation::Connect { credentials } => {
                        self.awaiting = Some(Stage::Connecting);
                        PublishAction::Connect { credentials }
                    },
                    Operation::Publish { message } => match message.payload() {
                        Some(payload) => {
                            self.awaiting = Some(Stage::Publishing);
                            PublishAction::Publish { topic: message.topic, payload, qos: message.qos }
                        },
                        None => {
                            self.awaiting = None;
                            self.outcome = Some(Err(Error::Payload));
                            PublishAction::Finish(Err(Error::Payload))
                        },
                    },
                    Operation::Disconnect => {
                        self.awaiting = Some(Stage::Disconnecting);
                        PublishAction::Disconnect
                    },
                }
            },
        }
    }
}

/// The steps a session takes when the actions it hands out meet the given outcomes in
/// turn (the first outcome is the one the first call does not read).
pub open spec fn publish_run(
    remaining: Seq<Operation>,
    awaiting: Option<Stage>,
    outcome: Option<Result<(), Error>>,
    outcomes: Seq<bool>,
) -> Seq<Step>
    decreases outcomes.len(),
{
    if outcomes.len() == 0 {
        Seq::empty()
    } else {
        let (r, a, o, s) = publish_next(remaining, awaiting, outcome, outcomes[0]);
        seq![s] + publish_run(r, a, o, outcomes.drop_first())
    }
}

/// A finished session only ever reports how it finished.
pub proof fn lemma_finished_stays(
    remaining: Seq<Operation>,
    awaiting: Option<Stage>,
    result: Result<(), Error>,
    outcomes: Seq<bool>,
)
    ensures
        publish_run(remaining, awaiting, Some(result), outcomes).len() == outcomes.len(),
        forall|i: int| 0 <= i < outcomes.len() ==> #[trigger] publish_run(remaining, awaiting, Some(result), outcomes)[i]
            == Step::Finish(result),
    decreases outcomes.len(),
{
    if outcomes.len() > 0 {
        lemma_finished_stays(remaining, awaiting, result, outcomes.drop_first());
        let rest = publish_run(remaining, awaiting, Some(result), outcomes.drop_first());
        assert forall|i: int| 0 <= i < outcomes.len() implies #[trigger] publish_run(remaining, awaiting, Some(result), outcomes)[i]
            == Step::Finish(result) by {
            if i > 0 {
                assert(publish_run(remaining, awaiting, Some(result), outcomes)[i] == rest[i - 1]);
            }
        }
    }
}

/// The plan starts with the first broker's client and connection.
pub proof fn lemma_plan_starts(brokers: Seq<Broker>)
    requires
        brokers.len() >= 1,
    ensures
        plan_of(brokers).len() >= 2,
        plan_of(brokers)[0] == (Operation::CreateClient { url: brokers[0].url }),
        plan_of(brokers)[1] == (Operation::Connect { credentials: brokers[0].credentials }),
    decreases brokers.len(),
{
    if brokers.len() == 1 {
        assert(brokers.drop_last().len() == 0);
        assert(plan_of(brokers) =~= broker_plan(brokers[0]));
    } else {
        lemma_plan_starts(brokers.drop_last());
        assert(brokers.drop_last()[0] == brokers[0]);
    }
}

/// When the first broker's connection fails, the request ends with a connection failure
/// and nothing is attempted on any later broker: after the first broker's client and
/// connection, every step is that failure.
pub proof fn lemma_failed_connect_stops(request: PublishRequest, outcomes: Seq<bool>)
    requires
        brokers_of(request).len() >= 2,
        outcomes.len() >= 3,
        outcomes[1],
        !outcomes[2],
    ensures
        ({
            let brokers = brokers_of(request);
            let steps = publish_run(plan_of(brokers), None, None, outcomes);
            &&& steps.len() == outcomes.len()
            &&& steps[0] == Step::Issue(Operation::CreateClient { url: brokers[0].url })
            &&& steps[1] == Step::Issue(Operation::Connect { credentials: brokers[0].credentials })
            &&& forall|i: int| 2 <= i < steps.len() ==> #[trigger] steps[i] == Step::Finish(Err(Error::BrokerConnection))
        }),
{
    let brokers = brokers_of(request);
    lemma_plan_starts(brokers);
    let plan = plan_of(brokers);
    let o1 = outcomes.drop_first();
    let o2 = o1.drop_first();
    let o3 = o2.drop_first();
    let r1 = plan.drop_first();
    let r2 = r1.drop_first();
    assert(r1[0] == plan[1]);
    let e = Err::<(), Error>(Error::BrokerConnection);
    lemma_finished_stays(r2, None, e, o3);
    let tail = publish_run(r2, None, Some(e), o3);
    assert(publish_run(r2, Some(Stage::Connecting), None, o2) == seq![Step::Finish(e)] + tail);
    assert(publish_run(r1, Some(Stage::CreatingClient), None, o1) == seq![
        Step::Issue(Operation::Connect { credentials: brokers[0].credentials })] + publish_run(r2, Some(Stage::Connecting), None, o2));
    let steps = publish_run(plan, None, None, outcomes);
    assert(steps == seq![Step::Issue(Operation::CreateClient { url: brokers[0].url })] + publish_run(r1, Some(Stage::CreatingClient), None, o1));
    assert forall|i: int| 2 <= i < steps.len() implies #[trigger] steps[i] == Step::Finish(e) by {
        if i > 2 {
            assert(steps[i] == tail[i - 3]);
        }
    }
}

} // verus!
