//! What serving a request does, step by step: a channel is chosen, access and
//! the forwarding rule are looked up, one log entry is made, the upstream is
//! asked, its answer is checked before anything is charged, and a failed
//! exchange may be tried again on another channel. The caller does the work of
//! each step and tells what came of it.
use vstd::prelude::*;
use vstd::string::*;
use crate::double::Double;
use crate::json::{opt_string, parsed_json, Json, Jv};

verus! {

/// What is asked for.
#[derive(Clone, Copy, Debug, PartialEq, Eq, Structural)]
pub enum Kind {
    Chat,
    Responses,
    Image,
    Video,
    Generic,
}

/// Why an exchange with an upstream failed.
#[derive(Clone, Copy, Debug, PartialEq, Eq, Structural)]
pub enum Failure {
    /// The upstream could not be reached.
    Transport,
    /// The upstream answered with a status of failure.
    Status,
    /// The upstream's answer tells of a failure.
    Business,
    /// There is nothing here that could pass the request on.
    NotServed,
    /// The user could not be charged.
    Refused,
    /// The task that was waited for failed.
    TaskFailed,
    /// The task that was waited for took too long.
    TaskTimedOut,
    /// The answer holds no image.
    NoImage,
}

/// How serving a request ends.
#[derive(Clone, Copy, Debug, PartialEq, Eq, Structural)]
pub enum End {
    /// With the answer of the upstream.
    Answered,
    /// With the stream of the upstream.
    Streaming,
    /// No channel could be chosen.
    NoChannel,
    /// Access was denied.
    Denied,
    /// The model's rules do not know the interface.
    Unsupported,
    /// The request was refused before the upstream was asked.
    Aborted,
    /// No attempt succeeded.
    Exhausted,
    /// The task that served the request died.
    Broken,
}

/// What to do with the answer to an image request.
#[derive(Clone, Copy, Debug, PartialEq, Eq, Structural)]
pub enum ImageRoute {
    /// Wait for the task that it names.
    Wait,
    /// Record the task, to be asked for later.
    Freeze,
    /// Hand it out.
    Answer,
}

/// How waiting for a task went.
#[derive(Clone, Copy, Debug, PartialEq, Eq, Structural)]
pub enum Waited {
    Succeeded,
    Failed,
    TimedOut,
}

/// What is to be done.
#[derive(Clone, Copy, Debug, PartialEq, Eq, Structural)]
pub enum Work {
    /// Ask whether there may be an attempt.
    Continue,
    /// Choose a channel.
    Select,
    /// Check access, and find what is charged in advance.
    Access,
    /// Look up the forwarding rule.
    FindRule,
    /// Look up whether the model has rules at all.
    AskRules,
    /// Make the request for the upstream.
    Prepare,
    /// Make the log entry of the request.
    Log,
    /// Convert assets.
    Convert,
    /// Ask the upstream.
    Send,
    /// Read the upstream's answer and check it.
    ReadBody,
    /// Charge in advance; `true` for a stream.
    Deduct(bool),
    /// Decide what to do with the answer to an image request.
    Route,
    /// Wait for a task.
    Wait,
    /// Count the images of the answer.
    CountImages,
    /// Compute the cost and record it.
    Settle,
    /// Record a task whose cost is settled later.
    Freeze,
    /// Hand out the answer.
    Reply,
    /// Report a failure, give back what was charged, and ask whether to try
    /// again.
    Report(Failure),
    /// Nothing more.
    Stop(End),
}

/// What came of the work.
#[derive(Clone, Copy, Debug, PartialEq, Eq)]
pub enum Event {
    /// Whether there may be an attempt.
    More(bool),
    /// Whether a channel was chosen.
    Chosen(bool),
    /// What is charged in advance, where access is granted.
    Allowed(Option<Double>),
    /// Whether there is a rule.
    RuleFound(bool),
    /// Whether the model has rules.
    HasRules(bool),
    /// The request for the upstream is made; whether it asks for a stream.
    Prepared(bool),
    /// The request cannot be made for the upstream.
    Rejected,
    /// The log entry, where one was made.
    Logged(Option<i64>),
    /// Whether the assets were converted.
    Converted(bool),
    /// The upstream could not be reached.
    Unreachable,
    /// The upstream answered: whether with success, and whether with a stream.
    Answered(bool, bool),
    /// There is nothing here that could pass the request on.
    NotServed,
    /// A plugin took the task and gave its answer.
    Taken,
    /// Whether the answer is free of failures.
    Checked(bool),
    /// How much of the charge came out of gifts, where the user was charged.
    Deducted(Option<Double>),
    Routed(ImageRoute),
    Waited(Waited),
    /// Whether the answer holds an image.
    Counted(bool),
    /// The work was done.
    Done,
    /// Whether to try again.
    Retry(bool),
    /// The task that did the work died.
    Died,
}

/// What was charged in advance, and how much of it came out of gifts.
#[derive(Clone, Copy, Debug, PartialEq, Eq)]
pub struct Deposit {
    pub amount: Double,
    pub gift: Double,
}

/// How far serving a request has come.
#[derive(Clone, Copy, Debug, PartialEq, Eq)]
pub struct Serving {
    pub kind: Kind,
    /// Whether the present attempt asks for a stream.
    pub streamed: bool,
    /// The log entry of the request.
    pub entry: Option<i64>,
    /// What is charged in advance.
    pub due: Double,
    /// What was charged in the present attempt.
    pub deposit: Option<Deposit>,
    pub work: Work,
}

/// Whether answers may come as streams: never those of videos, nor of what is
/// passed through as it is.
pub open spec fn may_stream(kind: Kind) -> bool {
    kind == Kind::Chat || kind == Kind::Responses || kind == Kind::Image
}

/// Whether the log entry is made while the upstream is asked; the others make
/// theirs before.
pub open spec fn logs_while_sending(kind: Kind) -> bool {
    kind == Kind::Chat || kind == Kind::Responses
}

/// What follows once a log entry is there, or one is made on the way.
pub open spec fn after_log(kind: Kind) -> Work {
    if kind == Kind::Video {
        Work::Convert
    } else {
        Work::Send
    }
}

/// What follows once the request for the upstream is made: the log entry,
/// unless there is one from an earlier attempt.
pub open spec fn after_preparation(kind: Kind, entry: Option<i64>) -> Work {
    if !logs_while_sending(kind) && entry is None {
        Work::Log
    } else {
        after_log(kind)
    }
}

/// What follows a successful answer of the upstream: charging for a stream,
/// where one was asked for or came, or reading the answer.
pub open spec fn after_success(kind: Kind, streamed: bool, stream_came: bool) -> Work {
    if may_stream(kind) && (streamed || stream_came) {
        Work::Deduct(true)
    } else {
        Work::ReadBody
    }
}

/// What follows once the user was charged for an answer.
pub open spec fn after_charge(kind: Kind) -> Work {
    match kind {
        Kind::Chat | Kind::Responses | Kind::Generic => Work::Settle,
        Kind::Image => Work::Route,
        Kind::Video => Work::Freeze,
    }
}

/// Whether the work is part of the exchange with the upstream.
pub open spec fn in_exchange(w: Work) -> bool {
    match w {
        Work::Send
        | Work::ReadBody
        | Work::Deduct(_)
        | Work::Route
        | Work::Wait
        | Work::CountImages
        | Work::Settle
        | Work::Freeze
        | Work::Reply => true,
        _ => false,
    }
}

/// The next work, given what came of the present one. An event that does not
/// belong to the work changes nothing.
pub open spec fn next_work(s: Serving, event: Event) -> Work {
    match (s.work, event) {
        (Work::Continue, Event::More(true)) => Work::Select,
        (Work::Continue, Event::More(false)) => Work::Stop(End::Exhausted),
        (Work::Select, Event::Chosen(true)) => Work::Access,
        (Work::Select, Event::Chosen(false)) => Work::Stop(End::NoChannel),
        (Work::Access, Event::Allowed(Some(_))) => Work::FindRule,
        (Work::Access, Event::Allowed(None)) => Work::Stop(End::Denied),
        (Work::FindRule, Event::RuleFound(true)) => Work::Prepare,
        (Work::FindRule, Event::RuleFound(false)) => if s.kind == Kind::Responses {
            Work::Prepare
        } else {
            Work::AskRules
        },
        (Work::AskRules, Event::HasRules(true)) => Work::Stop(End::Unsupported),
        (Work::AskRules, Event::HasRules(false)) => Work::Prepare,
        (Work::Prepare, Event::Prepared(_)) => after_preparation(s.kind, s.entry),
        (Work::Prepare, Event::Rejected) => if s.kind == Kind::Video {
            Work::Stop(End::Aborted)
        } else {
            Work::Prepare
        },
        (Work::Log, Event::Logged(_)) => after_log(s.kind),
        (Work::Convert, Event::Converted(true)) => Work::Send,
        (Work::Convert, Event::Converted(false)) => Work::Stop(End::Aborted),
        (Work::Send, Event::Unreachable) => Work::Report(Failure::Transport),
        (Work::Send, Event::NotServed) => Work::Report(Failure::NotServed),
        (Work::Send, Event::Taken) => if s.kind == Kind::Video {
            Work::Deduct(false)
        } else {
            Work::Send
        },
        (Work::Send, Event::Answered(false, _)) => Work::Report(Failure::Status),
        (Work::Send, Event::Answered(true, stream_came)) => after_success(
            s.kind,
            s.streamed,
            stream_came,
        ),
        (Work::ReadBody, Event::Checked(false)) => Work::Report(Failure::Business),
        (Work::ReadBody, Event::Checked(true)) => Work::Deduct(false),
        (Work::Deduct(_), Event::Deducted(None)) => if s.kind == Kind::Chat {
            Work::Stop(End::Denied)
        } else {
            Work::Report(Failure::Refused)
        },
        (Work::Deduct(true), Event::Deducted(Some(_))) => Work::Stop(End::Streaming),
        (Work::Deduct(false), Event::Deducted(Some(_))) => after_charge(s.kind),
        (Work::Route, Event::Routed(ImageRoute::Wait)) => Work::Wait,
        (Work::Route, Event::Routed(ImageRoute::Freeze)) => Work::Freeze,
        (Work::Route, Event::Routed(ImageRoute::Answer)) => Work::CountImages,
        (Work::Wait, Event::Waited(Waited::Succeeded)) => Work::CountImages,
        (Work::Wait, Event::Waited(Waited::Failed)) => Work::Report(Failure::TaskFailed),
        (Work::Wait, Event::Waited(Waited::TimedOut)) => Work::Report(Failure::TaskTimedOut),
        (Work::CountImages, Event::Counted(true)) => Work::Settle,
        (Work::CountImages, Event::Counted(false)) => Work::Report(Failure::NoImage),
        (Work::Settle, Event::Done) => Work::Reply,
        (Work::Freeze, Event::Done) => Work::Reply,
        (Work::Reply, Event::Done) => Work::Stop(End::Answered),
        (Work::Report(_), Event::Retry(true)) => Work::Continue,
        (Work::Report(_), Event::Retry(false)) => Work::Stop(End::Exhausted),
        (w, Event::Died) => if in_exchange(w) && s.kind != Kind::Chat {
            Work::Stop(End::Broken)
        } else {
            w
        },
        (w, _) => w,
    }
}

/// Whether a log entry is to be made: along with the present work, and only
/// where there is none.
pub open spec fn needs_entry(s: Serving) -> bool {
    s.entry is None && (s.work is Log || (s.work is Send && logs_while_sending(s.kind)))
}

/// The log entry after an event: an entry once made is kept.
pub open spec fn next_entry(s: Serving, event: Event) -> Option<i64> {
    match event {
        Event::Logged(id) => if needs_entry(s) {
            id
        } else {
            s.entry
        },
        _ => s.entry,
    }
}

/// What was charged, after an event. What was charged in an attempt that
/// failed has been given back.
pub open spec fn next_deposit(s: Serving, event: Event) -> Option<Deposit> {
    match (s.work, event) {
        (Work::Deduct(_), Event::Deducted(Some(gift))) => Some(Deposit { amount: s.due, gift }),
        (Work::Report(_), Event::Retry(_)) => None,
        _ => s.deposit,
    }
}

/// How far a request has come after an event.
pub open spec fn next_serving(s: Serving, event: Event) -> Serving {
    Serving {
        kind: s.kind,
        streamed: match (s.work, event) {
            (Work::Prepare, Event::Prepared(b)) => b && may_stream(s.kind),
            _ => s.streamed,
        },
        entry: next_entry(s, event),
        due: match (s.work, event) {
            (Work::Access, Event::Allowed(Some(d))) => d,
            _ => s.due,
        },
        deposit: next_deposit(s, event),
        work: next_work(s, event),
    }
}

/// Whether the work lies behind the charge.
pub open spec fn is_charged(w: Work) -> bool {
    match w {
        Work::Route
        | Work::Wait
        | Work::CountImages
        | Work::Settle
        | Work::Freeze
        | Work::Reply
        | Work::Report(Failure::TaskFailed)
        | Work::Report(Failure::TaskTimedOut)
        | Work::Report(Failure::NoImage)
        | Work::Stop(End::Answered)
        | Work::Stop(End::Streaming) => true,
        _ => false,
    }
}

impl Serving {
    /// What always holds: there is something charged exactly where the work
    /// lies behind the charge, and only some kinds ask for streams.
    pub open spec fn wf(self) -> bool {
        &&& self.work != Work::Stop(End::Broken) ==> (is_charged(self.work) <==> self.deposit is Some)
        &&& self.streamed ==> may_stream(self.kind)
    }

    /// A request that was just received.
    pub fn begin(kind: Kind) -> (r: Serving)
        ensures
            r == beginning(kind),
            r.wf(),
    {
        Serving {
            kind,
            streamed: false,
            entry: None,
            due: Double { bits: 0 },
            deposit: None,
            work: Work::Continue,
        }
    }

    /// Whether a log entry is to be made along with the present work.
    pub fn makes_entry(&self) -> (r: bool)
        ensures
            r == needs_entry(*self),
    {
        self.entry.is_none() && match self.work {
            Work::Log => true,
            Work::Send => self.kind == Kind::Chat || self.kind == Kind::Responses,
            _ => false,
        }
    }

    /// Whether the upstream has to answer within a time: streams have none.
    pub fn is_timed(&self) -> (r: bool)
        ensures
            r == !self.streamed,
    {
        !self.streamed
    }

    /// Whether a charge is recorded as that of a stream; one for images never
    /// is.
    pub fn charged_as_stream(&self) -> (r: bool)
        ensures
            r == (self.work == Work::Deduct(true) && self.kind != Kind::Image),
    {
        match self.work {
            Work::Deduct(stream) => stream && self.kind != Kind::Image,
            _ => false,
        }
    }

    /// What a report of failure gives back.
    pub fn refund(&self) -> (r: Option<Deposit>)
        requires
            self.wf(),
        ensures
            r == if self.work is Report {
                self.deposit
            } else {
                None
            },
            r is Some <==> self.work is Report && is_charged(self.work),
    {
        match self.work {
            Work::Report(_) => self.deposit,
            _ => None,
        }
    }

    /// Says how far the request has come, and what is to be done next.
    pub fn advance(self, event: Event) -> (r: Serving)
        requires
            self.wf(),
        ensures
            r == next_serving(self, event),
            r.wf(),
    {
        let mut next = self;
        next.work = follow(&self, event);
        match (self.work, event) {
            (Work::Access, Event::Allowed(Some(due))) => {
                next.due = due;
            },
            (Work::Prepare, Event::Prepared(asks)) => {
                next.streamed = asks && (self.kind == Kind::Chat || self.kind == Kind::Responses
                    || self.kind == Kind::Image);
            },
            (Work::Deduct(_), Event::Deducted(Some(gift))) => {
                next.deposit = Some(Deposit { amount: self.due, gift });
            },
            (Work::Report(_), Event::Retry(_)) => {
                next.deposit = None;
            },
            _ => {},
        }
        match event {
            Event::Logged(id) => if self.makes_entry() {
                next.entry = id;
            },
            _ => {},
        }
        next
    }
}

/// A request that was just received.
pub open spec fn beginning(kind: Kind) -> Serving {
    Serving {
        kind,
        streamed: false,
        entry: None,
        due: Double { bits: 0 },
        deposit: None,
        work: Work::Continue,
    }
}

fn follow_log(kind: Kind) -> (r: Work)
    ensures
        r == after_log(kind),
{
    if kind == Kind::Video {
        Work::Convert
    } else {
        Work::Send
    }
}

fn follow_send(s: &Serving, event: Event) -> (r: Work)
    requires
        s.work is Send,
    ensures
        r == next_work(*s, event),
{
    match event {
        Event::Unreachable => Work::Report(Failure::Transport),
        Event::NotServed => Work::Report(Failure::NotServed),
        Event::Taken => if s.kind == Kind::Video {
            Work::Deduct(false)
        } else {
            Work::Send
        },
        Event::Answered(ok, stream_came) => {
            if !ok {
                return Work::Report(Failure::Status);
            }
            match s.kind {
                Kind::Chat | Kind::Responses | Kind::Image => if s.streamed || stream_came {
                    Work::Deduct(true)
                } else {
                    Work::ReadBody
                },
                Kind::Video | Kind::Generic => Work::ReadBody,
            }
        },
        Event::Died => if s.kind == Kind::Chat {
            Work::Send
        } else {
            Work::Stop(End::Broken)
        },
        _ => Work::Send,
    }
}

fn follow_answer(s: &Serving, event: Event) -> (r: Work)
    requires
        in_exchange(s.work),
        s.work !is Send,
    ensures
        r == next_work(*s, event),
{
    match event {
        Event::Died => {
            return if s.kind == Kind::Chat {
                s.work
            } else {
                Work::Stop(End::Broken)
            };
        },
        _ => {},
    }
    match (s.work, event) {
        (Work::ReadBody, Event::Checked(ok)) => if ok {
            Work::Deduct(false)
        } else {
            Work::Report(Failure::Business)
        },
        (Work::Deduct(stream), Event::Deducted(gift)) => if gift.is_none() {
            if s.kind == Kind::Chat {
                Work::Stop(End::Denied)
            } else {
                Work::Report(Failure::Refused)
            }
        } else if stream {
            Work::Stop(End::Streaming)
        } else {
            match s.kind {
                Kind::Chat | Kind::Responses | Kind::Generic => Work::Settle,
                Kind::Image => Work::Route,
                Kind::Video => Work::Freeze,
            }
        },
        (Work::Route, Event::Routed(route)) => match route {
            ImageRoute::Wait => Work::Wait,
            ImageRoute::Freeze => Work::Freeze,
            ImageRoute::Answer => Work::CountImages,
        },
        (Work::Wait, Event::Waited(w)) => match w {
            Waited::Succeeded => Work::CountImages,
            Waited::Failed => Work::Report(Failure::TaskFailed),
            Waited::TimedOut => Work::Report(Failure::TaskTimedOut),
        },
        (Work::CountImages, Event::Counted(some)) => if some {
            Work::Settle
        } else {
            Work::Report(Failure::NoImage)
        },
        (Work::Settle, Event::Done) => Work::Reply,
        (Work::Freeze, Event::Done) => Work::Reply,
        (Work::Reply, Event::Done) => Work::Stop(End::Answered),
        _ => s.work,
    }
}

fn follow(s: &Serving, event: Event) -> (r: Work)
    ensures
        r == next_work(*s, event),
{
    match s.work {
        Work::Send => follow_send(s, event),
        Work::ReadBody
        | Work::Deduct(_)
        | Work::Route
        | Work::Wait
        | Work::CountImages
        | Work::Settle
        | Work::Freeze
        | Work::Reply => follow_answer(s, event),
        _ => match (s.work, event) {
            (Work::Continue, Event::More(b)) => if b {
                Work::Select
            } else {
                Work::Stop(End::Exhausted)
            },
            (Work::Select, Event::Chosen(b)) => if b {
                Work::Access
            } else {
                Work::Stop(End::NoChannel)
            },
            (Work::Access, Event::Allowed(due)) => if due.is_some() {
                Work::FindRule
            } else {
                Work::Stop(End::Denied)
            },
            (Work::FindRule, Event::RuleFound(b)) => if b || s.kind == Kind::Responses {
                Work::Prepare
            } else {
                Work::AskRules
            },
            (Work::AskRules, Event::HasRules(b)) => if b {
                Work::Stop(End::Unsupported)
            } else {
                Work::Prepare
            },
            (Work::Prepare, Event::Prepared(_)) => {
                let along = s.kind == Kind::Chat || s.kind == Kind::Responses;
                if !along && s.entry.is_none() {
                    Work::Log
                } else {
                    follow_log(s.kind)
                }
            },
            (Work::Prepare, Event::Rejected) => if s.kind == Kind::Video {
                Work::Stop(End::Aborted)
            } else {
                Work::Prepare
            },
            (Work::Log, Event::Logged(_)) => follow_log(s.kind),
            (Work::Convert, Event::Converted(b)) => if b {
                Work::Send
            } else {
                Work::Stop(End::Aborted)
            },
            (Work::Report(_), Event::Retry(b)) => if b {
                Work::Continue
            } else {
                Work::Stop(End::Exhausted)
            },
            _ => s.work,
        },
    }
}

// ---------------------------------------------------------------- whole requests

/// How far a request has come after a number of events, from the start.
pub open spec fn serving_after(kind: Kind, events: Seq<Event>) -> Serving
    decreases events.len(),
{
    if events.len() == 0 {
        beginning(kind)
    } else {
        next_serving(serving_after(kind, events.drop_last()), events.last())
    }
}

/// Whatever happens, something is charged exactly where the work lies behind
/// the charge.
pub proof fn law_always_sound(kind: Kind, events: Seq<Event>)
    ensures
        serving_after(kind, events).wf(),
        serving_after(kind, events).kind == kind,
    decreases events.len(),
{
    if events.len() > 0 {
        law_always_sound(kind, events.drop_last());
    }
}

/// Nothing is charged for an answer that was not found free of failures, unless
/// it is that of a plugin that took a video task, nor for a stream that did not
/// begin with success.
pub proof fn law_checked_before_charge(s: Serving, event: Event)
    requires
        next_work(s, event) is Deduct,
        s.work !is Deduct,
    ensures
        next_work(s, event) == Work::Deduct(false) ==> (s.work is ReadBody && event
            == Event::Checked(true)) || (s.work is Send && event == Event::Taken && s.kind
            == Kind::Video),
        next_work(s, event) == Work::Deduct(true) ==> s.work is Send && event matches Event::Answered(
            true,
            _,
        ),
{
}

/// Whether an event is a charge that still stands: of what was due then, and
/// with no new attempt since.
pub open spec fn charged_by(kind: Kind, events: Seq<Event>, i: int) -> bool {
    let s = serving_after(kind, events.take(i));
    &&& 0 <= i < events.len()
    &&& s.work is Deduct
    &&& events[i] is Deducted
    &&& events[i]->Deducted_0 is Some
    &&& serving_after(kind, events).deposit == Some(
        Deposit { amount: s.due, gift: events[i]->Deducted_0->Some_0 },
    )
    &&& forall|j: int|
        i < j < events.len() ==> #[trigger] serving_after(kind, events.take(j)).work !is Continue
}

proof fn lemma_charge_step(s: Serving, event: Event)
    requires
        s.wf(),
        is_charged(next_work(s, event)),
    ensures
        is_charged(s.work) ==> next_deposit(s, event) == s.deposit && s.work !is Continue,
        !is_charged(s.work) ==> s.work is Deduct && event is Deducted && event->Deducted_0 is Some,
{
}

/// A request is answered only after the user was charged, in the same attempt,
/// what was found to be due.
pub proof fn law_answered_after_charge(kind: Kind, events: Seq<Event>)
    requires
        is_charged(serving_after(kind, events).work),
    ensures
        exists|i: int| #[trigger] charged_by(kind, events, i),
    decreases events.len(),
{
    if events.len() > 0 {
        let before = events.drop_last();
        let last = events.len() - 1;
        let s = serving_after(kind, before);
        assert(events.take(last) =~= before);
        law_always_sound(kind, before);
        lemma_charge_step(s, events.last());
        if is_charged(s.work) {
            law_answered_after_charge(kind, before);
            let i = choose|i: int| #[trigger] charged_by(kind, before, i);
            assert(events[i] == before[i]);
            assert(events.take(i) =~= before.take(i));
            assert forall|j: int| i < j < events.len() implies #[trigger] serving_after(
                kind,
                events.take(j),
            ).work !is Continue by {
                if j < last {
                    assert(events.take(j) =~= before.take(j));
                }
            }
            assert(charged_by(kind, events, i));
        } else {
            assert(charged_by(kind, events, last));
        }
    }
}

/// A failure before the charge gives nothing back; one after the charge gives
/// back all that was charged. Either way nothing is left charged when the next
/// attempt begins or when no more is made.
pub proof fn law_failures_are_free(kind: Kind, events: Seq<Event>, retry: bool)
    requires
        serving_after(kind, events).work is Report,
    ensures
        serving_after(kind, events).deposit is Some <==> is_charged(
            serving_after(kind, events).work,
        ),
        serving_after(kind, events.push(Event::Retry(retry))).deposit is None,
{
    law_always_sound(kind, events);
    assert(events.push(Event::Retry(retry)).drop_last() =~= events);
}

/// One request makes one log entry, however many attempts it takes: once there
/// is one it is kept, and no other is made.
pub proof fn law_one_entry(kind: Kind, events: Seq<Event>, i: int)
    requires
        0 <= i <= events.len(),
        serving_after(kind, events.take(i)).entry is Some,
    ensures
        serving_after(kind, events).entry == serving_after(kind, events.take(i)).entry,
        !needs_entry(serving_after(kind, events)),
    decreases events.len(),
{
    if i == events.len() {
        assert(events.take(i) =~= events);
    } else {
        let before = events.drop_last();
        assert(before.take(i) =~= events.take(i));
        law_one_entry(kind, before, i);
    }
}

/// Only a failed exchange is tried again, and only where that is wanted: not
/// a missing channel, denied access, an unknown interface or a request that
/// was refused before the upstream was asked.
pub proof fn law_retry_only_after_failure(s: Serving, event: Event)
    requires
        s.work !is Continue,
        next_work(s, event) is Continue,
    ensures
        s.work is Report,
        event == Event::Retry(true),
{
}

/// What has ended stays so.
pub proof fn law_end_is_final(s: Serving, event: Event)
    requires
        s.work is Stop,
    ensures
        next_serving(s, event) == s,
{
}

// ---------------------------------------------------------------- answers of failure

/// What the upstream answered, as JSON; a null where it is none. Whether it
/// tells of a failure is read off it.
pub fn answer_value(text: &str) -> (r: Json)
    ensures
        r@ == match parsed_json(text@) {
            Some(v) => v,
            None => Jv::Null,
        },
{
    match Json::parse(text) {
        Some(v) => v,
        None => Json::Null,
    }
}

/// An answer that tells of a failure: the text that is kept, and the text that
/// the client gets.
pub open spec fn answer_checked(
    body: Seq<char>,
    failed: bool,
    openai: bool,
    formatted: Seq<char>,
) -> (Seq<char>, Option<Seq<char>>) {
    if !failed {
        (body, None)
    } else if openai {
        (formatted, Some(formatted))
    } else {
        (body, Some(body))
    }
}

/// Checks an answer, given whether it tells of a failure. A client of the
/// OpenAI interface gets the failure in its format; any other gets it as it
/// came.
pub fn check_upstream_post_error(
    response_body: &str,
    failed: bool,
    is_openai_compat: bool,
    formatted: &str,
) -> (r: (String, Option<String>))
    ensures
        (r.0@, opt_string(r.1)) == answer_checked(
            response_body@,
            failed,
            is_openai_compat,
            formatted@,
        ),
{
    if !failed {
        (response_body.to_owned(), None)
    } else if is_openai_compat {
        (formatted.to_owned(), Some(formatted.to_owned()))
    } else {
        (response_body.to_owned(), Some(response_body.to_owned()))
    }
}

/// Whether failures are told in the format of OpenAI, given whether the path is
/// one of its interface: to images that are not asked for natively, and to
/// videos.
pub fn tells_as_openai(kind: Kind, openai_path: bool, native: bool) -> (r: bool)
    ensures
        r == match kind {
            Kind::Image => openai_path && !native,
            Kind::Video => openai_path,
            _ => false,
        },
{
    match kind {
        Kind::Image => openai_path && !native,
        Kind::Video => openai_path,
        _ => false,
    }
}

/// What is said where the task that served a request died.
pub const BROKEN: &'static str = "请求处理任务异常终止";

/// What is said where the model's rules do not know the interface.
pub fn unsupported_text(model: &str) -> (r: String)
    ensures
        r@ == "模型 '"@ + model@ + "' 不支持当前接口，请检查模型对应的转发规则"@,
{
    let mut out = "模型 '".to_owned();
    out.append(model);
    out.append("' 不支持当前接口，请检查模型对应的转发规则");
    out
}

} // verus!
