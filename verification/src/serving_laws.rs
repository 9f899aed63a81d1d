//! What holds of how a request is served, step by step.
use vstd::prelude::*;
use crate::attempt::{
    answer_checked, next_serving, serving_after, Deposit, End, Event, Failure, ImageRoute, Kind,
    Serving, Waited, Work,
};
use crate::double::Double;

verus! {

/// Until the upstream is asked: what each answer leads to.
pub proof fn law_before_sending(s: Serving, due: Double, ok: bool, e: Event, w: Work)
    requires
        w == next_serving(s, e).work,
    ensures
        s.work == Work::Continue && e == Event::More(true) ==> w == Work::Select,
        s.work == Work::Continue && e == Event::More(false) ==> w == Work::Stop(End::Exhausted),
        s.work == Work::Select && e == Event::Chosen(true) ==> w == Work::Access,
        s.work == Work::Select && e == Event::Chosen(false) ==> w == Work::Stop(End::NoChannel),
        s.work == Work::Access && e == Event::Allowed(Some(due)) ==> w == Work::FindRule
            && next_serving(s, e).due == due,
        s.work == Work::Access && e == Event::Allowed(None) ==> w == Work::Stop(End::Denied),
        s.work == Work::FindRule && e == Event::RuleFound(true) ==> w == Work::Prepare,
        s.work == Work::FindRule && e == Event::RuleFound(false) && s.kind == Kind::Responses ==> w
            == Work::Prepare,
        s.work == Work::FindRule && e == Event::RuleFound(false) && s.kind != Kind::Responses ==> w
            == Work::AskRules,
        s.work == Work::AskRules && e == Event::HasRules(true) ==> w == Work::Stop(
            End::Unsupported,
        ),
        s.work == Work::AskRules && e == Event::HasRules(false) ==> w == Work::Prepare,
        s.work == Work::Prepare && e == Event::Prepared(ok) && (s.kind == Kind::Chat || s.kind
            == Kind::Responses) ==> w == Work::Send && next_serving(s, e).streamed == ok,
        s.work == Work::Prepare && e == Event::Prepared(ok) && s.kind == Kind::Image && s.entry
            is None ==> w == Work::Log && next_serving(s, e).streamed == ok,
        s.work == Work::Prepare && e == Event::Prepared(ok) && s.kind == Kind::Image && s.entry
            is Some ==> w == Work::Send,
        s.work == Work::Prepare && e == Event::Prepared(ok) && (s.kind == Kind::Video || s.kind
            == Kind::Generic) ==> !next_serving(s, e).streamed,
        s.work == Work::Prepare && e == Event::Prepared(ok) && s.kind == Kind::Video && s.entry
            is Some ==> w == Work::Convert,
        s.work == Work::Prepare && e == Event::Rejected && s.kind == Kind::Video ==> w
            == Work::Stop(End::Aborted),
        s.work == Work::Convert && e == Event::Converted(true) ==> w == Work::Send,
        s.work == Work::Convert && e == Event::Converted(false) ==> w == Work::Stop(End::Aborted),
{
}

/// The log entry: made once, then the request goes on.
pub proof fn law_logging(s: Serving, id: i64)
    requires
        s.work == Work::Log,
    ensures
        s.entry is None ==> next_serving(s, Event::Logged(Some(id))).entry == Some(id),
        s.entry is Some ==> next_serving(s, Event::Logged(Some(id))).entry == s.entry,
        s.kind == Kind::Video ==> next_serving(s, Event::Logged(Some(id))).work == Work::Convert,
        s.kind != Kind::Video ==> next_serving(s, Event::Logged(Some(id))).work == Work::Send,
{
}

/// What the upstream's answer leads to.
pub proof fn law_after_sending(s: Serving, came: bool, e: Event, w: Work)
    requires
        s.work == Work::Send,
        w == next_serving(s, e).work,
    ensures
        e == Event::Unreachable ==> w == Work::Report(Failure::Transport),
        e == Event::NotServed ==> w == Work::Report(Failure::NotServed),
        e == Event::Taken && s.kind == Kind::Video ==> w == Work::Deduct(false),
        e == Event::Answered(false, came) ==> w == Work::Report(Failure::Status),
        e == Event::Answered(true, came) && (s.kind == Kind::Chat || s.kind == Kind::Responses
            || s.kind == Kind::Image) && (s.streamed || came) ==> w == Work::Deduct(true),
        e == Event::Answered(true, came) && !s.streamed && !came ==> w == Work::ReadBody,
        e == Event::Answered(true, came) && (s.kind == Kind::Video || s.kind == Kind::Generic) ==> w
            == Work::ReadBody,
{
}

/// From the answer to the charge and on.
pub proof fn law_after_reading(s: Serving, gift: Double, e: Event, n: Serving)
    requires
        n == next_serving(s, e),
    ensures
        s.work == Work::ReadBody && e == Event::Checked(true) ==> n.work == Work::Deduct(false),
        s.work == Work::ReadBody && e == Event::Checked(false) ==> n.work == Work::Report(
            Failure::Business,
        ),
        s.work is Deduct && e == Event::Deducted(None) && s.kind == Kind::Chat ==> n.work
            == Work::Stop(End::Denied),
        s.work is Deduct && e == Event::Deducted(None) && s.kind != Kind::Chat ==> n.work
            == Work::Report(Failure::Refused),
        s.work == Work::Deduct(true) && e == Event::Deducted(Some(gift)) ==> n.work == Work::Stop(
            End::Streaming,
        ),
        s.work is Deduct && e == Event::Deducted(Some(gift)) ==> n.deposit == Some(
            Deposit { amount: s.due, gift },
        ),
        s.work == Work::Deduct(false) && e == Event::Deducted(Some(gift)) && (s.kind == Kind::Chat
            || s.kind == Kind::Responses || s.kind == Kind::Generic) ==> n.work == Work::Settle,
        s.work == Work::Deduct(false) && e == Event::Deducted(Some(gift)) && s.kind == Kind::Image
            ==> n.work == Work::Route,
        s.work == Work::Deduct(false) && e == Event::Deducted(Some(gift)) && s.kind == Kind::Video
            ==> n.work == Work::Freeze,
{
}

/// The end of an image request, and of every request.
pub proof fn law_last_steps(s: Serving, f: Failure, e: Event, w: Work)
    requires
        w == next_serving(s, e).work,
    ensures
        s.work == Work::Route && e == Event::Routed(ImageRoute::Wait) ==> w == Work::Wait,
        s.work == Work::Route && e == Event::Routed(ImageRoute::Freeze) ==> w == Work::Freeze,
        s.work == Work::Route && e == Event::Routed(ImageRoute::Answer) ==> w == Work::CountImages,
        s.work == Work::Wait && e == Event::Waited(Waited::Succeeded) ==> w == Work::CountImages,
        s.work == Work::Wait && e == Event::Waited(Waited::Failed) ==> w == Work::Report(
            Failure::TaskFailed,
        ),
        s.work == Work::Wait && e == Event::Waited(Waited::TimedOut) ==> w == Work::Report(
            Failure::TaskTimedOut,
        ),
        s.work == Work::CountImages && e == Event::Counted(true) ==> w == Work::Settle,
        s.work == Work::CountImages && e == Event::Counted(false) ==> w == Work::Report(
            Failure::NoImage,
        ),
        (s.work == Work::Settle || s.work == Work::Freeze) && e == Event::Done ==> w == Work::Reply,
        s.work == Work::Reply && e == Event::Done ==> w == Work::Stop(End::Answered),
        s.work == Work::Report(f) && e == Event::Retry(true) ==> w == Work::Continue,
        s.work == Work::Report(f) && e == Event::Retry(false) ==> w == Work::Stop(End::Exhausted),
        (s.work == Work::Send || s.work == Work::ReadBody || s.work == Work::Settle) && e
            == Event::Died && s.kind != Kind::Chat ==> w == Work::Stop(End::Broken),
{
}

/// A chat that goes well is answered, and has been charged what was due.
pub proof fn law_chat_goes_well(due: Double, gift: Double, s: Serving)
    requires
        s == serving_after(
            Kind::Chat,
            seq![
                Event::More(true),
                Event::Chosen(true),
                Event::Allowed(Some(due)),
                Event::RuleFound(true),
                Event::Prepared(false),
                Event::Answered(true, false),
                Event::Checked(true),
                Event::Deducted(Some(gift)),
                Event::Done,
                Event::Done,
            ],
        ),
    ensures
        s.work == Work::Stop(End::Answered),
        s.deposit == Some(Deposit { amount: due, gift }),
{
    let e = seq![
        Event::More(true),
        Event::Chosen(true),
        Event::Allowed(Some(due)),
        Event::RuleFound(true),
        Event::Prepared(false),
        Event::Answered(true, false),
        Event::Checked(true),
        Event::Deducted(Some(gift)),
        Event::Done,
        Event::Done,
    ];
    lemma_prefix(Kind::Chat, e, 1);
    lemma_prefix(Kind::Chat, e, 2);
    lemma_prefix(Kind::Chat, e, 3);
    lemma_prefix(Kind::Chat, e, 4);
    lemma_prefix(Kind::Chat, e, 5);
    lemma_prefix(Kind::Chat, e, 6);
    lemma_prefix(Kind::Chat, e, 7);
    lemma_prefix(Kind::Chat, e, 8);
    lemma_prefix(Kind::Chat, e, 9);
    lemma_prefix(Kind::Chat, e, 10);
    assert(e.take(0) =~= Seq::<Event>::empty());
    assert(e.take(10) =~= e);
}

proof fn lemma_prefix(kind: Kind, e: Seq<Event>, n: int)
    requires
        0 < n <= e.len(),
    ensures
        serving_after(kind, e.take(n)) == next_serving(serving_after(kind, e.take(n - 1)), e[n - 1]),
{
    assert(e.take(n).drop_last() =~= e.take(n - 1));
}

/// An answer that tells of a failure goes to the log as it is handed out: in
/// the common form for the common interface, as it came otherwise.
pub proof fn law_answer_checked(body: Seq<char>, openai: bool, formatted: Seq<char>)
    ensures
        answer_checked(body, false, openai, formatted) == (body, None::<Seq<char>>),
        answer_checked(body, true, true, formatted) == (formatted, Some(formatted)),
        answer_checked(body, true, false, formatted) == (body, Some(body)),
{
}

} // verus!
