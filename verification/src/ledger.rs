//! What the log records of a request: what it cost, what was charged in
//! advance, and how that came about.
use vstd::prelude::*;
use vstd::string::*;
use crate::attempt::{Deposit, Failure, Kind};
use crate::double::Double;
use crate::json::{opt_string, opt_text};
use crate::relay_image::{freeze_note, note_freeze};
use crate::relay_video::{also_noted, video_note};
use crate::usage::UsageTokens;

verus! {

/// What is recorded of a request that succeeded.
pub struct Entry {
    pub prompt_tokens: i32,
    pub completion_tokens: i32,
    pub cached_tokens: i32,
    pub cost: Double,
    pub deposit: Deposit,
    pub status_code: u16,
    pub billing_detail: String,
}

/// Whether an entry is that of a task whose cost is settled later: it holds no
/// tokens, and what was charged in advance as its cost.
pub open spec fn is_frozen(e: Entry, deposit: Deposit, detail: Seq<char>) -> bool {
    &&& e.prompt_tokens == 0 && e.completion_tokens == 0 && e.cached_tokens == 0
    &&& e.cost == deposit.amount
    &&& e.deposit == deposit
    &&& e.status_code == 200
    &&& e.billing_detail@ == detail
}

fn frozen(deposit: Deposit, detail: String) -> (r: Entry)
    ensures
        is_frozen(r, deposit, detail@),
{
    Entry {
        prompt_tokens: 0,
        completion_tokens: 0,
        cached_tokens: 0,
        cost: deposit.amount,
        deposit,
        status_code: 200,
        billing_detail: detail,
    }
}

/// Records an image task whose cost is settled later.
pub fn freeze_image(deposit: Deposit) -> (r: Entry)
    ensures
        is_frozen(r, deposit, freeze_note(deposit.amount.is_positive())),
{
    frozen(deposit, note_freeze(deposit.amount.positive()).to_owned())
}

/// Records a video task, whose cost is always settled later, with what was
/// converted and how its model was mapped.
pub fn freeze_video(deposit: Deposit, conversion: Option<&str>, mapping: Option<&str>) -> (r: Entry)
    ensures
        is_frozen(
            r,
            deposit,
            also_noted(
                also_noted(freeze_note(deposit.amount.is_positive()), opt_text(conversion)),
                opt_text(mapping),
            ),
        ),
{
    frozen(deposit, video_note(deposit.amount.positive(), conversion, mapping))
}

/// Records a request whose cost is known. Images have no cached tokens.
pub fn settle(kind: Kind, u: &UsageTokens, cost: Double, deposit: Deposit, detail: &str) -> (r:
    Entry)
    ensures
        r.prompt_tokens == u.prompt,
        r.completion_tokens == u.completion,
        r.cached_tokens == if kind == Kind::Image {
            0
        } else {
            u.cached
        },
        r.cost == cost,
        r.deposit == deposit,
        r.status_code == 200,
        r.billing_detail@ == detail@,
{
    Entry {
        prompt_tokens: u.prompt,
        completion_tokens: u.completion,
        cached_tokens: if kind == Kind::Image {
            0
        } else {
            u.cached
        },
        cost,
        deposit,
        status_code: 200,
        billing_detail: detail.to_owned(),
    }
}

/// What is noted of a failure. Behind the charge it says whether something was
/// given back; before it, what was converted for a video.
pub open spec fn failure_note(
    kind: Kind,
    failure: Failure,
    refunded: bool,
    conversion: Option<Seq<char>>,
) -> Option<Seq<char>> {
    match failure {
        Failure::TaskFailed => Some(
            if refunded {
                "同步轮询任务失败，预扣费已退回"@
            } else {
                "同步轮询任务失败"@
            },
        ),
        Failure::TaskTimedOut => Some(
            if refunded {
                "同步轮询超时，预扣费已退回"@
            } else {
                "同步轮询超时"@
            },
        ),
        Failure::NoImage => Some(
            if refunded {
                "同步空响应，预扣费已退回"@
            } else {
                "同步空响应"@
            },
        ),
        Failure::Business => if kind == Kind::Image || kind == Kind::Video {
            Some("请求失败"@)
        } else {
            None
        },
        Failure::Transport | Failure::Status => if kind == Kind::Video {
            conversion
        } else {
            None
        },
        _ => None,
    }
}

fn either(b: bool, x: &'static str, y: &'static str) -> (r: Option<String>)
    ensures
        opt_string(r) == Some(
            if b {
                x@
            } else {
                y@
            },
        ),
{
    if b {
        Some(x.to_owned())
    } else {
        Some(y.to_owned())
    }
}

/// Notes a failure, given what is given back.
pub fn note_failure(
    kind: Kind,
    failure: Failure,
    refund: Option<Deposit>,
    conversion: Option<&str>,
) -> (r: Option<String>)
    ensures
        opt_string(r) == failure_note(
            kind,
            failure,
            refund is Some && refund->Some_0.amount.is_positive(),
            opt_text(conversion),
        ),
{
    let refunded = match refund {
        Some(d) => d.amount.positive(),
        None => false,
    };
    match failure {
        Failure::TaskFailed => either(
            refunded,
            "同步轮询任务失败，预扣费已退回",
            "同步轮询任务失败",
        ),
        Failure::TaskTimedOut => either(refunded, "同步轮询超时，预扣费已退回", "同步轮询超时"),
        Failure::NoImage => either(refunded, "同步空响应，预扣费已退回", "同步空响应"),
        Failure::Business => match kind {
            Kind::Image | Kind::Video => Some("请求失败".to_owned()),
            _ => None,
        },
        Failure::Transport | Failure::Status => match (kind, conversion) {
            (Kind::Video, Some(s)) => Some(s.to_owned()),
            _ => None,
        },
        _ => None,
    }
}

} // verus!
