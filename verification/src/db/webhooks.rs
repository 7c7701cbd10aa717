//! Webhooks, deliveries and delivery attempts.

use vstd::prelude::*;
use crate::text::{chars_contain, chars_of, contains_seq, push_chars};

verus! {

#[derive(Debug, Clone)]
pub struct WebhookRow {
    pub id: String,
    pub repository_id: String,
    pub url: String,
    pub secret: String,
    pub active: bool,
    pub events: String,
    pub name: String,
    pub created_by: String,
    pub created_at: String,
    pub updated_at: String,
}

#[derive(Debug, Clone)]
pub struct WebhookDeliveryRow {
    pub id: String,
    pub webhook_id: String,
    pub delivery_guid: String,
    pub event: String,
    pub action: String,
    pub payload_json: String,
    pub status: String,
    pub next_attempt_at: Option<String>,
    pub attempt_count: i64,
    pub created_at: String,
}

#[derive(Debug, Clone)]
pub struct WebhookDeliveryAttemptRow {
    pub id: String,
    pub delivery_id: String,
    pub attempt_number: i64,
    pub attempted_at: String,
    pub http_status: Option<i32>,
    pub error_message: Option<String>,
    pub duration_ms: Option<i64>,
    pub response_snippet: Option<String>,
}


/// The text an event's name appears as inside a hook's JSON array of event names.
pub open spec fn quoted(event: Seq<char>) -> Seq<char> {
    "\""@ + event + "\""@
}

/// Whether a hook with the given state and event list receives `event`: it is active, and its
/// event list names `event` or the wildcard `*`.
pub open spec fn receives(active: bool, events: Seq<char>, event: Seq<char>) -> bool {
    active && (contains_seq(events, quoted(event)) || contains_seq(events, quoted("*"@)))
}

/// The hooks of `hooks` that receive `event`, in the order they are given.
pub open spec fn receivers(hooks: Seq<WebhookRow>, event: Seq<char>) -> Seq<WebhookRow>
    decreases hooks.len(),
{
    if hooks.len() == 0 {
        Seq::empty()
    } else {
        let rest = receivers(hooks.drop_last(), event);
        let h = hooks.last();
        if receives(h.active, h.events@, event) {
            rest.push(h)
        } else {
            rest
        }
    }
}

/// Whether `hook` receives `event`.
pub fn hook_receives(hook: &WebhookRow, event: &str) -> (b: bool)
    ensures
        b == receives(hook.active, hook.events@, event@),
        b ==> hook.active,
        hook.active && contains_seq(hook.events@, "\""@ + event@ + "\""@) ==> b,
        hook.active && contains_seq(hook.events@, "\"*\""@) ==> b,
{
    proof {
        lemma_only_active_hooks_receive(hook.active, hook.events@, event@);
    }
    if !hook.active {
        return false;
    }
    let events = chars_of(hook.events.as_str());
    let mut needle = String::from_str("\"");
    push_chars(&mut needle, &chars_of(event));
    push_chars(&mut needle, &chars_of("\""));
    let mut wildcard = String::from_str("\"");
    push_chars(&mut wildcard, &chars_of("*"));
    push_chars(&mut wildcard, &chars_of("\""));
    chars_contain(&events, &chars_of(needle.as_str())) || chars_contain(
        &events,
        &chars_of(wildcard.as_str()),
    )
}

/// The active hooks that receive `event` (events stored as a JSON array of names, `*` for
/// every event), in the order given.
pub fn active_for_event(hooks: Vec<WebhookRow>, event: &str) -> (r: Vec<WebhookRow>)
    ensures
        r@ == receivers(hooks@, event@),
        forall|i: int| 0 <= i < r@.len() ==> (#[trigger] r@[i]).active,
        r@.len() <= hooks@.len(),
{
    proof {
        lemma_receivers_are_active(hooks@, event@);
    }
    let ghost all = hooks@;
    let mut out: Vec<WebhookRow> = Vec::new();
    for h in it: hooks.into_iter()
        invariant
            all == it.seq(),
            out@ == receivers(all.take(it.index()), event@),
    {
        let ghost k = it.index();
        proof {
            assert(all.take(k + 1).drop_last() =~= all.take(k));
        }
        let keep = hook_receives(&h, event);
        if keep {
            out.push(h);
        }
    }
    assert(all.take(all.len() as int) =~= all);
    out
}

/// The values an update writes: each field given replaces the current one, each field
/// omitted keeps its current value.
#[derive(Debug, Clone, Copy)]
pub struct WebhookUpdate<'a> {
    pub url: &'a str,
    pub secret: &'a str,
    pub active: bool,
    pub events_json: &'a str,
    pub name: &'a str,
}

/// Merges an update into the current hook: given fields win, omitted ones keep their value.
pub fn merge_update<'a>(
    current: &'a WebhookRow,
    url: Option<&'a str>,
    secret: Option<&'a str>,
    active: Option<bool>,
    events_json: Option<&'a str>,
    name: Option<&'a str>,
) -> (r: WebhookUpdate<'a>)
    ensures
        r.url@ == (match url { Some(v) => v@, None => current.url@ }),
        r.secret@ == (match secret { Some(v) => v@, None => current.secret@ }),
        r.active == (match active { Some(v) => v, None => current.active }),
        r.events_json@ == (match events_json { Some(v) => v@, None => current.events@ }),
        r.name@ == (match name { Some(v) => v@, None => current.name@ }),
{
    WebhookUpdate {
        url: match url {
            Some(v) => v,
            None => current.url.as_str(),
        },
        secret: match secret {
            Some(v) => v,
            None => current.secret.as_str(),
        },
        active: match active {
            Some(v) => v,
            None => current.active,
        },
        events_json: match events_json {
            Some(v) => v,
            None => current.events.as_str(),
        },
        name: match name {
            Some(v) => v,
            None => current.name.as_str(),
        },
    }
}


/// Number of deliveries a listing returns for a requested `limit`: between 1 and 100.
pub open spec fn spec_delivery_limit(limit: int) -> int {
    if limit < 1 {
        1
    } else if limit > 100 {
        100
    } else {
        limit
    }
}

/// The page size of a delivery listing: `limit` held between 1 and 100.
pub fn delivery_list_limit(limit: i64) -> (r: i64)
    ensures
        r == spec_delivery_limit(limit as int),
        1 <= r <= 100,
        1 <= limit <= 100 ==> r == limit,
        limit > 100 ==> r == 100,
        limit < 1 ==> r == 1,
{
    if limit < 1 {
        1
    } else if limit > 100 {
        100
    } else {
        limit
    }
}

/// Only an active hook receives events; an active hook receives every event its list names,
/// and every event when its list holds the wildcard `"*"`.
pub proof fn lemma_only_active_hooks_receive(active: bool, events: Seq<char>, event: Seq<char>)
    ensures
        receives(active, events, event) ==> active,
        active && contains_seq(events, "\""@ + event + "\""@) ==> receives(active, events, event),
        active && contains_seq(events, "\"*\""@) ==> receives(active, events, event),
{
    reveal_strlit("\"");
    reveal_strlit("*");
    reveal_strlit("\"*\"");
    assert(quoted("*"@) =~= "\"*\""@);
}

/// Every hook an event is routed to is active, and routing never adds hooks.
pub proof fn lemma_receivers_are_active(hooks: Seq<WebhookRow>, event: Seq<char>)
    ensures
        forall|i: int| 0 <= i < receivers(hooks, event).len()
            ==> (#[trigger] receivers(hooks, event)[i]).active,
        receivers(hooks, event).len() <= hooks.len(),
    decreases hooks.len(),
{
    if hooks.len() > 0 {
        lemma_receivers_are_active(hooks.drop_last(), event);
        let h = hooks.last();
        lemma_only_active_hooks_receive(h.active, h.events@, event);
    }
}

/// A hook is selected for an event exactly when it is one of the hooks and receives the event;
/// in particular an inactive hook is never selected.
pub proof fn lemma_receivers_exact(hooks: Seq<WebhookRow>, event: Seq<char>)
    ensures
        forall|h: WebhookRow|
            #![trigger receivers(hooks, event).contains(h)]
            receivers(hooks, event).contains(h) <==> (hooks.contains(h) && receives(
                h.active,
                h.events@,
                event,
            )),
    decreases hooks.len(),
{
    if hooks.len() > 0 {
        let init = hooks.drop_last();
        lemma_receivers_exact(init, event);
        assert(hooks =~= init.push(hooks.last()));
        assert forall|h: WebhookRow|
            receivers(hooks, event).contains(h) <==> (hooks.contains(h) && receives(
                h.active,
                h.events@,
                event,
            )) by {
            let rest = receivers(init, event);
            let last = hooks.last();
            assert(hooks.drop_last() =~= init);
            if receives(last.active, last.events@, event) {
                assert(receivers(hooks, event) == rest.push(last));
                if rest.push(last).contains(h) {
                    let i = choose|i: int| 0 <= i < rest.push(last).len() && rest.push(last)[i] == h;
                    if i < rest.len() {
                        assert(rest[i] == h);
                    }
                }
                if rest.contains(h) {
                    let i = choose|i: int| 0 <= i < rest.len() && rest[i] == h;
                    assert(rest.push(last)[i] == h);
                }
                assert(rest.push(last)[rest.len() as int] == last);
            } else {
                assert(receivers(hooks, event) == rest);
            }
            assert(hooks[hooks.len() - 1] == last);
            if hooks.contains(h) {
                let i = choose|i: int| 0 <= i < hooks.len() && hooks[i] == h;
                if i < hooks.len() - 1 {
                    assert(init[i] == h);
                }
            }
            if init.contains(h) {
                let i = choose|i: int| 0 <= i < init.len() && init[i] == h;
                assert(hooks[i] == h);
            }
        }
    }
}

} // verus!
