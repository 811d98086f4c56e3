use vstd::prelude::*;

use crate::diagnostic::{DgnPublisher, merge_all};
use crate::error::MiddlewareError;
use crate::json::{Json, JsonView, entries_view, json_get, lemma_object_view};
use crate::lsp::ServerMessage;
use crate::msg::{LspMessage, MessageView, merge_message};
use crate::text::str_eq;
use crate::tracker::{Tracker, TrackerView, strings_view};

verus! {

/// Where a message of the client goes.
pub struct ClientRouting {
    /// The message, to be sent to each target.
    pub message: LspMessage,
    /// The servers it goes to, each once.
    pub targets: Vec<String>,
    /// The running diagnostics task must be aborted.
    pub abort_diagnostics: bool,
}

/// What to do with a message of a server.
pub enum ServerAction {
    /// Nothing more.
    Nothing,
    /// Send this message to the client.
    SendToClient(LspMessage),
    /// Send this request of the server `requester` to the client; once it
    /// is sent, `request_sent_to_client` records where the reply goes.
    ForwardRequest { message: LspMessage, requester: String },
    /// Hand these diagnostics to the running diagnostics task.
    PushDiagnostics(LspMessage),
    /// Start a diagnostics task from this notification, waiting for
    /// `outstanding` more; abort the previous task first when asked.
    SpawnDiagnostics { message: LspMessage, abort_previous: bool, outstanding: usize },
}

/// The tracker after the request `id` went to each of `targets`, in order.
pub open spec fn issue_all(v: TrackerView, id: i32, targets: Seq<Seq<char>>) -> TrackerView
    decreases targets.len(),
{
    if targets.len() == 0 {
        v
    } else {
        issue_all(v, id, targets.drop_last()).client_issued_request(id, targets.last())
    }
}

/// The tracker after `server` announced each of the capabilities `caps`,
/// in order.
pub open spec fn register_all(v: TrackerView, caps: Seq<Seq<char>>, server: Seq<char>) -> TrackerView
    decreases caps.len(),
{
    if caps.len() == 0 {
        v
    } else {
        register_all(v, caps.drop_last(), server).register_capability(caps.last(), server)
    }
}

/// The capabilities that a server announces in its reply to the request
/// with id 1 (the `initialize` request): the keys of the object under
/// `result` then `capabilities`, in order.
pub open spec fn announced_caps(id: i32, value: JsonView) -> Seq<Seq<char>> {
    if id == 1 {
        match json_get(value, "result"@) {
            Some(res) => match json_get(res, "capabilities"@) {
                Some(JsonView::Object(c)) => c.map_values(|p: (Seq<char>, JsonView)| p.0),
                _ => Seq::empty(),
            },
            None => Seq::empty(),
        }
    } else {
        Seq::empty()
    }
}

/// The message method that makes the diagnostics outdated.
pub open spec fn did_change() -> Seq<char> {
    "textDocument/didChange"@
}

/// The notification method that carries diagnostics.
pub open spec fn publish_diagnostics() -> Seq<char> {
    "textDocument/publishDiagnostics"@
}

/// Decides where a message of the client goes, and records what that
/// implies. A reply goes back to the server that asked, when it is still
/// known; a request goes to the servers capable of its method (each one's
/// reply is awaited once the request is sent to it, see
/// `client_msg_sent`); a notification goes to every server, and a
/// change of a document drops the diagnostics collected so far. A closed
/// client channel is an error.
pub fn handle_client_msg(
    maybe_msg: Option<LspMessage>,
    servers: &Vec<String>,
    diagnostic_tracker: &mut DgnPublisher,
    tracker: &mut Tracker,
) -> (r: Result<ClientRouting, MiddlewareError>)
    requires
        old(tracker)@.wf(),
        strings_view(servers@).no_duplicates(),
    ensures
        final(tracker)@.wf(),
        match maybe_msg {
            None => {
                &&& r == Err::<ClientRouting, MiddlewareError>(MiddlewareError::ClientFail)
                &&& final(tracker)@ == old(tracker)@
                &&& *final(diagnostic_tracker) == *old(diagnostic_tracker)
            },
            Some(m) => r matches Ok(routing) && routing.message@ == m@ && strings_view(
                routing.targets@,
            ).no_duplicates() && match m@ {
                MessageView::Result(id, _, _) => {
                    let (after, target) = old(tracker)@.client_responded(id);
                    &&& final(tracker)@ == after
                    &&& strings_view(routing.targets@) == match target {
                        Some(t) => if strings_view(servers@).contains(t) {
                            seq![t]
                        } else {
                            Seq::empty()
                        },
                        None => Seq::empty(),
                    }
                    &&& !routing.abort_diagnostics
                    &&& *final(diagnostic_tracker) == *old(diagnostic_tracker)
                },
                MessageView::Request(id, method, _) => {
                    &&& strings_view(routing.targets@).to_set() == old(tracker)@.capable_servers(
                        method,
                        strings_view(servers@),
                    )
                    &&& final(tracker)@ == old(tracker)@
                    &&& !routing.abort_diagnostics
                    &&& *final(diagnostic_tracker) == *old(diagnostic_tracker)
                },
                MessageView::Notification(method, _) => {
                    &&& strings_view(routing.targets@) == strings_view(servers@)
                    &&& final(tracker)@ == old(tracker)@
                    &&& if method == did_change() {
                        &&& routing.abort_diagnostics == old(diagnostic_tracker).submit_diagnostics
                        &&& !final(diagnostic_tracker).submit_diagnostics
                        &&& final(diagnostic_tracker).merged_diagnostics is None
                        &&& final(diagnostic_tracker).num_servers == old(
                            diagnostic_tracker,
                        ).num_servers
                    } else {
                        &&& !routing.abort_diagnostics
                        &&& *final(diagnostic_tracker) == *old(diagnostic_tracker)
                    }
                },
            },
        },
{
    match maybe_msg {
        Some(client_msg) => {
            let ghost mv = client_msg@;
            let mut targets: Vec<String> = Vec::new();
            let mut abort_diagnostics = false;
            match &client_msg {
                LspMessage::Result(id, _method, _value) => {
                    if let Some(target_server) = tracker.client_responded(*id) {
                        let ghost t = target_server@;
                        let mut i: usize = 0;
                        while i < servers.len()
                            invariant_except_break
                                i <= servers.len(),
                                targets@.len() == 0,
                                forall|j: int| 0 <= j < i ==> servers@[j]@ != t,
                            invariant
                                target_server@ == t,
                            ensures
                                (targets@.len() == 0 && forall|j: int|
                                    0 <= j < servers@.len() ==> servers@[j]@ != t) || (
                                targets@.len() == 1 && targets@[0]@ == t && strings_view(
                                    servers@,
                                ).contains(t)),
                            decreases servers.len() - i,
                        {
                            if str_eq(target_server.as_str(), servers[i].as_str()) {
                                assert(strings_view(servers@)[i as int] == servers@[i as int]@);
                                targets.push(target_server.clone());
                                break;
                            }
                            i = i + 1;
                        }
                        proof {
                            if targets.len() == 0 && strings_view(servers@).contains(t) {
                                let j = choose|j: int|
                                    0 <= j < servers@.len() && strings_view(servers@)[j] == t;
                                assert(servers@[j]@ == t);
                            }
                        }
                        assert(strings_view(targets@) =~= if strings_view(servers@).contains(t) {
                            seq![t]
                        } else {
                            Seq::<Seq<char>>::empty()
                        });
                    } else {
                        assert(strings_view(targets@) =~= Seq::<Seq<char>>::empty());
                    }
                },
                LspMessage::Request(id, method, _value) => {
                    targets = tracker.get_capable_servers(method.as_str(), servers);
                },
                LspMessage::Notification(method, _value) => {
                    if str_eq(method.as_str(), "textDocument/didChange") {
                        abort_diagnostics = diagnostic_tracker.reset();
                    }
                    let mut i: usize = 0;
                    while i < servers.len()
                        invariant
                            i <= servers.len(),
                            targets.len() == i,
                            forall|j: int| 0 <= j < i ==> #[trigger] targets@[j]@ == servers@[j]@,
                        decreases servers.len() - i,
                    {
                        targets.push(servers[i].clone());
                        i = i + 1;
                    }
                    assert(strings_view(targets@) =~= strings_view(servers@));
                },
            }
            Ok(ClientRouting { message: client_msg, targets, abort_diagnostics })
        },
        None => Err(MiddlewareError::ClientFail),
    }
}

/// Records what sending a message of the client to `target` implies: the
/// reply of `target` to a request is now awaited. Called once the send
/// succeeded.
pub fn client_msg_sent(message: &LspMessage, target: &String, tracker: &mut Tracker)
    requires
        old(tracker)@.wf(),
    ensures
        final(tracker)@.wf(),
        match message@ {
            MessageView::Request(id, _, _) => final(tracker)@ == old(tracker)@.client_issued_request(
                id,
                target@,
            ),
            _ => final(tracker)@ == old(tracker)@,
        },
{
    match message {
        LspMessage::Request(id, _, _) => tracker.client_issued_request(*id, target.clone()),
        _ => {},
    }
}

/// Records what forwarding a request of the server `requester` to the
/// client implies: the client's reply goes back to `requester`. Called
/// once the send succeeded.
pub fn request_sent_to_client(message: &LspMessage, requester: String, tracker: &mut Tracker)
    requires
        old(tracker)@.wf(),
    ensures
        final(tracker)@.wf(),
        match message@ {
            MessageView::Request(id, _, _) => final(tracker)@ == old(tracker)@.server_issued_request(
                requester@,
                id,
            ),
            _ => final(tracker)@ == old(tracker)@,
        },
{
    match message {
        LspMessage::Request(id, _, _) => tracker.server_issued_request(requester, *id),
        _ => {},
    }
}

/// Decides what a message of a server leads to, and records what it
/// implies. A reply is merged with the other replies to the same request
/// and, once every server it went to has replied, the merged reply goes
/// to the client; a reply to the `initialize` request (id 1) also
/// records the capabilities the server announces. A request of a server
/// goes to the client (once sent, `request_sent_to_client` records that
/// the client's reply goes back to that server). Diagnostics go to the running diagnostics task, or start a new
/// one when none is running; any other notification goes to the client.
/// A closed channel from the servers is an error.
pub fn handle_server_msg(
    maybe_msg: Option<ServerMessage>,
    task_finished: bool,
    diagnostic_tracker: &mut DgnPublisher,
    sbrd: &mut Tracker,
) -> (r: Result<ServerAction, MiddlewareError>)
    requires
        old(sbrd)@.wf(),
        // a new diagnostics task waits for one notification from each other server
        maybe_msg matches Some(sm) && sm.content@ matches MessageView::Notification(m, _) && m
            == publish_diagnostics() && !(old(diagnostic_tracker).submit_diagnostics
            && !task_finished) ==> old(diagnostic_tracker).num_servers >= 1,
    ensures
        final(sbrd)@.wf(),
        final(diagnostic_tracker).num_servers == old(diagnostic_tracker).num_servers,
        match maybe_msg {
            None => {
                &&& r == Err::<ServerAction, MiddlewareError>(MiddlewareError::LspCommFail)
                &&& final(sbrd)@ == old(sbrd)@
                &&& *final(diagnostic_tracker) == *old(diagnostic_tracker)
            },
            Some(sm) => {
                let server = sm.server_name@;
                let content = sm.content@;
                match content {
                    MessageView::Result(id, _, value) => {
                        let v1 = register_all(old(sbrd)@, announced_caps(id, value), server);
                        let v2 = v1.server_responded(id, server, content);
                        &&& *final(diagnostic_tracker) == *old(diagnostic_tracker)
                        &&& if v2.all_servers_replied(id) {
                            let (v3, merged) = v2.take_merged(id);
                            &&& final(sbrd)@ == v3
                            &&& match merged {
                                Some(m) => r matches Ok(ServerAction::SendToClient(x)) && x@ == m,
                                None => r == Err::<ServerAction, MiddlewareError>(
                                    MiddlewareError::SendToClientFail,
                                ),
                            }
                        } else {
                            &&& final(sbrd)@ == v2
                            &&& r matches Ok(ServerAction::Nothing)
                        }
                    },
                    MessageView::Request(_, _, _) => {
                        &&& r matches Ok(ServerAction::ForwardRequest { message, requester })
                            && message@ == content && requester@ == server
                        &&& final(sbrd)@ == old(sbrd)@
                        &&& *final(diagnostic_tracker) == *old(diagnostic_tracker)
                    },
                    MessageView::Notification(method, _) => {
                        &&& final(sbrd)@ == old(sbrd)@
                        &&& if method != publish_diagnostics() {
                            &&& r matches Ok(ServerAction::SendToClient(x)) && x@ == content
                            &&& *final(diagnostic_tracker) == *old(diagnostic_tracker)
                        } else if old(diagnostic_tracker).submit_diagnostics && !task_finished {
                            &&& r matches Ok(ServerAction::PushDiagnostics(x)) && x@ == content
                            &&& *final(diagnostic_tracker) == *old(diagnostic_tracker)
                        } else {
                            &&& r matches Ok(
                                ServerAction::SpawnDiagnostics { message, abort_previous, outstanding },
                            ) && message@ == content && abort_previous == old(
                                diagnostic_tracker,
                            ).submit_diagnostics && outstanding == old(diagnostic_tracker).num_servers
                                - 1
                            &&& final(diagnostic_tracker).submit_diagnostics
                            &&& final(diagnostic_tracker).merged_diagnostics is None
                        }
                    },
                }
            },
        },
{
    match maybe_msg {
        Some(server_msg) => {
            let ServerMessage { server_name, content } = server_msg;
            match content {
                LspMessage::Result(id, method, value) => {
                    let ghost before = sbrd@;
                    let ghost caps = announced_caps(id, value@);
                    if id == 1 {
                        match value.get("result") {
                            Some(res) => match res.get("capabilities") {
                                Some(Json::Object(members)) => {
                                    proof {
                                        lemma_object_view(*members);
                                    }
                                    assert(caps =~= entries_view(members@).map_values(
                                        |p: (Seq<char>, JsonView)| p.0,
                                    ));
                                    let n = members.len();
                                    let mut i: usize = 0;
                                    assert(caps.subrange(0, 0) =~= Seq::<Seq<char>>::empty());
                                    while i < n
                                        invariant
                                            i <= n == members.len() == caps.len(),
                                            forall|j: int| 0 <= j < n ==> caps[j] == #[trigger] members@[j].0@,
                                            sbrd@.wf(),
                                            sbrd@ == register_all(
                                                before,
                                                caps.subrange(0, i as int),
                                                server_name@,
                                            ),
                                        decreases n - i,
                                    {
                                        let ghost prev = sbrd@;
                                        sbrd.register_capability(
                                            members[i].0.as_str(),
                                            server_name.clone(),
                                        );
                                        assert(caps[i as int] == members@[i as int].0@);
                                        i = i + 1;
                                        assert(caps.subrange(0, i as int).drop_last() =~= caps.subrange(
                                            0,
                                            i - 1,
                                        ));
                                        assert forall|k: i32| #[trigger]
                                            sbrd@.awaiting.contains_key(k) implies sbrd@.awaiting[k].finite() by {
                                            assert(prev.awaiting.contains_key(k));
                                        }
                                    }
                                    assert(caps.subrange(0, n as int) =~= caps);
                                },
                                _ => {},
                            },
                            None => {},
                        }
                    }
                    let content = LspMessage::Result(id, method, value);
                    // remove the server from the response tracker
                    sbrd.server_responded(id, &server_name, content);
                    // once every server replied, the merged reply goes out
                    if sbrd.all_servers_replied(id) {
                        match sbrd.get_merged_response(id) {
                            Some(response) => Ok(ServerAction::SendToClient(response)),
                            None => Err(MiddlewareError::SendToClientFail),
                        }
                    } else {
                        Ok(ServerAction::Nothing)
                    }
                },
                LspMessage::Request(id, method, value) => {
                    Ok(
                        ServerAction::ForwardRequest {
                            message: LspMessage::Request(id, method, value),
                            requester: server_name,
                        },
                    )
                },
                LspMessage::Notification(method, value) => {
                    if str_eq(method.as_str(), "textDocument/publishDiagnostics") {
                        if diagnostic_tracker.submit_diagnostics && !task_finished {
                            Ok(ServerAction::PushDiagnostics(LspMessage::Notification(method, value)))
                        } else {
                            let spawn = diagnostic_tracker.spawn_diagnostic_tracker();
                            Ok(
                                ServerAction::SpawnDiagnostics {
                                    message: LspMessage::Notification(method, value),
                                    abort_previous: spawn.abort_previous,
                                    outstanding: spawn.outstanding,
                                },
                            )
                        }
                    } else {
                        Ok(ServerAction::SendToClient(LspMessage::Notification(method, value)))
                    }
                },
            }
        },
        None => Err(MiddlewareError::LspCommFail),
    }
}

// ----- laws ----------------------------------------------------------------

/// The tracker after the servers `servers` replied `msgs` to the request
/// `id`, in order.
pub open spec fn respond_all(
    v: TrackerView,
    id: i32,
    servers: Seq<Seq<char>>,
    msgs: Seq<MessageView>,
) -> TrackerView
    decreases servers.len(),
{
    if servers.len() == 0 || msgs.len() == 0 {
        v
    } else {
        respond_all(v, id, servers.drop_last(), msgs.drop_last()).server_responded(
            id,
            servers.last(),
            msgs.last(),
        )
    }
}

proof fn lemma_issue_all_fresh(v: TrackerView, id: i32, targets: Seq<Seq<char>>)
    requires
        v.wf(),
        !v.awaiting.contains_key(id),
        targets.len() > 0,
    ensures
        issue_all(v, id, targets).wf(),
        issue_all(v, id, targets).awaiting.contains_key(id),
        issue_all(v, id, targets).awaiting[id] == targets.to_set(),
        issue_all(v, id, targets).merged == v.merged,
        forall|k: i32|
            k != id ==> (#[trigger] issue_all(v, id, targets).awaiting.contains_key(k)
                == v.awaiting.contains_key(k)),
    decreases targets.len(),
{
    let t0 = targets.drop_last();
    let x = targets.last();
    assert(targets =~= t0.push(x));
    t0.lemma_push_to_set_commute(x);
    if t0.len() == 0 {
        assert(t0.to_set() =~= Set::<Seq<char>>::empty());
    } else {
        lemma_issue_all_fresh(v, id, t0);
    }
    let u = issue_all(v, id, t0);
    assert(u.wf()) by {
        if t0.len() == 0 {
            assert(u == v);
        }
    }
    let w = u.client_issued_request(id, x);
    assert forall|k: i32| #[trigger] w.awaiting.contains_key(k) implies w.awaiting[k].finite() by {
        if k != id {
            assert(u.awaiting.contains_key(k));
        } else {
            vstd::seq_lib::seq_to_set_is_finite(targets);
        }
    }
}

proof fn lemma_merge_all_snoc(first: MessageView, more: Seq<MessageView>, x: MessageView)
    ensures
        merge_all(first, more.push(x)) == merge_message(merge_all(first, more), x),
    decreases more.len(),
{
    if more.len() > 0 {
        let rest = more.subrange(1, more.len() as int);
        assert(more.push(x).subrange(1, more.len() as int + 1) =~= rest.push(x));
        assert(more.push(x)[0] == more[0]);
        lemma_merge_all_snoc(merge_message(first, more[0]), rest, x);
    } else {
        assert(more.push(x).subrange(1, 1) =~= Seq::<MessageView>::empty());
        assert(more.push(x)[0] == x);
        assert(merge_all(merge_message(first, x), Seq::<MessageView>::empty()) == merge_message(first, x));
    }
}

proof fn lemma_respond_prefix(
    w: TrackerView,
    id: i32,
    servers: Seq<Seq<char>>,
    msgs: Seq<MessageView>,
    k: int,
)
    requires
        w.awaiting.contains_key(id),
        w.awaiting[id] == servers.to_set(),
        !w.merged.contains_key(id),
        servers.len() == msgs.len(),
        0 <= k <= servers.len(),
    ensures
        respond_all(w, id, servers.take(k), msgs.take(k)).awaiting.contains_key(id),
        respond_all(w, id, servers.take(k), msgs.take(k)).awaiting[id] == servers.to_set().difference(
            servers.take(k).to_set(),
        ),
        respond_all(w, id, servers.take(k), msgs.take(k)).awaiting.dom() == w.awaiting.dom(),
        forall|j: i32|
            j != id && #[trigger] w.awaiting.contains_key(j) ==> respond_all(
                w,
                id,
                servers.take(k),
                msgs.take(k),
            ).awaiting[j] == w.awaiting[j],
        k == 0 ==> !respond_all(w, id, servers.take(k), msgs.take(k)).merged.contains_key(id),
        k > 0 ==> respond_all(w, id, servers.take(k), msgs.take(k)).merged.contains_key(id)
            && respond_all(w, id, servers.take(k), msgs.take(k)).merged[id] == merge_all(
            msgs[0],
            msgs.subrange(1, k),
        ),
    decreases k,
{
    if k == 0 {
        assert(servers.take(0).to_set() =~= Set::<Seq<char>>::empty());
        assert(servers.to_set().difference(Set::<Seq<char>>::empty()) =~= servers.to_set());
    } else {
        lemma_respond_prefix(w, id, servers, msgs, k - 1);
        let sk = servers.take(k);
        let mk = msgs.take(k);
        assert(sk.drop_last() =~= servers.take(k - 1));
        assert(mk.drop_last() =~= msgs.take(k - 1));
        assert(sk.last() == servers[k - 1]);
        assert(mk.last() == msgs[k - 1]);
        assert(sk =~= servers.take(k - 1).push(servers[k - 1]));
        servers.take(k - 1).lemma_push_to_set_commute(servers[k - 1]);
        let u = respond_all(w, id, servers.take(k - 1), msgs.take(k - 1));
        let r = respond_all(w, id, sk, mk);
        assert(r == u.server_responded(id, servers[k - 1], msgs[k - 1]));
        assert(r.awaiting[id] =~= servers.to_set().difference(sk.to_set()));
        assert(r.awaiting.dom() =~= w.awaiting.dom());
        if k == 1 {
            assert(msgs.subrange(1, 1) =~= Seq::<MessageView>::empty());
        } else {
            assert(msgs.subrange(1, k) =~= msgs.subrange(1, k - 1).push(msgs[k - 1]));
            lemma_merge_all_snoc(msgs[0], msgs.subrange(1, k - 1), msgs[k - 1]);
        }
    }
}

/// A request of the client that went to several servers (a fresh id) is
/// answered once, and only once, each of them has replied; the answer is
/// the first reply merged with the others in the order they arrived.
pub proof fn law_fan_in(v: TrackerView, id: i32, servers: Seq<Seq<char>>, msgs: Seq<MessageView>)
    requires
        v.wf(),
        !v.awaiting.contains_key(id),
        !v.merged.contains_key(id),
        servers.len() == msgs.len(),
        servers.len() > 0,
        servers.no_duplicates(),
    ensures
        forall|k: int|
            0 <= k < servers.len() ==> !(#[trigger] respond_all(
                issue_all(v, id, servers),
                id,
                servers.take(k),
                msgs.take(k),
            )).all_servers_replied(id),
        respond_all(issue_all(v, id, servers), id, servers, msgs).all_servers_replied(id),
        respond_all(issue_all(v, id, servers), id, servers, msgs).take_merged(id).1 == Some(
            merge_all(msgs[0], msgs.drop_first()),
        ),
{
    let w = issue_all(v, id, servers);
    lemma_issue_all_fresh(v, id, servers);
    let n = servers.len() as int;
    vstd::seq_lib::seq_to_set_is_finite(servers);
    assert forall|k: int| 0 <= k < n implies !(#[trigger] respond_all(
        w,
        id,
        servers.take(k),
        msgs.take(k),
    )).all_servers_replied(id) by {
        lemma_respond_prefix(w, id, servers, msgs, k);
        let rest = servers.to_set().difference(servers.take(k).to_set());
        assert(servers.contains(servers[n - 1]));
        assert(!servers.take(k).contains(servers[n - 1])) by {
            if servers.take(k).contains(servers[n - 1]) {
                let j = choose|j: int| 0 <= j < k && servers.take(k)[j] == servers[n - 1];
                assert(servers[j] == servers[n - 1]);
            }
        }
        assert(rest.contains(servers[n - 1]));
        vstd::set::axiom_set_difference_finite(servers.to_set(), servers.take(k).to_set());
        vstd::set_lib::lemma_set_empty_equivalency_len(rest);
    }
    lemma_respond_prefix(w, id, servers, msgs, n);
    assert(servers.take(n) =~= servers);
    assert(msgs.take(n) =~= msgs);
    assert(servers.to_set().difference(servers.to_set()) =~= Set::<Seq<char>>::empty());
    assert(msgs.subrange(1, n) =~= msgs.drop_first());
}

proof fn lemma_respond_awaiting(
    w: TrackerView,
    id: i32,
    repliers: Seq<Seq<char>>,
    msgs: Seq<MessageView>,
)
    requires
        w.awaiting.contains_key(id),
        repliers.len() == msgs.len(),
    ensures
        respond_all(w, id, repliers, msgs).awaiting.dom() == w.awaiting.dom(),
        respond_all(w, id, repliers, msgs).awaiting[id] == w.awaiting[id].difference(
            repliers.to_set(),
        ),
    decreases repliers.len(),
{
    if repliers.len() == 0 {
        assert(repliers.to_set() =~= Set::<Seq<char>>::empty());
        assert(w.awaiting[id].difference(repliers.to_set()) =~= w.awaiting[id]);
    } else {
        let r0 = repliers.drop_last();
        lemma_respond_awaiting(w, id, r0, msgs.drop_last());
        assert(repliers =~= r0.push(repliers.last()));
        r0.lemma_push_to_set_commute(repliers.last());
        let u = respond_all(w, id, r0, msgs.drop_last());
        let x = respond_all(w, id, repliers, msgs);
        assert(x.awaiting[id] =~= w.awaiting[id].difference(repliers.to_set()));
        assert(x.awaiting.dom() =~= w.awaiting.dom());
    }
}

/// A request of the client that went to the servers `servers` (a fresh
/// id) is complete exactly when every one of them is among the servers
/// that replied, whatever the order and whatever else replied; a request
/// that never went to any server is never complete.
pub proof fn law_complete_iff_all_replied(
    v: TrackerView,
    id: i32,
    servers: Seq<Seq<char>>,
    repliers: Seq<Seq<char>>,
    msgs: Seq<MessageView>,
)
    requires
        v.wf(),
        !v.awaiting.contains_key(id),
        servers.len() > 0,
        repliers.len() == msgs.len(),
    ensures
        respond_all(issue_all(v, id, servers), id, repliers, msgs).all_servers_replied(id)
            == servers.to_set().subset_of(repliers.to_set()),
        forall|other: i32|
            other != id && !v.awaiting.contains_key(other) ==> !(#[trigger] respond_all(
                issue_all(v, id, servers),
                id,
                repliers,
                msgs,
            ).all_servers_replied(other)),
{
    let w = issue_all(v, id, servers);
    lemma_issue_all_fresh(v, id, servers);
    lemma_respond_awaiting(w, id, repliers, msgs);
    let d = servers.to_set().difference(repliers.to_set());
    vstd::seq_lib::seq_to_set_is_finite(servers);
    vstd::set::axiom_set_difference_finite(servers.to_set(), repliers.to_set());
    vstd::set_lib::lemma_set_empty_equivalency_len(d);
    if servers.to_set().subset_of(repliers.to_set()) {
        assert(d =~= Set::<Seq<char>>::empty());
    } else {
        let x = choose|x: Seq<char>| servers.to_set().contains(x) && !repliers.to_set().contains(x);
        assert(d.contains(x));
    }
}

proof fn lemma_register_all(t: TrackerView, caps: Seq<Seq<char>>, server: Seq<char>)
    ensures
        forall|j: int|
            0 <= j < caps.len() ==> register_all(t, caps, server).caps.contains_key(#[trigger] caps[j])
                && register_all(t, caps, server).caps[caps[j]].contains(server),
        forall|k: Seq<char>|
            #[trigger] t.caps.contains_key(k) ==> register_all(t, caps, server).caps.contains_key(k)
                && (forall|x: Seq<char>|
                t.caps[k].contains(x) ==> register_all(t, caps, server).caps[k].contains(x)),
    decreases caps.len(),
{
    if caps.len() > 0 {
        let prev = caps.drop_last();
        lemma_register_all(t, prev, server);
        let u = register_all(t, prev, server);
        let r = u.register_capability(caps.last(), server);
        assert(r == register_all(t, caps, server));
        let last = caps.last();
        assert(r.caps[last].contains(server)) by {
            if u.caps.contains_key(last) {
                assert(r.caps[last] == u.caps[last].push(server));
                assert(r.caps[last][u.caps[last].len() as int] == server);
            } else {
                assert(r.caps[last][0] == server);
            }
        }
        assert forall|j: int| 0 <= j < caps.len() implies r.caps.contains_key(#[trigger] caps[j])
            && r.caps[caps[j]].contains(server) by {
            if j < caps.len() - 1 {
                assert(caps[j] == prev[j]);
                let k = caps[j];
                if u.caps.contains_key(k) && u.caps[k].contains(server) && k == last {
                    let m = choose|m: int| 0 <= m < u.caps[k].len() && u.caps[k][m] == server;
                    assert(r.caps[k][m] == server);
                }
            }
        }
        assert forall|k: Seq<char>| #[trigger] t.caps.contains_key(k) implies r.caps.contains_key(k)
            && (forall|x: Seq<char>| t.caps[k].contains(x) ==> r.caps[k].contains(x)) by {
            assert forall|x: Seq<char>| t.caps[k].contains(x) implies r.caps[k].contains(x) by {
                assert(u.caps[k].contains(x));
                if k == last {
                    let m = choose|m: int| 0 <= m < u.caps[k].len() && u.caps[k][m] == x;
                    assert(r.caps[k][m] == x);
                }
            }
        }
    }
}

/// A server's reply to the `initialize` request (id 1) records the server
/// as capable of every capability listed under `result.capabilities`,
/// keeping what was recorded before; a reply to any other request records
/// no capability.
pub proof fn law_initialize_records_every_capability(
    t: TrackerView,
    id: i32,
    value: JsonView,
    server: Seq<char>,
    listed: Seq<(Seq<char>, JsonView)>,
    i: int,
)
    ensures
        id != 1 ==> register_all(t, announced_caps(id, value), server) == t,
        id == 1 && (json_get(value, "result"@) matches Some(res) && json_get(res, "capabilities"@)
            == Some(JsonView::Object(listed))) && 0 <= i < listed.len() ==> register_all(
            t,
            announced_caps(id, value),
            server,
        ).caps.contains_key(listed[i].0) && register_all(
            t,
            announced_caps(id, value),
            server,
        ).caps[listed[i].0].contains(server),
{
    let caps = announced_caps(id, value);
    lemma_register_all(t, caps, server);
    if id == 1 && (json_get(value, "result"@) matches Some(res) && json_get(res, "capabilities"@)
        == Some(JsonView::Object(listed))) && 0 <= i < listed.len() {
        assert(caps[i] == listed[i].0);
    }
}

} // verus!
