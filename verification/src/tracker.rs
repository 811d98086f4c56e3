use vstd::prelude::*;
use vstd::hash_map::{HashMapWithView, StringHashMap};
use vstd::hash_set::StringHashSet;

use crate::capability::{capability_for, capability_of};
use crate::msg::{LspMessage, MessageView, merge_message};
use crate::text::str_eq;

verus! {

broadcast use vstd::std_specs::hash::group_hash_axioms;

/// What a `Tracker` knows.
pub struct TrackerView {
    /// For each capability, the servers that announced it, in order.
    pub caps: Map<Seq<char>, Seq<Seq<char>>>,
    /// For each request of the client, the servers whose reply is awaited.
    pub awaiting: Map<i32, Set<Seq<char>>>,
    /// For each request of a server, the server that the client's reply
    /// goes back to.
    pub reply_to: Map<i32, Seq<char>>,
    /// For each request of the client, the merge of the replies so far.
    pub merged: Map<i32, MessageView>,
    /// The server preferred when several announce a capability.
    pub default_server: Seq<char>,
}

/// Keeps track of messages and capabilities across several servers.
pub struct Tracker {
    /// Servers capable of each capability.
    capabilities: StringHashMap<Vec<String>>,
    /// Servers that still owe a reply to a request of the client.
    outstanding_server_responses: HashMapWithView<i32, StringHashSet>,
    /// Where the client's reply to a request of a server goes.
    outstanding_client_responses: HashMapWithView<i32, String>,
    /// Merged replies of the servers.
    server_merged_responses: HashMapWithView<i32, LspMessage>,
    /// Name of the default server.
    pub default_server: String,
}

pub open spec fn strings_view(v: Seq<String>) -> Seq<Seq<char>> {
    v.map_values(|s: String| s@)
}

pub open spec fn opt_message_view(m: Option<LspMessage>) -> Option<MessageView> {
    match m {
        Some(m) => Some(m@),
        None => None,
    }
}

pub open spec fn opt_string_view(s: Option<String>) -> Option<Seq<char>> {
    match s {
        Some(s) => Some(s@),
        None => None,
    }
}

impl View for Tracker {
    type V = TrackerView;

    closed spec fn view(&self) -> TrackerView {
        TrackerView {
            caps: self.capabilities@.map_values(|v: Vec<String>| strings_view(v@)),
            awaiting: self.outstanding_server_responses@.map_values(|s: StringHashSet| s@),
            reply_to: self.outstanding_client_responses@.map_values(|s: String| s@),
            merged: self.server_merged_responses@.map_values(|m: LspMessage| m@),
            default_server: self.default_server@,
        }
    }
}

// ----- the operations, on what the tracker knows ---------------------------

impl TrackerView {
    /// Every set of awaited servers is finite.
    pub open spec fn wf(self) -> bool {
        forall|id: i32| #[trigger] self.awaiting.contains_key(id) ==> self.awaiting[id].finite()
    }

    /// A server sent the request `id`: the client's reply goes back to it.
    pub open spec fn server_issued_request(self, server: Seq<char>, id: i32) -> TrackerView {
        TrackerView { reply_to: self.reply_to.insert(id, server), ..self }
    }

    /// The request `id` of the client went to `server`, whose reply is now
    /// awaited.
    pub open spec fn client_issued_request(self, id: i32, server: Seq<char>) -> TrackerView {
        TrackerView {
            awaiting: self.awaiting.insert(
                id,
                if self.awaiting.contains_key(id) {
                    self.awaiting[id].insert(server)
                } else {
                    Set::empty().insert(server)
                },
            ),
            ..self
        }
    }

    /// `server` replied `msg` to the request `id`: it is no longer awaited,
    /// and its reply is merged into the replies so far.
    pub open spec fn server_responded(self, id: i32, server: Seq<char>, msg: MessageView) -> TrackerView {
        TrackerView {
            awaiting: if self.awaiting.contains_key(id) {
                self.awaiting.insert(id, self.awaiting[id].remove(server))
            } else {
                self.awaiting
            },
            merged: self.merged.insert(
                id,
                if self.merged.contains_key(id) {
                    merge_message(self.merged[id], msg)
                } else {
                    msg
                },
            ),
            ..self
        }
    }

    /// The merged reply to the request `id`, if any; it is taken out.
    pub open spec fn take_merged(self, id: i32) -> (TrackerView, Option<MessageView>) {
        if self.merged.contains_key(id) {
            (TrackerView { merged: self.merged.remove(id), ..self }, Some(self.merged[id]))
        } else {
            (self, None)
        }
    }

    /// The server that the client's reply to the request `id` goes back
    /// to, if any; it is taken out.
    pub open spec fn client_responded(self, id: i32) -> (TrackerView, Option<Seq<char>>) {
        if self.reply_to.contains_key(id) {
            (TrackerView { reply_to: self.reply_to.remove(id), ..self }, Some(self.reply_to[id]))
        } else {
            (self, None)
        }
    }

    /// Every server that the request `id` went to has replied.
    pub open spec fn all_servers_replied(self, id: i32) -> bool {
        self.awaiting.contains_key(id) && self.awaiting[id].len() == 0
    }

    /// `server` announced the capability `cap`.
    pub open spec fn register_capability(self, cap: Seq<char>, server: Seq<char>) -> TrackerView {
        TrackerView {
            caps: self.caps.insert(
                cap,
                if self.caps.contains_key(cap) {
                    self.caps[cap].push(server)
                } else {
                    seq![server]
                },
            ),
            ..self
        }
    }

    /// The servers that a request with `method` goes to. The lifecycle
    /// requests go to every server. A code action goes to every known
    /// server that announced the capability it needs. Any other request
    /// goes to one server: the default server when it announced the
    /// capability and is known, otherwise the first known server that
    /// announced it; when no server announced the capability, the request
    /// goes to the first server.
    pub open spec fn capable_servers(self, method: Seq<char>, servers: Seq<Seq<char>>) -> Set<
        Seq<char>,
    > {
        if method == "initialize"@ || method == "initialized"@ {
            servers.to_set()
        } else {
            let cap = match capability_of(method) {
                Some(c) => c,
                None => Seq::empty(),
            };
            if self.caps.contains_key(cap) {
                let supported = self.caps[cap];
                if method == "textDocument/codeAction"@ {
                    supported.to_set().intersect(servers.to_set())
                } else if supported.contains(self.default_server) && servers.contains(
                    self.default_server,
                ) {
                    set![self.default_server]
                } else {
                    match first_known(supported, servers) {
                        Some(s) => set![s],
                        None => Set::empty(),
                    }
                }
            } else if servers.len() > 0 {
                set![servers[0]]
            } else {
                Set::empty()
            }
        }
    }
}

/// The first server of `supported` that is known (in `servers`).
pub open spec fn first_known(supported: Seq<Seq<char>>, servers: Seq<Seq<char>>) -> Option<
    Seq<char>,
>
    decreases supported.len(),
{
    if supported.len() == 0 {
        None
    } else if servers.contains(supported[0]) {
        Some(supported[0])
    } else {
        first_known(supported.subrange(1, supported.len() as int), servers)
    }
}

proof fn lemma_first_known(supported: Seq<Seq<char>>, servers: Seq<Seq<char>>)
    ensures
        first_known(supported, servers) matches Some(s) ==> servers.contains(s)
            && supported.contains(s),
        first_known(supported, servers) is None ==> forall|i: int|
            0 <= i < supported.len() ==> !servers.contains(#[trigger] supported[i]),
    decreases supported.len(),
{
    if supported.len() > 0 {
        let rest = supported.subrange(1, supported.len() as int);
        lemma_first_known(rest, servers);
        if let Some(s) = first_known(rest, servers) {
            if !servers.contains(supported[0]) {
                let j = choose|j: int| 0 <= j < rest.len() && rest[j] == s;
                assert(supported[j + 1] == s);
            }
        }
        if first_known(supported, servers) is None {
            assert forall|i: int| 0 <= i < supported.len() implies !servers.contains(
                #[trigger] supported[i],
            ) by {
                if i > 0 {
                    assert(supported[i] == rest[i - 1]);
                }
            }
        }
    } else {
    }
}

/// `v` holds `s`.
fn contains_string(v: &Vec<String>, s: &str) -> (r: bool)
    ensures
        r == strings_view(v@).contains(s@),
{
    let mut i: usize = 0;
    while i < v.len()
        invariant
            i <= v.len(),
            forall|j: int| 0 <= j < i ==> v@[j]@ != s@,
        decreases v.len() - i,
    {
        if str_eq(v[i].as_str(), s) {
            assert(strings_view(v@)[i as int] == s@);
            return true;
        }
        i = i + 1;
    }
    proof {
        if strings_view(v@).contains(s@) {
            let j = choose|j: int| 0 <= j < v@.len() && strings_view(v@)[j] == s@;
            assert(v@[j]@ == s@);
        }
    }
    false
}

/// A copy of `v`.
fn copy_strings(v: &Vec<String>) -> (r: Vec<String>)
    ensures
        strings_view(r@) == strings_view(v@),
{
    let mut r: Vec<String> = Vec::new();
    let mut i: usize = 0;
    while i < v.len()
        invariant
            i <= v.len(),
            r.len() == i,
            forall|j: int| 0 <= j < i ==> #[trigger] r@[j]@ == v@[j]@,
        decreases v.len() - i,
    {
        r.push(v[i].clone());
        i = i + 1;
    }
    assert(strings_view(r@) =~= strings_view(v@));
    r
}

impl Tracker {
    /// A tracker that knows nothing, with the given default server.
    pub fn new(default_server: String) -> (r: Self)
        ensures
            r@.caps == Map::<Seq<char>, Seq<Seq<char>>>::empty(),
            r@.awaiting == Map::<i32, Set<Seq<char>>>::empty(),
            r@.reply_to == Map::<i32, Seq<char>>::empty(),
            r@.merged == Map::<i32, MessageView>::empty(),
            r@.default_server == default_server@,
            r@.wf(),
    {
        let r = Tracker {
            capabilities: StringHashMap::new(),
            outstanding_server_responses: HashMapWithView::new(),
            outstanding_client_responses: HashMapWithView::new(),
            server_merged_responses: HashMapWithView::new(),
            default_server,
        };
        assert(r@.caps =~= Map::<Seq<char>, Seq<Seq<char>>>::empty());
        assert(r@.awaiting =~= Map::<i32, Set<Seq<char>>>::empty());
        assert(r@.reply_to =~= Map::<i32, Seq<char>>::empty());
        assert(r@.merged =~= Map::<i32, MessageView>::empty());
        r
    }

    /// Registers that `requesting_server` sent the request `msg_id`, so
    /// that the client's reply goes back to it.
    pub fn server_issued_request(&mut self, requesting_server: String, msg_id: i32)
        ensures
            final(self)@ == old(self)@.server_issued_request(requesting_server@, msg_id),
    {
        let ghost s = requesting_server@;
        self.outstanding_client_responses.insert(msg_id, requesting_server);
        assert(self@.reply_to =~= old(self)@.reply_to.insert(msg_id, s));
        assert(self@ =~= old(self)@.server_issued_request(s, msg_id));
    }

    /// Registers that the request `msg_id` of the client went to
    /// `server_name`, whose reply is now awaited.
    pub fn client_issued_request(&mut self, msg_id: i32, server_name: String)
        requires
            old(self)@.wf(),
        ensures
            final(self)@ == old(self)@.client_issued_request(msg_id, server_name@),
            final(self)@.wf(),
    {
        let ghost s = server_name@;
        let ghost before = self@;
        match self.outstanding_server_responses.remove(&msg_id) {
            Some(mut servers) => {
                servers.insert(server_name);
                self.outstanding_server_responses.insert(msg_id, servers);
            },
            None => {
                let mut servers = StringHashSet::new();
                servers.insert(server_name);
                self.outstanding_server_responses.insert(msg_id, servers);
            },
        }
        assert(self@.awaiting =~= before.client_issued_request(msg_id, s).awaiting);
        assert(self@ =~= before.client_issued_request(msg_id, s));
        assert forall|id: i32| #[trigger] self@.awaiting.contains_key(id) implies self@.awaiting[id].finite() by {
            if id != msg_id {
                assert(before.awaiting.contains_key(id));
            }
        }
    }

    /// Registers the reply `msg` of `server_name` to the request `msg_id`:
    /// the server is no longer awaited, and its reply is merged into the
    /// replies so far.
    pub fn server_responded(&mut self, msg_id: i32, server_name: &String, msg: LspMessage)
        requires
            old(self)@.wf(),
        ensures
            final(self)@ == old(self)@.server_responded(msg_id, server_name@, msg@),
            final(self)@.wf(),
    {
        let ghost before = self@;
        let ghost m = msg@;
        match self.outstanding_server_responses.remove(&msg_id) {
            Some(mut servers) => {
                servers.remove(server_name.as_str());
                self.outstanding_server_responses.insert(msg_id, servers);
            },
            None => {},
        }
        match self.server_merged_responses.remove(&msg_id) {
            Some(mut merged) => {
                merged.merge(msg);
                self.server_merged_responses.insert(msg_id, merged);
            },
            None => {
                self.server_merged_responses.insert(msg_id, msg);
            },
        }
        let ghost after = before.server_responded(msg_id, server_name@, m);
        assert(self@.awaiting =~= after.awaiting);
        assert(self@.merged =~= after.merged);
        assert(self@ =~= after);
        assert forall|id: i32| #[trigger] self@.awaiting.contains_key(id) implies self@.awaiting[id].finite() by {
            assert(before.awaiting.contains_key(id));
        }
    }

    /// Takes out the merged reply to the request `msg_id`, if any.
    pub fn get_merged_response(&mut self, msg_id: i32) -> (r: Option<LspMessage>)
        ensures
            (final(self)@, opt_message_view(r)) == old(self)@.take_merged(msg_id),
    {
        let ghost before = self@;
        let r = self.server_merged_responses.remove(&msg_id);
        assert(self@.merged =~= before.take_merged(msg_id).0.merged);
        assert(self@ =~= before.take_merged(msg_id).0);
        r
    }

    /// Takes out the server that the client's reply to the request
    /// `msg_id` goes back to, if any.
    pub fn client_responded(&mut self, msg_id: i32) -> (r: Option<String>)
        ensures
            (final(self)@, opt_string_view(r)) == old(self)@.client_responded(msg_id),
    {
        let ghost before = self@;
        let r = self.outstanding_client_responses.remove(&msg_id);
        assert(self@.reply_to =~= before.client_responded(msg_id).0.reply_to);
        assert(self@ =~= before.client_responded(msg_id).0);
        r
    }

    /// Whether every server that the request `msg_id` went to has replied.
    pub fn all_servers_replied(&self, msg_id: i32) -> (r: bool)
        ensures
            r == self@.all_servers_replied(msg_id),
    {
        match self.outstanding_server_responses.get(&msg_id) {
            Some(awaiting) => awaiting.len() == 0,
            None => false,
        }
    }

    /// Registers that `server_name` announced the capability `method`.
    pub fn register_capability(&mut self, method: &str, server_name: String)
        ensures
            final(self)@ == old(self)@.register_capability(method@, server_name@),
    {
        let ghost before = self@;
        let ghost s = server_name@;
        let mut servers = match self.capabilities.get(method) {
            Some(v) => copy_strings(v),
            None => Vec::new(),
        };
        let ghost old_servers = strings_view(servers@);
        assert(old_servers == if before.caps.contains_key(method@) {
            before.caps[method@]
        } else {
            Seq::empty()
        });
        servers.push(server_name);
        assert(strings_view(servers@) =~= old_servers.push(s));
        assert(strings_view(servers@) == if before.caps.contains_key(method@) {
            before.caps[method@].push(s)
        } else {
            seq![s]
        });
        self.capabilities.insert(String::from_str(method), servers);
        let ghost after = before.register_capability(method@, s);
        assert(self@.caps =~= after.caps);
        assert(self@ =~= after);
    }

    /// The servers, among the known `servers`, that a request with
    /// `method` goes to (see `TrackerView::capable_servers`), each once.
    pub fn get_capable_servers(&self, method: &str, servers: &Vec<String>) -> (r: Vec<String>)
        requires
            strings_view(servers@).no_duplicates(),
        ensures
            strings_view(r@).no_duplicates(),
            strings_view(r@).to_set() == self@.capable_servers(method@, strings_view(servers@)),
    {
        let ghost known = strings_view(servers@);
        if str_eq(method, "initialize") || str_eq(method, "initialized") {
            let r = copy_strings(servers);
            return r;
        }
        let cap_name: &str = match capability_for(method) {
            Some(c) => c,
            None => "",
        };
        proof {
            reveal_strlit("");
        }
        assert(cap_name@ == match capability_of(method@) {
            Some(c) => c,
            None => Seq::<char>::empty(),
        });
        let mut filtered: Vec<String> = Vec::new();
        match self.capabilities.get(cap_name) {
            Some(supported) => {
                let ghost sup = strings_view(supported@);
                let ghost def = self.default_server@;
                assert(sup == self@.caps[cap_name@]);
                if str_eq(method, "textDocument/codeAction") {
                    // every known capable server, each once
                    let n = supported.len();
                    let mut i: usize = 0;
                    assert(strings_view(filtered@).to_set() =~= Set::<Seq<char>>::empty());
                    while i < n
                        invariant
                            i <= n == sup.len(),
                            sup == strings_view(supported@),
                            known == strings_view(servers@),
                            strings_view(filtered@).no_duplicates(),
                            strings_view(filtered@).to_set() == sup.subrange(0, i as int).to_set().intersect(
                                known.to_set(),
                            ),
                        decreases n - i,
                    {
                        let ghost before = strings_view(filtered@);
                        let ss = &supported[i];
                        assert(sup[i as int] == ss@);
                        assert(sup.subrange(0, i + 1) =~= sup.subrange(0, i as int).push(ss@));
                        proof {
                            sup.subrange(0, i as int).lemma_push_to_set_commute(ss@);
                        }
                        if contains_string(servers, ss.as_str()) && !contains_string(
                            &filtered,
                            ss.as_str(),
                        ) {
                            filtered.push(ss.clone());
                            assert(strings_view(filtered@) =~= before.push(ss@));
                            proof {
                                before.lemma_push_to_set_commute(ss@);
                            }
                        }
                        i = i + 1;
                        assert(strings_view(filtered@).to_set() =~= sup.subrange(
                            0,
                            i as int,
                        ).to_set().intersect(known.to_set()));
                    }
                    assert(sup.subrange(0, n as int) =~= sup);
                    filtered
                } else if contains_string(supported, self.default_server.as_str())
                    && contains_string(servers, self.default_server.as_str()) {
                    // only one server: the default one
                    filtered.push(self.default_server.clone());
                    assert(strings_view(filtered@) =~= Seq::<Seq<char>>::empty().push(def));
                    proof {
                        Seq::<Seq<char>>::empty().lemma_push_to_set_commute(def);
                    }
                    filtered
                } else {
                    // only one server: the first known capable one
                    let n = supported.len();
                    let mut i: usize = 0;
                    assert(sup.subrange(0, n as int) =~= sup);
                    #[verifier::loop_isolation(false)]
                    while i < n
                        invariant
                            i <= n == sup.len(),
                            sup == strings_view(supported@),
                            known == strings_view(servers@),
                            filtered@.len() == 0,
                            first_known(sup, known) == first_known(
                                sup.subrange(i as int, n as int),
                                known,
                            ),
                        decreases n - i,
                    {
                        let ss = &supported[i];
                        let ghost sub = sup.subrange(i as int, n as int);
                        assert(sub[0] == ss@);
                        assert(sub.subrange(1, sub.len() as int) =~= sup.subrange(i + 1, n as int));
                        if contains_string(servers, ss.as_str()) {
                            assert(first_known(sub, known) == Some(ss@));
                            filtered.push(ss.clone());
                            assert(strings_view(filtered@) =~= Seq::<Seq<char>>::empty().push(ss@));
                            proof {
                                Seq::<Seq<char>>::empty().lemma_push_to_set_commute(ss@);
                            }
                            return filtered;
                        }
                        i = i + 1;
                    }
                    assert(sup.subrange(n as int, n as int) =~= Seq::<Seq<char>>::empty());
                    assert(strings_view(filtered@).to_set() =~= Set::<Seq<char>>::empty());
                    filtered
                }
            },
            None => {
                if servers.len() > 0 {
                    filtered.push(servers[0].clone());
                    assert(strings_view(filtered@) =~= Seq::<Seq<char>>::empty().push(known[0]));
                    proof {
                        Seq::<Seq<char>>::empty().lemma_push_to_set_commute(known[0]);
                    }
                    assert(strings_view(filtered@).to_set() =~= set![known[0]]);
                } else {
                    assert(strings_view(filtered@).to_set() =~= Set::<Seq<char>>::empty());
                }
                filtered
            },
        }
    }
}

// ----- laws ----------------------------------------------------------------

/// The client's reply to a request of a server goes back to that server,
/// once: after `server_issued_request(server, id)`, `client_responded(id)`
/// gives `server` and forgets it, so a second reply with that id goes
/// nowhere.
pub proof fn law_reply_goes_back(v: TrackerView, server: Seq<char>, id: i32)
    ensures
        v.server_issued_request(server, id).client_responded(id).1 == Some(server),
        v.server_issued_request(server, id).client_responded(id).0.reply_to == v.reply_to.remove(id),
        v.server_issued_request(server, id).client_responded(id).0.client_responded(id).1 is None,
{
    assert(v.server_issued_request(server, id).reply_to.remove(id) =~= v.reply_to.remove(id));
}

/// A request of the client that went to a server is not answered before
/// that server replies.
pub proof fn law_request_awaits_reply(v: TrackerView, id: i32, server: Seq<char>)
    requires
        v.wf(),
    ensures
        v.client_issued_request(id, server).wf(),
        !v.client_issued_request(id, server).all_servers_replied(id),
{
    let w = v.client_issued_request(id, server);
    assert forall|k: i32| #[trigger] w.awaiting.contains_key(k) implies w.awaiting[k].finite() by {
        if k != id {
            assert(v.awaiting.contains_key(k));
        }
    }
    assert(w.awaiting[id].contains(server));
    vstd::set_lib::lemma_set_empty_equivalency_len(w.awaiting[id]);
}

/// A reply of one server does not complete a request while another
/// server's reply is still awaited.
pub proof fn law_other_reply_still_awaited(
    v: TrackerView,
    id: i32,
    server: Seq<char>,
    other: Seq<char>,
    msg: MessageView,
)
    requires
        v.wf(),
        v.awaiting.contains_key(id),
        v.awaiting[id].contains(other),
        server != other,
    ensures
        v.server_responded(id, server, msg).wf(),
        !v.server_responded(id, server, msg).all_servers_replied(id),
{
    let w = v.server_responded(id, server, msg);
    assert forall|k: i32| #[trigger] w.awaiting.contains_key(k) implies w.awaiting[k].finite() by {
        assert(v.awaiting.contains_key(k));
    }
    assert(w.awaiting[id].contains(other));
    vstd::set_lib::lemma_set_empty_equivalency_len(w.awaiting[id]);
}

/// The reply of the last awaited server completes the request.
pub proof fn law_last_reply_completes(v: TrackerView, id: i32, server: Seq<char>, msg: MessageView)
    requires
        v.awaiting.contains_key(id),
        v.awaiting[id].subset_of(set![server]),
    ensures
        v.server_responded(id, server, msg).all_servers_replied(id),
{
    let w = v.server_responded(id, server, msg);
    assert(w.awaiting[id] =~= Set::<Seq<char>>::empty());
}

/// The replies to one request are merged in the order they arrive, and
/// the merged reply is handed out once.
pub proof fn law_replies_merged_in_order(
    v: TrackerView,
    id: i32,
    s1: Seq<char>,
    m1: MessageView,
    s2: Seq<char>,
    m2: MessageView,
)
    requires
        !v.merged.contains_key(id),
    ensures
        v.server_responded(id, s1, m1).take_merged(id).1 == Some(m1),
        v.server_responded(id, s1, m1).server_responded(id, s2, m2).take_merged(id).1 == Some(
            merge_message(m1, m2),
        ),
        v.server_responded(id, s1, m1).server_responded(id, s2, m2).take_merged(id).0.take_merged(
            id,
        ).1 is None,
{
}

/// A request never goes to a server that is not known.
pub proof fn law_routes_to_known_servers(v: TrackerView, method: Seq<char>, servers: Seq<Seq<char>>)
    ensures
        v.capable_servers(method, servers).subset_of(servers.to_set()),
{
    let cap = match capability_of(method) {
        Some(c) => c,
        None => Seq::empty(),
    };
    if v.caps.contains_key(cap) {
        lemma_first_known(v.caps[cap], servers);
    }
    if servers.len() > 0 {
        assert(servers.contains(servers[0]));
    }
}

/// The lifecycle requests go to every known server.
pub proof fn law_lifecycle_to_all(v: TrackerView, servers: Seq<Seq<char>>)
    ensures
        v.capable_servers("initialize"@, servers) == servers.to_set(),
        v.capable_servers("initialized"@, servers) == servers.to_set(),
{
}

/// A request whose capability no server announced goes to the first
/// known server only.
pub proof fn law_unannounced_goes_to_first(v: TrackerView, method: Seq<char>, servers: Seq<Seq<char>>)
    requires
        method != "initialize"@,
        method != "initialized"@,
        !v.caps.contains_key(
            match capability_of(method) {
                Some(c) => c,
                None => Seq::empty(),
            },
        ),
        servers.len() > 0,
    ensures
        v.capable_servers(method, servers) == set![servers[0]],
{
}

/// When one known server alone announced a capability, the requests that
/// need it go to that server alone.
pub proof fn law_sole_capable_server(
    v: TrackerView,
    method: Seq<char>,
    server: Seq<char>,
    servers: Seq<Seq<char>>,
)
    requires
        method != "initialize"@,
        method != "initialized"@,
        capability_of(method) matches Some(cap) && v.caps.contains_key(cap) && v.caps[cap] == seq![
            server,
        ],
        servers.contains(server),
    ensures
        v.capable_servers(method, servers) == set![server],
{
    let cap = capability_of(method)->0;
    let sup = v.caps[cap];
    assert(sup[0] == server);
    if method == "textDocument/codeAction"@ {
        assert(sup.to_set().intersect(servers.to_set()) =~= set![server]);
    } else if sup.contains(v.default_server) && servers.contains(v.default_server) {
        let j = choose|j: int| 0 <= j < sup.len() && sup[j] == v.default_server;
        assert(j == 0);
    }
}

/// A request other than the lifecycle requests and code actions goes to
/// one server at most; to the default server whenever it announced the
/// capability the request needs and is known.
pub proof fn law_one_server(v: TrackerView, method: Seq<char>, servers: Seq<Seq<char>>)
    requires
        method != "initialize"@,
        method != "initialized"@,
        method != "textDocument/codeAction"@,
    ensures
        exists|s: Seq<char>| v.capable_servers(method, servers).subset_of(set![s]),
        capability_of(method) matches Some(cap) && v.caps.contains_key(cap) && v.caps[cap].contains(
            v.default_server,
        ) && servers.contains(v.default_server) ==> v.capable_servers(method, servers)
            == set![v.default_server],
{
    let r = v.capable_servers(method, servers);
    if r.len() == 0 || r == Set::<Seq<char>>::empty() {
        assert(r.subset_of(set![v.default_server]));
    }
    let cap = match capability_of(method) {
        Some(c) => c,
        None => Seq::empty(),
    };
    if v.caps.contains_key(cap) {
        if v.caps[cap].contains(v.default_server) && servers.contains(v.default_server) {
            assert(r.subset_of(set![v.default_server]));
        } else {
            match first_known(v.caps[cap], servers) {
                Some(x) => assert(r.subset_of(set![x])),
                None => assert(r.subset_of(set![v.default_server])),
            }
        }
    } else if servers.len() > 0 {
        assert(r.subset_of(set![servers[0]]));
    } else {
        assert(r.subset_of(set![v.default_server]));
    }
}

} // verus!
