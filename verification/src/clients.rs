//! The client registry: which UI clients are connected, and which outbound
//! channel each one owns.
//!
//! The transport layer owns the channels themselves and knows them by
//! numeric handles; the registry decides who gets which event.  A send is
//! fire-and-forget: the registry plans deliveries, and a failure delivering
//! to one client never keeps an event from the others, because each
//! delivery stands on its own.

use vstd::prelude::*;

use crate::outgoing_event::{OutgoingEvent, OutgoingEventView};
use crate::text::str_eq;

verus! {

/// Mathematical model of a [`Client`].
pub struct ClientView {
    pub client_id: Seq<char>,
    pub sender: Option<u64>,
}

/// A registered UI client.
#[derive(Debug, PartialEq)]
pub struct Client {
    /// The server-generated id under which the client registered.
    pub client_id: String,
    /// The handle of the client's outbound channel, attached once the
    /// connection upgrade completes.  A client without one is a
    /// placeholder: visible to broadcasts, which skip it.
    pub sender: Option<u64>,
}

impl View for Client {
    type V = ClientView;

    open spec fn view(&self) -> ClientView {
        ClientView { client_id: self.client_id@, sender: self.sender }
    }
}

impl Clone for Client {
    /// A clone carries exactly the same model.
    fn clone(&self) -> (r: Self)
        ensures
            r@ == self@,
    {
        Client { client_id: self.client_id.clone(), sender: self.sender }
    }
}

/// The models of a sequence of clients.
pub open spec fn client_views(s: Seq<Client>) -> Seq<ClientView> {
    s.map_values(|c: Client| c@)
}

/// Taking the model of a client sequence commutes with indexing.
pub broadcast proof fn lemma_client_views_index(s: Seq<Client>, i: int)
    requires
        0 <= i < s.len(),
    ensures
        #[trigger] client_views(s)[i] == s[i]@,
{
}

/// No two registry entries share a client id.
pub open spec fn clients_wf(s: Seq<ClientView>) -> bool {
    forall|i: int, j: int| 0 <= i < j < s.len() ==> s[i].client_id != s[j].client_id
}

/// Whether some entry carries `id`.
pub open spec fn has_client(s: Seq<ClientView>, id: Seq<char>) -> bool {
    exists|k: int| 0 <= k < s.len() && s[k].client_id == id
}

/// The first position carrying `id`; meaningful when one exists.
pub open spec fn spec_first_with(s: Seq<ClientView>, id: Seq<char>) -> int
    decreases s.len(),
{
    if s.len() == 0 {
        0
    } else if s.first().client_id == id {
        0
    } else {
        1 + spec_first_with(s.drop_first(), id)
    }
}

/// `spec_first_with` finds exactly the first match.
pub proof fn lemma_first_with(s: Seq<ClientView>, id: Seq<char>, k: int)
    requires
        0 <= k < s.len(),
        s[k].client_id == id,
        forall|j: int| 0 <= j < k ==> s[j].client_id != id,
    ensures
        spec_first_with(s, id) == k,
    decreases k,
{
    if k > 0 {
        lemma_first_with(s.drop_first(), id, k - 1);
    }
}

/// When an entry carries `id`, the first match is in range, carries `id`,
/// and nothing before it does.
pub proof fn lemma_first_with_props(s: Seq<ClientView>, id: Seq<char>)
    requires
        has_client(s, id),
    ensures
        0 <= spec_first_with(s, id) < s.len(),
        s[spec_first_with(s, id)].client_id == id,
        forall|j: int| 0 <= j < spec_first_with(s, id) ==> s[j].client_id != id,
    decreases s.len(),
{
    if s.first().client_id == id {
    } else {
        let k = choose|k: int| 0 <= k < s.len() && s[k].client_id == id;
        assert(0 <= k - 1 < s.drop_first().len() && s.drop_first()[k - 1].client_id == id);
        lemma_first_with_props(s.drop_first(), id);
        let f = spec_first_with(s, id);
        assert(f == 1 + spec_first_with(s.drop_first(), id));
        assert forall|j: int| 0 <= j < f implies s[j].client_id != id by {
            if j > 0 {
                assert(s.drop_first()[j - 1].client_id != id);
            }
        }
    }
}

/// Registering a client `c`: the entry under its id is replaced when one
/// exists, else `c` joins at the end.
pub open spec fn spec_add_client(s: Seq<ClientView>, c: ClientView) -> Seq<ClientView> {
    if has_client(s, c.client_id) {
        s.update(spec_first_with(s, c.client_id), c)
    } else {
        s.push(c)
    }
}

/// Removing the entry under `id`, if any; idempotent.
pub open spec fn spec_remove_client(s: Seq<ClientView>, id: Seq<char>) -> Seq<ClientView> {
    if has_client(s, id) {
        s.remove(spec_first_with(s, id))
    } else {
        s
    }
}

/// Attaching a channel to the entry under `id`, if any.
pub open spec fn spec_attach(s: Seq<ClientView>, id: Seq<char>, channel: u64) -> Seq<ClientView> {
    if has_client(s, id) {
        s.update(spec_first_with(s, id), ClientView { client_id: id, sender: Some(channel) })
    } else {
        s
    }
}

/// Mathematical model of a [`Delivery`].
pub struct DeliveryView {
    pub channel: u64,
    pub event: OutgoingEventView,
}

/// One planned send: an event bound for one channel.
#[derive(Debug, PartialEq)]
pub struct Delivery {
    pub channel: u64,
    pub event: OutgoingEvent,
}

impl View for Delivery {
    type V = DeliveryView;

    open spec fn view(&self) -> DeliveryView {
        DeliveryView { channel: self.channel, event: self.event@ }
    }
}

/// The models of a sequence of deliveries.
pub open spec fn delivery_views(s: Seq<Delivery>) -> Seq<DeliveryView> {
    s.map_values(|d: Delivery| d@)
}

/// Taking the model of a delivery sequence commutes with indexing.
pub broadcast proof fn lemma_delivery_views_index(s: Seq<Delivery>, i: int)
    requires
        0 <= i < s.len(),
    ensures
        #[trigger] delivery_views(s)[i] == s[i]@,
{
}

/// The delivery plan of a broadcast: one delivery per attached entry, in
/// registry order, each carrying the same event.
pub open spec fn spec_deliveries(s: Seq<ClientView>, ev: OutgoingEventView) -> Seq<DeliveryView>
    decreases s.len(),
{
    if s.len() == 0 {
        Seq::empty()
    } else {
        spec_deliveries(s.drop_last(), ev) + (match s.last().sender {
            Some(ch) => seq![DeliveryView { channel: ch, event: ev }],
            None => Seq::empty(),
        })
    }
}

/// Relies on `uuid::Uuid::new_v4` and `Uuid::simple`: a fresh random
/// version-4 UUID, rendered as 32 hexadecimal digits.  The value is
/// random, so nothing beyond its length is promised.
#[verifier::external_body]
fn fresh_client_id() -> (r: String)
    ensures
        r@.len() == 32,
{
    uuid::Uuid::new_v4().simple().to_string()
}

/// The registry of clients, keyed by client id.
#[derive(Debug, PartialEq)]
pub struct Clients {
    entries: Vec<Client>,
}

impl View for Clients {
    type V = Seq<ClientView>;

    closed spec fn view(&self) -> Seq<ClientView> {
        client_views(self.entries@)
    }
}

impl Clients {
    /// An empty registry.
    pub fn new() -> (r: Self)
        ensures
            r@ == Seq::<ClientView>::empty(),
            clients_wf(r@),
    {
        let r = Clients { entries: Vec::new() };
        proof {
            assert(r@ =~= Seq::<ClientView>::empty());
        }
        r
    }

    /// The position of the first entry carrying `id`.
    fn position_of(&self, id: &str) -> (r: Option<usize>)
        ensures
            match r {
                Some(i) => i < self@.len() && self@[i as int].client_id == id@ && (forall|j: int|
                    0 <= j < i ==> self@[j].client_id != id@),
                None => forall|j: int| 0 <= j < self@.len() ==> self@[j].client_id != id@,
            },
    {
        proof {
            broadcast use lemma_client_views_index;

        }
        let mut i: usize = 0;
        while i < self.entries.len()
            invariant
                i <= self.entries.len(),
                self@.len() == self.entries@.len(),
                forall|j: int| 0 <= j < i ==> self@[j].client_id != id@,
            decreases self.entries.len() - i,
        {
            if str_eq(self.entries[i].client_id.as_str(), id) {
                proof {
                    broadcast use lemma_client_views_index;

                }
                return Some(i);
            }
            i += 1;
        }
        None
    }

    /// Whether the registry knows `id`.
    pub fn contains_client(&self, id: &str) -> (r: bool)
        ensures
            r == has_client(self@, id@),
    {
        match self.position_of(id) {
            Some(i) => {
                proof {
                    assert(has_client(self@, id@));
                }
                true
            },
            None => {
                proof {
                    if has_client(self@, id@) {
                        let k = choose|k: int| 0 <= k < self@.len() && self@[k].client_id == id@;
                        assert(self@[k].client_id == id@);
                    }
                }
                false
            },
        }
    }

    /// Generates a globally unique id and inserts a placeholder entry for
    /// it, with no channel: visible to broadcasts at once, which skip it
    /// until a channel is attached.
    pub fn register(&mut self) -> (id: String)
        requires
            clients_wf(old(self)@),
        ensures
            id@.len() == 32,
            final(self)@ == spec_add_client(
                old(self)@,
                ClientView { client_id: id@, sender: None },
            ),
            clients_wf(final(self)@),
    {
        let id = fresh_client_id();
        let client = Client { client_id: id.clone(), sender: None };
        self.add_client(id.clone(), client);
        id
    }

    /// Inserts `client` under `id`, replacing any entry already there.
    pub fn add_client(&mut self, id: String, client: Client)
        requires
            clients_wf(old(self)@),
            id@ == client@.client_id,
        ensures
            final(self)@ == spec_add_client(old(self)@, client@),
            clients_wf(final(self)@),
    {
        proof {
            broadcast use lemma_client_views_index;

        }
        let ghost s = self@;
        let ghost cv = client@;
        match self.position_of(id.as_str()) {
            Some(i) => {
                proof {
                    lemma_first_with(s, cv.client_id, i as int);
                    assert(has_client(s, cv.client_id));
                }
                self.entries.remove(i);
                self.entries.insert(i, client);
                proof {
                    assert(self@ =~= s.update(i as int, cv));
                    assert forall|a: int, b: int|
                        0 <= a < b < self@.len() implies self@[a].client_id != self@[b].client_id by {
                        assert(s[a].client_id != s[b].client_id);
                        assert(s[i as int].client_id == cv.client_id);
                    }
                }
            },
            None => {
                proof {
                    if has_client(s, cv.client_id) {
                        let k = choose|k: int|
                            0 <= k < s.len() && s[k].client_id == cv.client_id;
                        assert(s[k].client_id == cv.client_id);
                    }
                }
                self.entries.push(client);
                proof {
                    assert(self@ =~= s.push(cv));
                    assert forall|a: int, b: int|
                        0 <= a < b < self@.len() implies self@[a].client_id != self@[b].client_id by {
                        if b < s.len() {
                            assert(s[a].client_id != s[b].client_id);
                        }
                    }
                }
            },
        }
    }

    /// Attaches a channel to the entry under `id`; reports whether the id
    /// was known.  An unknown id leaves the registry unchanged.
    pub fn attach(&mut self, id: &str, channel: u64) -> (attached: bool)
        requires
            clients_wf(old(self)@),
        ensures
            attached == has_client(old(self)@, id@),
            final(self)@ == spec_attach(old(self)@, id@, channel),
            clients_wf(final(self)@),
    {
        proof {
            broadcast use lemma_client_views_index;

        }
        let ghost s = self@;
        match self.position_of(id) {
            Some(i) => {
                proof {
                    lemma_first_with(s, id@, i as int);
                    assert(has_client(s, id@));
                }
                let entry = Client { client_id: id.to_owned(), sender: Some(channel) };
                self.entries.remove(i);
                self.entries.insert(i, entry);
                proof {
                    let cv = ClientView { client_id: id@, sender: Some(channel) };
                    assert(self@ =~= s.update(i as int, cv));
                    assert forall|a: int, b: int|
                        0 <= a < b < self@.len() implies self@[a].client_id != self@[b].client_id by {
                        assert(s[a].client_id != s[b].client_id);
                        assert(s[i as int].client_id == cv.client_id);
                    }
                }
                true
            },
            None => {
                proof {
                    if has_client(s, id@) {
                        let k = choose|k: int| 0 <= k < s.len() && s[k].client_id == id@;
                        assert(s[k].client_id == id@);
                    }
                }
                false
            },
        }
    }

    /// Deletes the entry under `id`; idempotent.  Afterwards the registry
    /// no longer knows the id.
    pub fn remove_client(&mut self, id: &str)
        requires
            clients_wf(old(self)@),
        ensures
            final(self)@ == spec_remove_client(old(self)@, id@),
            !has_client(final(self)@, id@),
            clients_wf(final(self)@),
    {
        proof {
            broadcast use lemma_client_views_index;

        }
        let ghost s = self@;
        match self.position_of(id) {
            Some(i) => {
                proof {
                    lemma_first_with(s, id@, i as int);
                    assert(has_client(s, id@));
                }
                self.entries.remove(i);
                proof {
                    assert(self@ =~= s.remove(i as int));
                    assert forall|a: int, b: int|
                        0 <= a < b < self@.len() implies self@[a].client_id != self@[b].client_id by {
                        let sa: int = if a < i as int {
                            a
                        } else {
                            a + 1
                        };
                        let sb: int = if b < i as int {
                            b
                        } else {
                            b + 1
                        };
                        assert(s[sa].client_id != s[sb].client_id);
                    }
                    assert forall|m: int|
                        0 <= m < self@.len() implies self@[m].client_id != id@ by {
                        if m >= i as int {
                            assert(s[m + 1].client_id != s[i as int].client_id);
                        }
                    }
                }
            },
            None => {
                proof {
                    if has_client(s, id@) {
                        let k = choose|k: int| 0 <= k < s.len() && s[k].client_id == id@;
                        assert(s[k].client_id == id@);
                    }
                }
            },
        }
    }

    /// Plans the delivery of `outgoing_event` to the client under
    /// `client_id`: a delivery to its channel when the id is known and a
    /// channel is attached, nothing otherwise.
    pub fn send_event_to(&self, outgoing_event: OutgoingEvent, client_id: &str) -> (r: Option<
        Delivery,
    >)
        requires
            clients_wf(self@),
        ensures
            match r {
                Some(d) => exists|k: int|
                    0 <= k < self@.len() && (#[trigger] self@[k]).client_id == client_id@
                        && self@[k].sender == Some(d@.channel) && d@.event == outgoing_event@,
                None => forall|k: int|
                    0 <= k < self@.len() && (#[trigger] self@[k]).client_id == client_id@
                        ==> self@[k].sender is None,
            },
    {
        proof {
            broadcast use lemma_client_views_index;

        }
        match self.position_of(client_id) {
            Some(i) => match self.entries[i].sender {
                Some(ch) => Some(Delivery { channel: ch, event: outgoing_event }),
                None => {
                    proof {
                        assert forall|k: int|
                            0 <= k < self@.len() && (#[trigger] self@[k]).client_id == client_id@
                                implies self@[k].sender is None by {
                            if k != i as int {
                                assert(self@[i as int].client_id != self@[k].client_id);
                            }
                        }
                    }
                    None
                },
            },
            None => None,
        }
    }

    /// Plans the broadcast of `outgoing_event`: one delivery per attached
    /// client, in registry order, each carrying the event.
    pub fn send_to_all(&self, outgoing_event: OutgoingEvent) -> (r: Vec<Delivery>)
        ensures
            delivery_views(r@) == spec_deliveries(self@, outgoing_event@),
    {
        proof {
            broadcast use lemma_client_views_index;
            broadcast use lemma_delivery_views_index;

        }
        let mut out: Vec<Delivery> = Vec::new();
        let mut i: usize = 0;
        proof {
            assert(self@.take(0) =~= Seq::<ClientView>::empty());
            assert(delivery_views(out@) =~= Seq::<DeliveryView>::empty());
        }
        while i < self.entries.len()
            invariant
                i <= self.entries.len(),
                self@.len() == self.entries@.len(),
                delivery_views(out@) == spec_deliveries(self@.take(i as int), outgoing_event@),
            decreases self.entries.len() - i,
        {
            proof {
                broadcast use lemma_client_views_index;
                broadcast use lemma_delivery_views_index;

            }
            let ghost prev = delivery_views(out@);
            match self.entries[i].sender {
                Some(ch) => {
                    out.push(Delivery { channel: ch, event: outgoing_event.clone() });
                    proof {
                        assert(delivery_views(out@) =~= prev + seq![
                            DeliveryView { channel: ch, event: outgoing_event@ },
                        ]);
                    }
                },
                None => {
                    proof {
                        assert(delivery_views(out@) =~= prev + Seq::<DeliveryView>::empty());
                    }
                },
            }
            proof {
                assert(self@.take(i + 1).drop_last() =~= self@.take(i as int));
                assert(self@.take(i + 1).last() == self@[i as int]);
            }
            i += 1;
        }
        proof {
            assert(self@.take(self@.len() as int) =~= self@);
        }
        out
    }
}

/// Law: a client that registers and then disconnects is afterwards unknown
/// to the registry — its id no longer answers to lookups or broadcasts.
pub proof fn lemma_register_then_remove(s: Seq<ClientView>, c: ClientView)
    requires
        clients_wf(s),
    ensures
        !has_client(spec_remove_client(spec_add_client(s, c), c.client_id), c.client_id),
{
    let id = c.client_id;
    let s1 = spec_add_client(s, c);
    if has_client(s, id) {
        lemma_first_with_props(s, id);
        let k = spec_first_with(s, id);
        assert(s1 =~= s.update(k, c));
        assert(s1[k].client_id == id);
        assert(has_client(s1, id));
        lemma_first_with(s1, id, k);
        let s2 = spec_remove_client(s1, id);
        assert(s2 =~= s1.remove(k));
        assert forall|m: int| 0 <= m < s2.len() implies s2[m].client_id != id by {
            if m < k {
                assert(s2[m] == s[m]);
            } else {
                assert(s2[m] == s[m + 1]);
                assert(s[m + 1].client_id != s[k].client_id);
            }
        }
        if has_client(s2, id) {
            let w = choose|w: int| 0 <= w < s2.len() && s2[w].client_id == id;
            assert(s2[w].client_id != id);
        }
    } else {
        let n = s.len() as int;
        assert(s1 =~= s.push(c));
        assert(s1[n].client_id == id);
        assert(has_client(s1, id));
        assert forall|j: int| 0 <= j < n implies s1[j].client_id != id by {
            if s[j].client_id == id {
                assert(has_client(s, id));
            }
        }
        lemma_first_with(s1, id, n);
        let s2 = spec_remove_client(s1, id);
        assert(s2 =~= s1.remove(n));
        assert forall|m: int| 0 <= m < s2.len() implies s2[m].client_id != id by {
            assert(s2[m] == s1[m]);
        }
        if has_client(s2, id) {
            let w = choose|w: int| 0 <= w < s2.len() && s2[w].client_id == id;
            assert(s2[w].client_id != id);
        }
    }
}

/// Law: a broadcast reaches every attached client.  When the registry
/// holds an entry for channel `ch`, the delivery plan contains a delivery
/// to `ch` carrying the broadcast event.
pub proof fn lemma_broadcast_reaches_attached(
    s: Seq<ClientView>,
    ev: OutgoingEventView,
    k: int,
    ch: u64,
)
    requires
        0 <= k < s.len(),
        s[k].sender == Some(ch),
    ensures
        exists|m: int|
            0 <= m < spec_deliveries(s, ev).len() && spec_deliveries(s, ev)[m] == (DeliveryView {
                channel: ch,
                event: ev,
            }),
    decreases s.len(),
{
    let d = spec_deliveries(s, ev);
    let dv = DeliveryView { channel: ch, event: ev };
    if k == s.len() - 1 {
        let m = spec_deliveries(s.drop_last(), ev).len() as int;
        assert(d[m] == dv);
    } else {
        assert(s.drop_last()[k] == s[k]);
        lemma_broadcast_reaches_attached(s.drop_last(), ev, k, ch);
        let m = choose|m: int|
            0 <= m < spec_deliveries(s.drop_last(), ev).len() && spec_deliveries(
                s.drop_last(),
                ev,
            )[m] == dv;
        assert(d[m] == dv);
    }
}

} // verus!
