//! The process-wide call manager: it admits incoming INVITEs, registers
//! outgoing calls, mints their tokens, and keeps the two maps of live
//! calls. A call identifier sits in exactly one map while its task runs,
//! and leaves it on the task's single destroy notice.

use vstd::prelude::*;

pub mod incoming_call;
pub mod outgoing_call;

use crate::address_book::storage::admission;
use crate::address_book::storage::AddressBookStorage;
use crate::protocol::address_book::PhoneNumber;
use crate::protocol::outgoing::CreateCallResponse;
use crate::protocol::CallDirection;
use crate::protocol::InternalCallId;
use crate::secure::CallToken;
use crate::secure::SecureContext;
use crate::sip::media::api::MediaApi;
use crate::sip::server::incoming::SipIncomingCall;

verus! {

/// What one turn of the manager's loop reports.
#[derive(Debug, Clone, Copy, PartialEq, Eq, Structural)]
pub enum CallManagerOut {
    Continue,
    IncomingCall(),
}

/// How long a minted call token lives, in seconds.
pub const CALL_TOKEN_TTL_SECS: u64 = 3600;

/// Whether `ids` holds the identifier `id`.
pub open spec fn contains_id(ids: Seq<Seq<char>>, id: Seq<char>) -> bool {
    exists|i: int| 0 <= i < ids.len() && ids[i] == id
}

/// A SIP URI of the shape `sip:user@server`.
pub fn sip_uri(user: &str, server: &str) -> (r: String)
    ensures
        r@ == "sip:"@ + user@ + "@"@ + server@,
{
    let mut uri: String = "sip:".to_owned();
    uri.append(user);
    uri.append("@");
    uri.append(server);
    uri
}

/// The per-call WebSocket path: `/call/<kind>/<id>?token=<token>`.
fn call_ws_path(kind: &str, call_id: &InternalCallId, token: &str) -> (r: String)
    ensures
        r@ == kind@ + call_id@ + "?token="@ + token@,
{
    let mut path: String = kind.to_owned();
    path.append(call_id.as_str());
    path.append("?token=");
    path.append(token);
    path
}

/// Guards a call task's single destroy notice: the notice can be taken
/// exactly once, so exactly one destroy is ever sent per task.
pub struct CallTaskGuard {
    call_id: InternalCallId,
    finished: bool,
}

impl CallTaskGuard {
    /// Whether the destroy notice was already taken.
    pub closed spec fn finished_spec(&self) -> bool {
        self.finished
    }

    /// The call this guard belongs to.
    pub closed spec fn call_id_spec(&self) -> Seq<char> {
        self.call_id@
    }

    pub fn new(call_id: InternalCallId) -> (r: Self)
        ensures
            !r.finished_spec(),
            r.call_id_spec() == call_id@,
    {
        CallTaskGuard { call_id, finished: false }
    }

    /// Takes the destroy notice. The first take yields the call id to
    /// send; every later take yields nothing.
    pub fn finish(&mut self) -> (r: Option<InternalCallId>)
        ensures
            final(self).finished_spec(),
            final(self).call_id_spec() == old(self).call_id_spec(),
            old(self).finished_spec() ==> r is None,
            !old(self).finished_spec() ==> (r matches Some(id) && id@ == old(self).call_id_spec()),
    {
        if self.finished {
            None
        } else {
            self.finished = true;
            Some(self.call_id.clone())
        }
    }
}

/// The set of live subscribers on a call's channel, and whether any peer
/// ever joined. When the last subscriber leaves after at least one join,
/// the call auto-ends.
pub struct SubscriberSet {
    ids: Vec<u64>,
    joined_ever: bool,
}

impl SubscriberSet {
    /// The subscribers now present.
    pub closed spec fn ids_spec(&self) -> Seq<u64> {
        self.ids@
    }

    /// Whether any peer ever joined.
    pub closed spec fn joined_ever_spec(&self) -> bool {
        self.joined_ever
    }

    /// Each peer appears once, and nobody is present before any join.
    pub open spec fn wf(&self) -> bool {
        (forall|i: int, j: int|
            0 <= i < j < self.ids_spec().len() ==> self.ids_spec()[i] != self.ids_spec()[j])
            && (!self.joined_ever_spec() ==> self.ids_spec().len() == 0)
    }

    pub fn new() -> (r: Self)
        ensures
            r.wf(),
            r.ids_spec().len() == 0,
            !r.joined_ever_spec(),
    {
        SubscriberSet { ids: Vec::new(), joined_ever: false }
    }

    fn position(&self, id: u64) -> (r: Option<usize>)
        ensures
            match r {
                Some(i) => i < self.ids_spec().len() && self.ids_spec()[i as int] == id,
                None => forall|i: int|
                    0 <= i < self.ids_spec().len() ==> self.ids_spec()[i] != id,
            },
    {
        let mut i: usize = 0;
        while i < self.ids.len()
            invariant
                i <= self.ids@.len(),
                forall|j: int| 0 <= j < i ==> self.ids@[j] != id,
            decreases self.ids@.len() - i,
        {
            if self.ids[i] == id {
                return Some(i);
            }
            i = i + 1;
        }
        None
    }

    /// A peer joined: it enters the set, and the set remembers that a
    /// join occurred.
    pub fn on_peer_joined(&mut self, id: u64)
        requires
            old(self).wf(),
        ensures
            final(self).wf(),
            final(self).joined_ever_spec(),
            contains_peer(final(self).ids_spec(), id),
            forall|p: u64|
                p != id ==> (contains_peer(final(self).ids_spec(), p) <==> contains_peer(
                    old(self).ids_spec(),
                    p,
                )),
    {
        let pos = self.position(id);
        match pos {
            Some(_) => {
                self.joined_ever = true;
                proof {
                    assert(contains_peer(self.ids_spec(), id));
                }
            },
            None => {
                self.ids.push(id);
                self.joined_ever = true;
                proof {
                    assert(self.ids_spec().last() == id);
                    assert(contains_peer(self.ids_spec(), id));
                    assert forall|p: u64| p != id implies (contains_peer(
                        self.ids_spec(),
                        p,
                    ) <==> contains_peer(old(self).ids_spec(), p)) by {
                        if contains_peer(self.ids_spec(), p) {
                            let i = choose|i: int|
                                0 <= i < self.ids_spec().len() && self.ids_spec()[i] == p;
                            assert(i < old(self).ids_spec().len());
                            assert(old(self).ids_spec()[i] == p);
                        }
                        if contains_peer(old(self).ids_spec(), p) {
                            let i = choose|i: int|
                                0 <= i < old(self).ids_spec().len() && old(self).ids_spec()[i] == p;
                            assert(self.ids_spec()[i] == p);
                        }
                    }
                }
            },
        }
    }

    /// A peer left. The call auto-ends exactly when the leaving peer was
    /// present and was the last one; that can only happen after a join
    /// occurred, so a call nobody ever joined never auto-ends.
    pub fn on_peer_left(&mut self, id: u64) -> (auto_end: bool)
        requires
            old(self).wf(),
        ensures
            final(self).wf(),
            final(self).joined_ever_spec() == old(self).joined_ever_spec(),
            !contains_peer(final(self).ids_spec(), id),
            forall|p: u64|
                p != id ==> (contains_peer(final(self).ids_spec(), p) <==> contains_peer(
                    old(self).ids_spec(),
                    p,
                )),
            auto_end <==> (contains_peer(old(self).ids_spec(), id) && final(self).ids_spec().len() == 0),
            auto_end ==> old(self).joined_ever_spec(),
    {
        let pos = self.position(id);
        match pos {
            Some(i) => {
                self.ids.remove(i);
                proof {
                    let old_ids = old(self).ids_spec();
                    let new_ids = self.ids_spec();
                    assert(new_ids =~= old_ids.subrange(0, i as int) + old_ids.subrange(
                        i as int + 1,
                        old_ids.len() as int,
                    ));
                    assert(contains_peer(old_ids, id));
                    assert forall|p: u64| contains_peer(new_ids, p) implies (p != id
                        && contains_peer(old_ids, p)) by {
                        let k = choose|k: int| 0 <= k < new_ids.len() && new_ids[k] == p;
                        if k < i {
                            assert(old_ids[k] == p);
                        } else {
                            assert(old_ids[k + 1] == p);
                        }
                    }
                    assert forall|p: u64| p != id && contains_peer(old_ids, p) implies
                        contains_peer(new_ids, p) by {
                        let k = choose|k: int| 0 <= k < old_ids.len() && old_ids[k] == p;
                        if k < i {
                            assert(new_ids[k] == p);
                        } else {
                            assert(k != i);
                            assert(new_ids[k - 1] == p);
                        }
                    }
                }
                self.ids.len() == 0
            },
            None => {
                proof {
                    assert(!contains_peer(self.ids_spec(), id));
                }
                false
            },
        }
    }
}

/// Whether the peer set `ids` holds `id`.
pub open spec fn contains_peer(ids: Seq<u64>, id: u64) -> bool {
    exists|i: int| 0 <= i < ids.len() && ids[i] == id
}

/// The manager's live-call bookkeeping.
pub struct CallManager {
    out_calls: Vec<InternalCallId>,
    in_calls: Vec<InternalCallId>,
    media_gateway: String,
}

impl CallManager {
    /// The identifiers of live outgoing calls.
    pub closed spec fn out_spec(&self) -> Seq<Seq<char>> {
        self.out_calls.deep_view()
    }

    /// The identifiers of live incoming calls.
    pub closed spec fn in_spec(&self) -> Seq<Seq<char>> {
        self.in_calls.deep_view()
    }

    /// The media gateway calls are bridged to.
    pub closed spec fn media_gateway_spec(&self) -> Seq<char> {
        self.media_gateway@
    }

    /// Each map holds an identifier once, and the two maps are disjoint.
    pub open spec fn wf(&self) -> bool {
        (forall|i: int, j: int|
            0 <= i < j < self.out_spec().len() ==> self.out_spec()[i] != self.out_spec()[j])
            && (forall|i: int, j: int|
            0 <= i < j < self.in_spec().len() ==> self.in_spec()[i] != self.in_spec()[j])
            && (forall|i: int, j: int|
            0 <= i < self.out_spec().len() && 0 <= j < self.in_spec().len() ==> self.out_spec()[i]
                != self.in_spec()[j])
    }

    /// A manager with no live calls, bridging to `media_gateway`.
    pub fn new(media_gateway: &str) -> (r: Self)
        ensures
            r.wf(),
            r.out_spec() =~= Seq::<Seq<char>>::empty(),
            r.in_spec() =~= Seq::<Seq<char>>::empty(),
            r.media_gateway_spec() == media_gateway@,
    {
        CallManager {
            out_calls: Vec::new(),
            in_calls: Vec::new(),
            media_gateway: media_gateway.to_owned(),
        }
    }

    /// Whether any map holds the call.
    pub fn knows_call(&self, call_id: &InternalCallId) -> (r: bool)
        ensures
            r == (contains_id(self.out_spec(), call_id@) || contains_id(
                self.in_spec(),
                call_id@,
            )),
    {
        let in_out = position_of(&self.out_calls, call_id);
        let in_in = position_of(&self.in_calls, call_id);
        in_out.is_some() || in_in.is_some()
    }

    /// Registers a freshly made outgoing call: the id enters the
    /// outgoing map, a token bound to the call and its direction is
    /// minted, and the response carries the id, the token and the
    /// WebSocket path assembled from them.
    pub fn register_outgoing_call(
        &mut self,
        call_id: &InternalCallId,
        secure: &SecureContext,
    ) -> (r: CreateCallResponse)
        requires
            old(self).wf(),
            !contains_id(old(self).out_spec(), call_id@),
            !contains_id(old(self).in_spec(), call_id@),
        ensures
            final(self).wf(),
            final(self).out_spec() == old(self).out_spec().push(call_id@),
            final(self).in_spec() == old(self).in_spec(),
            final(self).media_gateway_spec() == old(self).media_gateway_spec(),
            r.call_id@ == call_id@,
            r.call_ws@ == "/call/outgoing/"@ + call_id@ + "?token="@ + r.call_token@,
    {
        let token = secure.encode_call_token(
            CallToken { direction: CallDirection::Outgoing, call_id: call_id.clone() },
            CALL_TOKEN_TTL_SECS,
        );
        let call_ws = call_ws_path("/call/outgoing/", call_id, token.as_str());
        self.out_calls.push(call_id.clone());
        proof {
            assert(self.out_spec() =~= old(self).out_spec().push(call_id@));
            assert(self.in_spec() =~= old(self).in_spec());
            lemma_push_keeps_wf(old(self).out_spec(), old(self).in_spec(), call_id@);
        }
        CreateCallResponse { call_id: call_id.to_text(), call_token: token, call_ws }
    }

    /// Registers an admitted incoming call: the id enters the incoming
    /// map and a token bound to the call is minted; the caller receives
    /// the token and the WebSocket path for the arrival notification.
    pub fn register_incoming_call(
        &mut self,
        call_id: &InternalCallId,
        secure: &SecureContext,
    ) -> (r: (String, String))
        requires
            old(self).wf(),
            !contains_id(old(self).out_spec(), call_id@),
            !contains_id(old(self).in_spec(), call_id@),
        ensures
            final(self).wf(),
            final(self).in_spec() == old(self).in_spec().push(call_id@),
            final(self).out_spec() == old(self).out_spec(),
            final(self).media_gateway_spec() == old(self).media_gateway_spec(),
            r.1@ == "/call/incoming/"@ + call_id@ + "?token="@ + r.0@,
    {
        let token = secure.encode_call_token(
            CallToken { direction: CallDirection::Incoming, call_id: call_id.clone() },
            CALL_TOKEN_TTL_SECS,
        );
        let call_ws = call_ws_path("/call/incoming/", call_id, token.as_str());
        self.in_calls.push(call_id.clone());
        proof {
            assert(self.in_spec() =~= old(self).in_spec().push(call_id@));
            assert(self.out_spec() =~= old(self).out_spec());
            lemma_push_keeps_wf(old(self).in_spec(), old(self).out_spec(), call_id@);
        }
        (token, call_ws)
    }

    /// Runs admission for an incoming INVITE and, when it passes,
    /// registers the call and hands back what its task needs: the media
    /// API against the owning app's secret, the number's settings, the
    /// call token and the WebSocket path. When admission fails the
    /// manager is unchanged and the caller rejects with 488.
    pub fn accept_incoming(
        &mut self,
        address_book: &AddressBookStorage,
        secure: &SecureContext,
        call: &SipIncomingCall,
    ) -> (r: Option<(MediaApi, PhoneNumber, String, String)>)
        requires
            old(self).wf(),
            address_book.wf(),
            !contains_id(old(self).out_spec(), call@.call_id),
            !contains_id(old(self).in_spec(), call@.call_id),
        ensures
            final(self).wf(),
            final(self).out_spec() == old(self).out_spec(),
            final(self).media_gateway_spec() == old(self).media_gateway_spec(),
            ({
                let m = admission(
                    address_book.root_spec(),
                    address_book.apps_spec(),
                    address_book.numbers_spec(),
                    call.remote_spec(),
                    call@.to,
                );
                match r {
                    Some(p) => m matches Some((app, number)) && p.0.gateway_spec() == old(self).media_gateway_spec() && p.0.secret_spec() == app.app_secret@ && p.1@
                        == number && final(self).in_spec() == old(self).in_spec().push(
                        call@.call_id,
                    ) && p.3@ == "/call/incoming/"@ + call@.call_id + "?token="@ + p.2@,
                    None => m is None && final(self).in_spec() == old(self).in_spec(),
                }
            }),
    {
        let admitted = address_book.validate_phone(call.remote(), call.from(), call.to());
        match admitted {
            Some((app, number)) => {
                let api = MediaApi::new(self.media_gateway.as_str(), app.app_secret.as_str());
                let call_id = call.call_id();
                let (token, call_ws) = self.register_incoming_call(&call_id, secure);
                Some((api, number, token, call_ws))
            },
            None => None,
        }
    }

    /// Handles one destroy notice: the call leaves whichever map holds
    /// it; every other call stays. A notice for an unknown call changes
    /// nothing and reports `false`; the runtime logs it.
    pub fn handle_destroy(&mut self, call_id: &InternalCallId) -> (found: bool)
        requires
            old(self).wf(),
        ensures
            final(self).wf(),
            final(self).media_gateway_spec() == old(self).media_gateway_spec(),
            !contains_id(final(self).out_spec(), call_id@),
            !contains_id(final(self).in_spec(), call_id@),
            forall|id: Seq<char>|
                id != call_id@ ==> (contains_id(final(self).out_spec(), id) <==> contains_id(
                    old(self).out_spec(),
                    id,
                )),
            forall|id: Seq<char>|
                id != call_id@ ==> (contains_id(final(self).in_spec(), id) <==> contains_id(
                    old(self).in_spec(),
                    id,
                )),
            found == (contains_id(old(self).out_spec(), call_id@) || contains_id(
                old(self).in_spec(),
                call_id@,
            )),
    {
        proof {
            assert(old(self).out_spec() == old(self).out_calls.deep_view());
            assert(old(self).in_spec() == old(self).in_calls.deep_view());
            assert(forall|i: int, j: int|
                0 <= i < j < self.out_calls.deep_view().len()
                    ==> self.out_calls.deep_view()[i] != self.out_calls.deep_view()[j]);
        }
        let out_removed = remove_id(&mut self.out_calls, call_id);
        proof {
            assert(forall|i: int, j: int|
                0 <= i < j < self.in_calls.deep_view().len()
                    ==> self.in_calls.deep_view()[i] != self.in_calls.deep_view()[j]);
        }
        let in_removed = remove_id(&mut self.in_calls, call_id);
        proof {
            let out0 = old(self).out_spec();
            let in0 = old(self).in_spec();
            let out1 = self.out_spec();
            let in1 = self.in_spec();
            assert forall|i: int, j: int|
                0 <= i < out1.len() && 0 <= j < in1.len() implies out1[i] != in1[j] by {
                let x = out1[i];
                assert(contains_id(out1, x));
                assert(x != call_id@);
                assert(contains_id(out0, x));
                if in1[j] == x {
                    assert(contains_id(in1, x));
                    assert(contains_id(in0, x));
                    let k = choose|k: int| 0 <= k < out0.len() && out0[k] == x;
                    let l = choose|l: int| 0 <= l < in0.len() && in0[l] == x;
                    assert(out0[k] != in0[l]);
                }
            }
        }
        out_removed || in_removed
    }
}

/// The index of `id` in `ids`, if present.
fn position_of(ids: &Vec<InternalCallId>, id: &InternalCallId) -> (r: Option<usize>)
    ensures
        match r {
            Some(i) => i < ids.deep_view().len() && ids.deep_view()[i as int] == id@,
            None => !contains_id(ids.deep_view(), id@),
        },
{
    let mut i: usize = 0;
    while i < ids.len()
        invariant
            i <= ids@.len(),
            ids.deep_view().len() == ids@.len(),
            forall|j: int| 0 <= j < i ==> ids.deep_view()[j] != id@,
        decreases ids@.len() - i,
    {
        proof {
            assert(ids.deep_view()[i as int] == ids@[i as int]@);
        }
        if ids[i].same_as(id) {
            return Some(i);
        }
        i = i + 1;
    }
    None
}

/// Removes `id` from `ids` if present; reports whether it was.
fn remove_id(ids: &mut Vec<InternalCallId>, id: &InternalCallId) -> (found: bool)
    requires
        forall|i: int, j: int|
            0 <= i < j < old(ids).deep_view().len() ==> old(ids).deep_view()[i] != old(ids).deep_view()[j],
    ensures
        forall|i: int, j: int|
            0 <= i < j < final(ids).deep_view().len() ==> final(ids).deep_view()[i] != final(ids).deep_view()[j],
        !contains_id(final(ids).deep_view(), id@),
        forall|other: Seq<char>|
            other != id@ ==> (contains_id(final(ids).deep_view(), other) <==> contains_id(
                old(ids).deep_view(),
                other,
            )),
        found == contains_id(old(ids).deep_view(), id@),
        !found ==> final(ids).deep_view() == old(ids).deep_view(),
{
    let pos = position_of(ids, id);
    match pos {
        Some(i) => {
            ids.remove(i);
            proof {
                let old_ids = old(ids).deep_view();
                let new_ids = ids.deep_view();
                assert(new_ids =~= old_ids.subrange(0, i as int) + old_ids.subrange(
                    i as int + 1,
                    old_ids.len() as int,
                )) by {
                    assert(ids@ =~= old(ids)@.subrange(0, i as int) + old(ids)@.subrange(
                        i as int + 1,
                        old(ids)@.len() as int,
                    ));
                    assert forall|k: int| 0 <= k < new_ids.len() implies new_ids[k]
                        == (old_ids.subrange(0, i as int) + old_ids.subrange(
                        i as int + 1,
                        old_ids.len() as int,
                    ))[k] by {
                        if k < i {
                            assert(ids@[k] == old(ids)@[k]);
                        } else {
                            assert(ids@[k] == old(ids)@[k + 1]);
                        }
                    }
                }
                assert forall|p: Seq<char>| contains_id(new_ids, p) implies contains_id(
                    old_ids,
                    p,
                ) by {
                    let k = choose|k: int| 0 <= k < new_ids.len() && new_ids[k] == p;
                    if k < i {
                        assert(old_ids[k] == p);
                    } else {
                        assert(old_ids[k + 1] == p);
                    }
                }
                assert forall|p: Seq<char>| p != id@ && contains_id(old_ids, p) implies
                    contains_id(new_ids, p) by {
                    let k = choose|k: int| 0 <= k < old_ids.len() && old_ids[k] == p;
                    if k < i {
                        assert(new_ids[k] == p);
                    } else {
                        assert(k != i);
                        assert(new_ids[k - 1] == p);
                    }
                }
                assert(!contains_id(new_ids, id@)) by {
                    if contains_id(new_ids, id@) {
                        let k = choose|k: int| 0 <= k < new_ids.len() && new_ids[k] == id@;
                        if k < i {
                            assert(old_ids[k] == id@ && old_ids[i as int] == id@);
                        } else {
                            assert(old_ids[k + 1] == id@ && old_ids[i as int] == id@);
                        }
                    }
                }
            }
            true
        },
        None => false,
    }
}

/// Pushing a fresh identifier keeps both maps' uniqueness and their
/// disjointness.
proof fn lemma_push_keeps_wf(target: Seq<Seq<char>>, other: Seq<Seq<char>>, id: Seq<char>)
    requires
        !contains_id(target, id),
        !contains_id(other, id),
        forall|i: int, j: int| 0 <= i < j < target.len() ==> target[i] != target[j],
        forall|i: int, j: int|
            0 <= i < target.len() && 0 <= j < other.len() ==> target[i] != other[j],
    ensures
        forall|i: int, j: int|
            0 <= i < j < target.push(id).len() ==> target.push(id)[i] != target.push(id)[j],
        forall|i: int, j: int|
            0 <= i < target.push(id).len() && 0 <= j < other.len() ==> target.push(id)[i]
                != other[j],
        forall|i: int, j: int|
            0 <= i < other.len() && 0 <= j < target.push(id).len() ==> other[i] != target.push(
                id,
            )[j],
{
    assert forall|i: int, j: int| 0 <= i < j < target.push(id).len() implies target.push(
        id,
    )[i] != target.push(id)[j] by {
        if j == target.len() {
            assert(target.push(id)[j] == id);
            assert(target.push(id)[i] == target[i]);
            if target[i] == id {
                assert(contains_id(target, id));
            }
        }
    }
    assert forall|i: int, j: int|
        0 <= i < target.push(id).len() && 0 <= j < other.len() implies target.push(id)[i]
        != other[j] by {
        if i == target.len() {
            if other[j] == id {
                assert(contains_id(other, id));
            }
        } else {
            if other[j] == target[i] {
                assert(contains_id(other, target[i]));
            }
        }
    }
}

} // verus!
