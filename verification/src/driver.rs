//! The fleet driver's decision logic: the registry of per-actuator
//! sessions, probe construction and response matching for discovery,
//! request staging and response routing for registered actuators, and
//! reassembly of multi-frame parameter dumps.
//!
//! Everything here is pure state and frames-in/frames-out logic. The
//! surrounding I/O layer owns the socket and the deadlines (100 ms per
//! discovery probe, 1 s per command round trip, 1-2 s per dump): it
//! sends the frames these functions build, and feeds every received
//! frame or timeout back in. A timeout is the `None` event and never
//! changes the registry.

use vstd::prelude::*;
use crate::actuator_types::RobstrideActuatorType;
use crate::can::CanFrame;
use crate::client::{ActuatorClient, ActuatorClientState};
use crate::error::RobstrideError;
use crate::protocol::{
    spec_actuator_can_id_from_response, spec_fragment_data, spec_mux, ActuatorRequest,
    ActuatorRequestParams, ActuatorResponse, ObtainIdRequest, ReadAllParamsRequest,
    ReadAllParamsResponse,
};
use crate::types::ActuatorFeedbackUpdate;

verus! {

/// The single-byte host identifier used in discovery probes and
/// parameter-dump requests.
pub const PROBE_HOST_ID: u8 = 0xFD;

/// The session a ping stages before its probe frame is sent: a fresh
/// session for the identifier and model, with the ObtainId request
/// outstanding.
pub open spec fn spec_staged_ping_client(can_id: u8, actuator_type: RobstrideActuatorType)
    -> ActuatorClient {
    let fresh = ActuatorClient {
        host_id: crate::client::DEFAULT_HOST_ID,
        actuator_can_id: can_id,
        mcu_uid: None::<u64>,
        last_request: None::<ActuatorRequest>,
        state: ActuatorClientState::Reset,
        actuator_ranges: crate::actuator_types::spec_actuator_ranges(actuator_type),
        can_range: crate::actuator_types::spec_can_ranges(),
    };
    ActuatorClient {
        state: ActuatorClientState::AwaitingResponse,
        last_request: Some(fresh.spec_build_request(ActuatorRequestParams::ObtainId)),
        ..fresh
    }
}

/// One driver instance: the registry of sessions, exactly one per CAN
/// identifier.
#[derive(Clone, Debug)]
pub struct RobstrideDriver {
    pub clients: Vec<ActuatorClient>,
}

impl RobstrideDriver {
    /// Every held session is well-formed and no identifier is held
    /// twice.
    pub open spec fn wf(self) -> bool {
        &&& forall|i: int|
            0 <= i < self.clients@.len() ==> (#[trigger] self.clients@[i]).wf()
        &&& forall|i: int, j: int|
            0 <= i < j < self.clients@.len() ==> self.clients@[i].actuator_can_id
                != self.clients@[j].actuator_can_id
    }

    /// Whether a session is registered for this identifier.
    pub open spec fn spec_has(self, can_id: u8) -> bool {
        exists|i: int|
            0 <= i < self.clients@.len() && (#[trigger] self.clients@[i]).actuator_can_id == can_id
    }

    /// The position of this identifier's session in the registry.
    pub open spec fn spec_index_of(self, can_id: u8) -> int {
        choose|i: int|
            0 <= i < self.clients@.len() && (#[trigger] self.clients@[i]).actuator_can_id == can_id
    }

    /// This identifier's session.
    pub open spec fn spec_client(self, can_id: u8) -> ActuatorClient {
        self.clients@[self.spec_index_of(can_id)]
    }

    /// Identifiers other than `can_id` keep exactly the sessions they
    /// had.
    pub open spec fn spec_same_except(pre: Self, post: Self, can_id: u8) -> bool {
        &&& forall|id: u8|
            id != can_id ==> (#[trigger] post.spec_has(id) <==> pre.spec_has(id))
        &&& forall|id: u8|
            id != can_id && pre.spec_has(id) ==> #[trigger] post.spec_client(id)
                == pre.spec_client(id)
    }

    /// In a well-formed registry an identifier determines its position.
    pub proof fn lemma_index_of(self, i: int, can_id: u8)
        requires
            self.wf(),
            0 <= i < self.clients@.len(),
            self.clients@[i].actuator_can_id == can_id,
        ensures
            self.spec_has(can_id),
            self.spec_index_of(can_id) == i,
    {
        assert(self.spec_has(can_id));
        let j = self.spec_index_of(can_id);
        if j != i {
            assert(false);
        }
    }

    /// A driver with no sessions yet.
    pub fn new() -> (d: RobstrideDriver)
        ensures
            d.clients@.len() == 0,
            d.wf(),
    {
        RobstrideDriver { clients: Vec::new() }
    }

    /// The registry position of this identifier's session, if any.
    fn find_index(&self, can_id: u8) -> (r: Option<usize>)
        requires
            self.wf(),
        ensures
            match r {
                Some(i) => i < self.clients@.len() && self.clients@[i as int].actuator_can_id
                    == can_id && self.spec_has(can_id) && self.spec_index_of(can_id) == i,
                None => !self.spec_has(can_id),
            },
    {
        let mut i: usize = 0;
        while i < self.clients.len()
            invariant
                self.wf(),
                i <= self.clients@.len(),
                forall|k: int|
                    0 <= k < i ==> (#[trigger] self.clients@[k]).actuator_can_id != can_id,
            decreases self.clients@.len() - i,
        {
            if self.clients[i].actuator_can_id == can_id {
                proof {
                    self.lemma_index_of(i as int, can_id);
                }
                return Some(i);
            }
            i = i + 1;
        }
        None
    }

    /// Inserts the session under its identifier, replacing any session
    /// that identifier already had. Every other session is untouched.
    pub fn register_client(&mut self, c: ActuatorClient)
        requires
            old(self).wf(),
            c.wf(),
        ensures
            final(self).wf(),
            final(self).spec_has(c.actuator_can_id),
            final(self).spec_client(c.actuator_can_id) == c,
            RobstrideDriver::spec_same_except(*old(self), *final(self), c.actuator_can_id),
    {
        let ghost pre = *self;
        let idx = self.find_index(c.actuator_can_id);
        match idx {
            Some(i) => {
                let slot = vstd::std_specs::vec::vec_index_mut(&mut self.clients, i);
                *slot = c;
                proof {
                    assert(self.clients@ =~= pre.clients@.update(i as int, c));
                    assert(self.wf());
                    self.lemma_index_of(i as int, c.actuator_can_id);
                    assert forall|id: u8| id != c.actuator_can_id implies (#[trigger] self.spec_has(
                        id,
                    ) <==> pre.spec_has(id)) by {
                        if pre.spec_has(id) {
                            let j = pre.spec_index_of(id);
                            assert(self.clients@[j].actuator_can_id == id);
                        }
                        if self.spec_has(id) {
                            let j = self.spec_index_of(id);
                            assert(pre.clients@[j].actuator_can_id == id);
                        }
                    }
                    assert forall|id: u8|
                        id != c.actuator_can_id && pre.spec_has(id) implies #[trigger] self
                        .spec_client(id) == pre.spec_client(id) by {
                        let j = pre.spec_index_of(id);
                        assert(pre.clients@[j].actuator_can_id == id);
                        assert(self.clients@[j].actuator_can_id == id);
                        pre.lemma_index_of(j, id);
                        self.lemma_index_of(j, id);
                    }
                }
            },
            None => {
                let ghost n = self.clients@.len() as int;
                self.clients.push(c);
                proof {
                    assert(self.clients@ =~= pre.clients@.push(c));
                    assert forall|i: int, j: int|
                        0 <= i < j < self.clients@.len() implies self.clients@[i].actuator_can_id
                        != self.clients@[j].actuator_can_id by {
                        if j == n {
                            assert(self.clients@[i] == pre.clients@[i]);
                        }
                    }
                    assert(self.wf());
                    self.lemma_index_of(n, c.actuator_can_id);
                    assert forall|id: u8| id != c.actuator_can_id implies (#[trigger] self.spec_has(
                        id,
                    ) <==> pre.spec_has(id)) by {
                        if pre.spec_has(id) {
                            let j = pre.spec_index_of(id);
                            assert(self.clients@[j].actuator_can_id == id);
                        }
                        if self.spec_has(id) {
                            let j = self.spec_index_of(id);
                            assert(j != n);
                            assert(pre.clients@[j].actuator_can_id == id);
                        }
                    }
                    assert forall|id: u8|
                        id != c.actuator_can_id && pre.spec_has(id) implies #[trigger] self
                        .spec_client(id) == pre.spec_client(id) by {
                        let j = pre.spec_index_of(id);
                        assert(pre.clients@[j].actuator_can_id == id);
                        assert(self.clients@[j].actuator_can_id == id);
                        pre.lemma_index_of(j, id);
                        self.lemma_index_of(j, id);
                    }
                }
            },
        }
    }

    /// Registers a fresh session for this identifier and model,
    /// replacing any session the identifier already had.
    pub fn add_actuator(&mut self, can_id: u8, actuator_type: RobstrideActuatorType)
        requires
            old(self).wf(),
        ensures
            final(self).wf(),
            final(self).spec_has(can_id),
            final(self).spec_client(can_id) == (ActuatorClient {
                host_id: crate::client::DEFAULT_HOST_ID,
                actuator_can_id: can_id,
                mcu_uid: None::<u64>,
                last_request: None::<ActuatorRequest>,
                state: ActuatorClientState::Reset,
                actuator_ranges: crate::actuator_types::spec_actuator_ranges(actuator_type),
                can_range: crate::actuator_types::spec_can_ranges(),
            }),
            RobstrideDriver::spec_same_except(*old(self), *final(self), can_id),
    {
        let c = ActuatorClient::new(can_id, actuator_type);
        self.register_client(c);
    }

    /// Whether a session is registered for this identifier.
    pub fn has_actuator(&self, can_id: u8) -> (b: bool)
        requires
            self.wf(),
        ensures
            b == self.spec_has(can_id),
    {
        self.find_index(can_id).is_some()
    }

    /// The registered identifiers, in registration order.
    pub fn get_registered_actuators(&self) -> (ids: Vec<u8>)
        requires
            self.wf(),
        ensures
            ids@.len() == self.clients@.len(),
            forall|i: int|
                0 <= i < ids@.len() ==> ids@[i] == self.clients@[i].actuator_can_id,
    {
        let mut ids: Vec<u8> = Vec::new();
        let mut i: usize = 0;
        while i < self.clients.len()
            invariant
                i <= self.clients@.len(),
                ids@.len() == i,
                forall|k: int| 0 <= k < i ==> ids@[k] == self.clients@[k].actuator_can_id,
            decreases self.clients@.len() - i,
        {
            ids.push(self.clients[i].actuator_can_id);
            i = i + 1;
        }
        ids
    }

    /// Stages a request on the identifier's session and returns the
    /// frame to transmit; `ActuatorNotFound` (and no change) when no
    /// session is registered. No I/O is attempted in the failing case.
    pub fn stage_request_for(&mut self, can_id: u8, params: &ActuatorRequestParams) -> (r: Result<
        CanFrame,
        RobstrideError,
    >)
        requires
            old(self).wf(),
        ensures
            final(self).wf(),
            !old(self).spec_has(can_id) ==> r == Err::<CanFrame, RobstrideError>(
                RobstrideError::ActuatorNotFound(can_id),
            ) && *final(self) == *old(self),
            old(self).spec_has(can_id) ==> {
                &&& r matches Ok(frame) && frame@ == old(self).spec_client(
                    can_id,
                ).spec_build_request(*params).wire_bytes()
                &&& final(self).spec_has(can_id)
                &&& final(self).spec_client(can_id) == (ActuatorClient {
                    state: ActuatorClientState::AwaitingResponse,
                    last_request: Some(
                        old(self).spec_client(can_id).spec_build_request(*params),
                    ),
                    ..old(self).spec_client(can_id)
                })
                &&& RobstrideDriver::spec_same_except(*old(self), *final(self), can_id)
            },
    {
        let ghost pre = *self;
        let idx = self.find_index(can_id);
        match idx {
            None => Err(RobstrideError::ActuatorNotFound(can_id)),
            Some(i) => {
                let mut c = self.clients[i];
                let frame = c.stage_request(params);
                self.register_client(c);
                proof {
                    pre.lemma_index_of(i as int, can_id);
                }
                Ok(frame)
            },
        }
    }

    /// Hands a received frame to the identifier's session (see
    /// [`ActuatorClient::spec_handle_response`] for what the session
    /// does with it); `ActuatorNotFound` (and no change) when no
    /// session is registered.
    pub fn handle_response_for(&mut self, can_id: u8, response: &CanFrame) -> (r: Result<
        Option<ActuatorFeedbackUpdate>,
        RobstrideError,
    >)
        requires
            old(self).wf(),
        ensures
            final(self).wf(),
            !old(self).spec_has(can_id) ==> r == Err::<
                Option<ActuatorFeedbackUpdate>,
                RobstrideError,
            >(RobstrideError::ActuatorNotFound(can_id)) && *final(self) == *old(self),
            old(self).spec_has(can_id) ==> {
                &&& r == old(self).spec_client(can_id).spec_handle_response(response@).1
                &&& final(self).spec_has(can_id)
                &&& final(self).spec_client(can_id) == old(self).spec_client(
                    can_id,
                ).spec_handle_response(response@).0
                &&& RobstrideDriver::spec_same_except(*old(self), *final(self), can_id)
            },
    {
        let ghost pre = *self;
        let idx = self.find_index(can_id);
        match idx {
            None => Err(RobstrideError::ActuatorNotFound(can_id)),
            Some(i) => {
                let mut c = self.clients[i];
                let r = c.handle_response(response);
                self.register_client(c);
                proof {
                    pre.lemma_index_of(i as int, can_id);
                }
                r
            },
        }
    }

    /// Resolves one awaited round trip for a registered actuator. The
    /// event is the one response received within the deadline, or
    /// `None` for a timeout, which resolves to the distinct `Timeout`
    /// error and changes nothing; no retry is automatic at any layer.
    pub fn handle_response_event(&mut self, can_id: u8, response: Option<&CanFrame>) -> (r: Result<
        Option<ActuatorFeedbackUpdate>,
        RobstrideError,
    >)
        requires
            old(self).wf(),
        ensures
            final(self).wf(),
            response is None ==> r == Err::<Option<ActuatorFeedbackUpdate>, RobstrideError>(
                RobstrideError::Timeout,
            ) && *final(self) == *old(self),
            response matches Some(f) ==> {
                &&& !old(self).spec_has(can_id) ==> r == Err::<
                    Option<ActuatorFeedbackUpdate>,
                    RobstrideError,
                >(RobstrideError::ActuatorNotFound(can_id)) && *final(self) == *old(self)
                &&& old(self).spec_has(can_id) ==> {
                    &&& r == old(self).spec_client(can_id).spec_handle_response(f@).1
                    &&& final(self).spec_has(can_id)
                    &&& final(self).spec_client(can_id) == old(self).spec_client(
                        can_id,
                    ).spec_handle_response(f@).0
                    &&& RobstrideDriver::spec_same_except(*old(self), *final(self), can_id)
                }
            },
    {
        match response {
            None => Err(RobstrideError::Timeout),
            Some(frame) => self.handle_response_for(can_id, frame),
        }
    }

    /// The ObtainId probe frame a typed ping sends for this identifier.
    pub fn ping_probe_frame(can_id: u8, actuator_type: RobstrideActuatorType) -> (f: CanFrame)
        ensures
            f@ == spec_staged_ping_client(can_id, actuator_type).last_request.unwrap().wire_bytes(),
    {
        let mut c = ActuatorClient::new(can_id, actuator_type);
        c.stage_request(&ActuatorRequestParams::ObtainId)
    }

    /// What a typed ping does with its outcome. The event is the one
    /// response received within the deadline, or `None` for a timeout.
    /// A timeout or a rejected response changes nothing and the ping
    /// reports `false`; a response the staged session accepts registers
    /// that session (identity learned, ranges bound) and reports
    /// `true`.
    pub fn ping_actuator_outcome(
        &mut self,
        can_id: u8,
        actuator_type: RobstrideActuatorType,
        response: Option<&CanFrame>,
    ) -> (ok: bool)
        requires
            old(self).wf(),
        ensures
            final(self).wf(),
            response is None ==> !ok && *final(self) == *old(self),
            response matches Some(f) ==> {
                let staged = spec_staged_ping_client(can_id, actuator_type);
                let outcome = staged.spec_handle_response(f@);
                if outcome.1 is Ok {
                    &&& ok
                    &&& final(self).spec_has(can_id)
                    &&& final(self).spec_client(can_id) == outcome.0
                    &&& RobstrideDriver::spec_same_except(*old(self), *final(self), can_id)
                } else {
                    !ok && *final(self) == *old(self)
                }
            },
    {
        match response {
            None => false,
            Some(frame) => {
                let mut c = ActuatorClient::new(can_id, actuator_type);
                let _probe = c.stage_request(&ActuatorRequestParams::ObtainId);
                match c.handle_response(frame) {
                    Ok(_) => {
                        self.register_client(c);
                        true
                    },
                    Err(_) => false,
                }
            },
        }
    }

    /// The bare ObtainId probe used by the raw discovery scan, with the
    /// single-byte host identifier.
    pub fn raw_ping_frame(can_id: u8) -> (f: CanFrame)
        ensures
            f@ == (ObtainIdRequest { actuator_can_id: can_id, host_id: PROBE_HOST_ID as u16 })
                .wire_bytes(),
    {
        ObtainIdRequest::new(PROBE_HOST_ID as u16, can_id).encode()
    }

    /// Whether a received frame answers a raw ObtainId probe for this
    /// identifier: it must carry the ObtainId discriminator and name
    /// exactly this actuator.
    pub fn is_matching_obtain_id(frame: &CanFrame, can_id: u8) -> (b: bool)
        ensures
            b == (spec_mux(frame@) == 0x00 && spec_actuator_can_id_from_response(frame@) == can_id),
    {
        let mux = crate::protocol::mux_from_can_frame(frame);
        if mux == 0x00 {
            let responder = crate::protocol::actuator_can_id_from_response(frame);
            responder == can_id
        } else {
            false
        }
    }

    /// The order in which the known models are tried when a discovered
    /// identifier is bound to a type.
    pub fn scan_candidate_types() -> (v: Vec<RobstrideActuatorType>)
        ensures
            v@ =~= seq![
                RobstrideActuatorType::Robstride01,
                RobstrideActuatorType::Robstride00,
                RobstrideActuatorType::Robstride02,
                RobstrideActuatorType::Robstride03,
                RobstrideActuatorType::Robstride04,
            ],
    {
        let mut v: Vec<RobstrideActuatorType> = Vec::new();
        v.push(RobstrideActuatorType::Robstride01);
        v.push(RobstrideActuatorType::Robstride00);
        v.push(RobstrideActuatorType::Robstride02);
        v.push(RobstrideActuatorType::Robstride03);
        v.push(RobstrideActuatorType::Robstride04);
        v
    }

    /// Builds the request that starts a parameter dump for this
    /// identifier. Fails with `ActuatorNotFound` when no session is
    /// registered and with `MissingIdentity` when the session has no
    /// MCU unique identifier yet; no I/O is attempted in either case.
    pub fn read_all_params_request(&self, actuator_id: u8) -> (r: Result<CanFrame, RobstrideError>)
        requires
            self.wf(),
        ensures
            !self.spec_has(actuator_id) ==> r == Err::<CanFrame, RobstrideError>(
                RobstrideError::ActuatorNotFound(actuator_id),
            ),
            self.spec_has(actuator_id) && self.spec_client(actuator_id).mcu_uid is None ==> r
                == Err::<CanFrame, RobstrideError>(RobstrideError::MissingIdentity(actuator_id)),
            (self.spec_has(actuator_id) && self.spec_client(actuator_id).mcu_uid is Some) ==> (
            r matches Ok(f) && f@ == (ReadAllParamsRequest {
                actuator_can_id: actuator_id,
                host_id: PROBE_HOST_ID,
                res_id: 0u8,
                mcu_uid: self.spec_client(actuator_id).mcu_uid.unwrap(),
            }).wire_bytes()),
    {
        let idx = self.find_index(actuator_id);
        match idx {
            None => Err(RobstrideError::ActuatorNotFound(actuator_id)),
            Some(i) => {
                match self.clients[i].mcu_uid {
                    None => Err(RobstrideError::MissingIdentity(actuator_id)),
                    Some(uid) => Ok(
                        ReadAllParamsRequest::new(PROBE_HOST_ID, actuator_id, uid).encode(),
                    ),
                }
            },
        }
    }
}

/// Decodes one received frame as a dump fragment: the parameter code,
/// the sequencing hint byte, and the value bytes the fragment carries
/// (its declared length minus the two code bytes, at most six). Any
/// other frame, an unknown discriminator included, yields nothing:
/// fragment collection skips it and goes on.
pub fn fragment_info(frame: &CanFrame) -> (r: Option<(u16, u8, Vec<u8>)>)
    ensures
        match ActuatorResponse::spec_response_of(frame@) {
            Ok(ActuatorResponse::ReadAllParams(resp)) => r matches Some(info) && info.0
                == resp.param_idx && info.1 == resp.byte_marker && info.2@ == spec_fragment_data(
                resp,
            ),
            _ => r is None,
        },
{
    match ActuatorResponse::from_can_frame(frame) {
        Ok(ActuatorResponse::ReadAllParams(resp)) => {
            let data = fragment_data_bytes(&resp);
            Some((resp.param_idx, resp.byte_marker, data))
        },
        _ => None,
    }
}

/// Copies out the value bytes a fragment carries.
pub fn fragment_data_bytes(resp: &ReadAllParamsResponse) -> (data: Vec<u8>)
    ensures
        data@ == spec_fragment_data(*resp),
{
    let n: usize = if resp.len <= 2 {
        0
    } else if resp.len >= 8 {
        6
    } else {
        (resp.len - 2) as usize
    };
    let mut data: Vec<u8> = Vec::new();
    let mut i: usize = 0;
    while i < n
        invariant
            n <= 6,
            i <= n,
            data@ =~= resp.can_data@.take(i as int),
        decreases n - i,
    {
        data.push(resp.can_data[i]);
        i = i + 1;
    }
    proof {
        assert(data@ =~= spec_fragment_data(*resp));
    }
    data
}

// ---------------------------------------------------------------------
// Parameter-dump reassembly
// ---------------------------------------------------------------------

/// Whether an accumulated dump holds an entry for this parameter code.
pub open spec fn view_has(v: Seq<(u16, Seq<u8>)>, code: u16) -> bool {
    exists|i: int| 0 <= i < v.len() && (#[trigger] v[i]).0 == code
}

/// The position of this code's entry in the accumulated dump.
pub open spec fn view_index_of(v: Seq<(u16, Seq<u8>)>, code: u16) -> int {
    choose|i: int| 0 <= i < v.len() && (#[trigger] v[i]).0 == code
}

/// No parameter code is held twice.
pub open spec fn view_wf(v: Seq<(u16, Seq<u8>)>) -> bool {
    forall|i: int, j: int| 0 <= i < j < v.len() ==> v[i].0 != v[j].0
}

/// The bytes accumulated so far for this code; empty when no fragment
/// for it has arrived.
pub open spec fn view_data_for(v: Seq<(u16, Seq<u8>)>, code: u16) -> Seq<u8> {
    if view_has(v, code) {
        v[view_index_of(v, code)].1
    } else {
        Seq::<u8>::empty()
    }
}

/// One fragment folded into the accumulated dump: its bytes appended
/// to its code's entry, or a new entry at the end for a first-seen
/// code. Fragments of one code concatenate strictly in arrival order.
pub open spec fn view_absorb(v: Seq<(u16, Seq<u8>)>, code: u16, data: Seq<u8>) -> Seq<
    (u16, Seq<u8>),
> {
    if view_has(v, code) {
        let i = view_index_of(v, code);
        v.update(i, (code, v[i].1 + data))
    } else {
        v.push((code, data))
    }
}

/// A whole arrival sequence of fragments folded in, first to last.
pub open spec fn view_absorb_all(v: Seq<(u16, Seq<u8>)>, resps: Seq<ReadAllParamsResponse>) -> Seq<
    (u16, Seq<u8>),
>
    decreases resps.len(),
{
    if resps.len() == 0 {
        v
    } else {
        view_absorb(
            view_absorb_all(v, resps.drop_last()),
            resps.last().param_idx,
            spec_fragment_data(resps.last()),
        )
    }
}

/// The concatenation, in arrival order, of the value bytes of exactly
/// those fragments that carry this code.
pub open spec fn spec_concat_for(resps: Seq<ReadAllParamsResponse>, code: u16) -> Seq<u8>
    decreases resps.len(),
{
    if resps.len() == 0 {
        Seq::<u8>::empty()
    } else {
        spec_concat_for(resps.drop_last(), code) + if resps.last().param_idx == code {
            spec_fragment_data(resps.last())
        } else {
            Seq::<u8>::empty()
        }
    }
}

/// In a well-formed dump a code determines its entry's position.
pub proof fn lemma_view_index_of(v: Seq<(u16, Seq<u8>)>, i: int, code: u16)
    requires
        view_wf(v),
        0 <= i < v.len(),
        v[i].0 == code,
    ensures
        view_has(v, code),
        view_index_of(v, code) == i,
{
    assert(view_has(v, code));
    let j = view_index_of(v, code);
    if j != i {
        assert(false);
    }
}

/// What folding one fragment in does: its code's bytes grow by exactly
/// the fragment's bytes, every other code keeps its bytes, and no code
/// is ever duplicated.
pub proof fn lemma_view_absorb(v: Seq<(u16, Seq<u8>)>, code: u16, data: Seq<u8>)
    requires
        view_wf(v),
    ensures
        view_wf(view_absorb(v, code, data)),
        view_has(view_absorb(v, code, data), code),
        view_data_for(view_absorb(v, code, data), code) == view_data_for(v, code) + data,
        forall|c: u16|
            c != code ==> (#[trigger] view_has(view_absorb(v, code, data), c) <==> view_has(v, c)),
        forall|c: u16|
            c != code ==> #[trigger] view_data_for(view_absorb(v, code, data), c)
                == view_data_for(v, c),
{
    let post = view_absorb(v, code, data);
    if view_has(v, code) {
        let i = view_index_of(v, code);
        assert(0 <= i < v.len() && v[i].0 == code);
        assert forall|i2: int, j2: int| 0 <= i2 < j2 < post.len() implies post[i2].0
            != post[j2].0 by {
            assert(v[i2].0 != v[j2].0);
        }
        lemma_view_index_of(post, i, code);
        assert forall|c: u16| c != code implies (#[trigger] view_has(post, c) <==> view_has(
            v,
            c,
        )) by {
            if view_has(v, c) {
                let j = view_index_of(v, c);
                assert(j != i);
                assert(post[j].0 == c);
            }
            if view_has(post, c) {
                let j = view_index_of(post, c);
                assert(j != i);
                assert(v[j].0 == c);
            }
        }
        assert forall|c: u16| c != code implies #[trigger] view_data_for(post, c)
            == view_data_for(v, c) by {
            if view_has(v, c) {
                let j = view_index_of(v, c);
                assert(j != i);
                assert(post[j].0 == c);
                lemma_view_index_of(post, j, c);
                lemma_view_index_of(v, j, c);
            }
        }
    } else {
        let n = v.len() as int;
        assert forall|i2: int, j2: int| 0 <= i2 < j2 < post.len() implies post[i2].0
            != post[j2].0 by {
            if j2 == n {
                assert(post[i2].0 == v[i2].0);
                assert(!(v[i2].0 == code));
            } else {
                assert(v[i2].0 != v[j2].0);
            }
        }
        lemma_view_index_of(post, n, code);
        assert forall|c: u16| c != code implies (#[trigger] view_has(post, c) <==> view_has(
            v,
            c,
        )) by {
            if view_has(v, c) {
                let j = view_index_of(v, c);
                assert(post[j].0 == c);
            }
            if view_has(post, c) {
                let j = view_index_of(post, c);
                assert(j != n);
                assert(v[j].0 == c);
            }
        }
        assert forall|c: u16| c != code implies #[trigger] view_data_for(post, c)
            == view_data_for(v, c) by {
            if view_has(v, c) {
                let j = view_index_of(v, c);
                assert(post[j].0 == c);
                lemma_view_index_of(post, j, c);
                lemma_view_index_of(v, j, c);
            }
        }
    }
}

/// Fragment accumulation: after a whole arrival sequence is folded in,
/// the bytes held for a parameter code are what the dump already held
/// for it, followed by the value bytes of that code's fragments,
/// concatenated in arrival order.
pub proof fn lemma_fragment_accumulation(
    v: Seq<(u16, Seq<u8>)>,
    resps: Seq<ReadAllParamsResponse>,
    code: u16,
)
    requires
        view_wf(v),
    ensures
        view_wf(view_absorb_all(v, resps)),
        view_data_for(view_absorb_all(v, resps), code) == view_data_for(v, code)
            + spec_concat_for(resps, code),
    decreases resps.len(),
{
    if resps.len() == 0 {
        assert(view_data_for(v, code) + spec_concat_for(resps, code) =~= view_data_for(v, code));
    } else {
        let butlast = resps.drop_last();
        let last = resps.last();
        lemma_fragment_accumulation(v, butlast, code);
        let mid = view_absorb_all(v, butlast);
        lemma_view_absorb(mid, last.param_idx, spec_fragment_data(last));
        if last.param_idx == code {
            assert(view_data_for(view_absorb_all(v, resps), code) =~= view_data_for(v, code)
                + spec_concat_for(resps, code));
        } else {
            assert(view_data_for(v, code) + spec_concat_for(resps, code) =~= view_data_for(
                v,
                code,
            ) + spec_concat_for(butlast, code));
        }
    }
}

/// Accumulates the fragments of one full parameter dump: one entry per
/// parameter code, in first-seen order, each holding the concatenation
/// of its fragments' value bytes in arrival order. No ordering beyond
/// arrival order is enforced; the sequencing hint byte is not
/// interpreted.
#[derive(Clone, Debug)]
pub struct ParamDumpCollector {
    pub entries: Vec<(u16, Vec<u8>)>,
}

impl View for ParamDumpCollector {
    type V = Seq<(u16, Seq<u8>)>;

    open spec fn view(&self) -> Seq<(u16, Seq<u8>)> {
        Seq::new(self.entries@.len(), |i: int| (self.entries@[i].0, self.entries@[i].1@))
    }
}

impl ParamDumpCollector {
    pub open spec fn wf(self) -> bool {
        view_wf(self@)
    }

    /// An empty dump.
    pub fn new() -> (c: ParamDumpCollector)
        ensures
            c@ =~= Seq::<(u16, Seq<u8>)>::empty(),
            c.wf(),
    {
        ParamDumpCollector { entries: Vec::new() }
    }

    /// How many parameter codes have been seen so far.
    pub fn count(&self) -> (n: usize)
        ensures
            n == self@.len(),
    {
        self.entries.len()
    }

    /// Folds one fragment in (see [`view_absorb`]).
    pub fn absorb(&mut self, resp: &ReadAllParamsResponse)
        requires
            old(self).wf(),
        ensures
            final(self)@ == view_absorb(old(self)@, resp.param_idx, spec_fragment_data(*resp)),
            final(self).wf(),
    {
        let ghost pre = self@;
        let mut data = fragment_data_bytes(resp);
        let mut i: usize = 0;
        let n = self.entries.len();
        while i < n
            invariant
                n == self.entries@.len(),
                i <= n,
                forall|k: int| 0 <= k < i ==> (#[trigger] self.entries@[k]).0 != resp.param_idx,
                data@ == spec_fragment_data(*resp),
                pre == self@,
                pre == old(self)@,
                view_wf(pre),
            decreases n - i,
        {
            if self.entries[i].0 == resp.param_idx {
                proof {
                    lemma_view_index_of(pre, i as int, resp.param_idx);
                }
                let slot = vstd::std_specs::vec::vec_index_mut(&mut self.entries, i);
                slot.1.append(&mut data);
                proof {
                    assert(self@ =~~= view_absorb(pre, resp.param_idx, spec_fragment_data(*resp)));
                    lemma_view_absorb(pre, resp.param_idx, spec_fragment_data(*resp));
                }
                return ;
            }
            i = i + 1;
        }
        proof {
            assert(!view_has(pre, resp.param_idx));
        }
        self.entries.push((resp.param_idx, data));
        proof {
            assert(self@ =~~= view_absorb(pre, resp.param_idx, spec_fragment_data(*resp)));
            lemma_view_absorb(pre, resp.param_idx, spec_fragment_data(*resp));
        }
    }

    /// Folds one received frame in if it is a dump fragment; any other
    /// frame, one with an unknown discriminator included, is skipped
    /// and the dump is unchanged.
    pub fn absorb_frame(&mut self, frame: &CanFrame) -> (absorbed: bool)
        requires
            old(self).wf(),
        ensures
            final(self).wf(),
            match ActuatorResponse::spec_response_of(frame@) {
                Ok(ActuatorResponse::ReadAllParams(resp)) => absorbed && final(self)@
                    == view_absorb(old(self)@, resp.param_idx, spec_fragment_data(resp)),
                _ => !absorbed && *final(self) == *old(self),
            },
    {
        match ActuatorResponse::from_can_frame(frame) {
            Ok(ActuatorResponse::ReadAllParams(resp)) => {
                self.absorb(&resp);
                true
            },
            _ => false,
        }
    }

    /// Hands the accumulated dump out, one `(code, bytes)` pair per
    /// parameter in first-seen order.
    pub fn into_entries(self) -> (v: Vec<(u16, Vec<u8>)>)
        ensures
            v@.len() == self@.len(),
            forall|i: int|
                0 <= i < v@.len() ==> (#[trigger] v@[i]).0 == self@[i].0 && v@[i].1@ == self@[i].1,
    {
        self.entries
    }
}

/// Collects the value of one target parameter out of a dump stream.
/// Fragments for the target concatenate in arrival order; a fragment
/// for any other parameter, once the target has been seen, is the cue
/// that the target's fragments have ended.
#[derive(Clone, Debug)]
pub struct SingleParamCollector {
    pub target: u16,
    pub data: Vec<u8>,
    pub seen: bool,
}

impl SingleParamCollector {
    /// Starts collecting for one parameter code.
    pub fn new(target: u16) -> (c: SingleParamCollector)
        ensures
            c.target == target,
            c.data@ =~= Seq::<u8>::empty(),
            !c.seen,
    {
        SingleParamCollector { target, data: Vec::new(), seen: false }
    }

    /// Feeds one received frame in. A fragment for the target appends
    /// its value bytes; a fragment for another parameter reports the
    /// collection done once the target has been seen; any other frame
    /// is skipped.
    pub fn step(&mut self, frame: &CanFrame) -> (done: bool)
        ensures
            final(self).target == old(self).target,
            match ActuatorResponse::spec_response_of(frame@) {
                Ok(ActuatorResponse::ReadAllParams(resp)) => {
                    if resp.param_idx == old(self).target {
                        &&& final(self).data@ == old(self).data@ + spec_fragment_data(resp)
                        &&& final(self).seen
                        &&& !done
                    } else {
                        *final(self) == *old(self) && done == old(self).seen
                    }
                },
                _ => *final(self) == *old(self) && !done,
            },
    {
        match ActuatorResponse::from_can_frame(frame) {
            Ok(ActuatorResponse::ReadAllParams(resp)) => {
                if resp.param_idx == self.target {
                    let mut data = fragment_data_bytes(&resp);
                    self.data.append(&mut data);
                    self.seen = true;
                    false
                } else {
                    self.seen
                }
            },
            _ => false,
        }
    }

    /// The accumulated value bytes, or nothing when no fragment for
    /// the target ever arrived (a timeout resolves to "no response",
    /// not an error).
    pub fn finish(&self) -> (r: Option<Vec<u8>>)
        ensures
            self.seen ==> (r matches Some(d) && d@ == self.data@),
            !self.seen ==> r is None,
    {
        if self.seen {
            Some(self.data.clone())
        } else {
            None
        }
    }
}

} // verus!
