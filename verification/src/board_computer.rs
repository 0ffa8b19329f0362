use vstd::prelude::*;
use crate::boat_info::{BoatInfo, BoatInfoView, VoyageDataView};
use crate::common::constants::HARBOURMASTER_MMSI;
use crate::common::errors::{BoardComputerError, BoardComputerResult};
use crate::common::types::{SatComMessageType, VoyageStatus};
use crate::satcom_message::{SatComMessage, SatComMessageView, opt_body_view};
use crate::voyage::{Voyage, VoyageSegment, VoyageView};
use crate::voyage_order::{VoyageOrder, VoyageOrderBody, VoyageOrderHeader, VoyageOrderView};

verus! {

/// What the board computer does with a message.
#[derive(Debug, Clone, Copy, PartialEq, Eq, Structural)]
pub enum BoardAction {
    Ignore,
    Offer,
    RevReqAck,
    InitialRevAcceptationAck,
    RevAcceptation,
    RevRefusal,
    RevRequest,
    EndOfVoyage,
}

/// The voyage a boat sails and the revision of its order under way.
pub struct BoardComputer {
    voyage: Option<Voyage>,
    voyage_order_revision: Option<VoyageOrder>,
}

/// The contents of a [`BoardComputer`].
pub struct BoardComputerView {
    pub voyage: Option<VoyageView>,
    pub voyage_order_revision: Option<VoyageOrderView>,
}

pub open spec fn opt_voyage_view(v: Option<Voyage>) -> Option<VoyageView> {
    match v {
        Some(voyage) => Some(voyage@),
        None => None,
    }
}

pub open spec fn opt_order_view(o: Option<VoyageOrder>) -> Option<VoyageOrderView> {
    match o {
        Some(order) => Some(order@),
        None => None,
    }
}

/// The boat's position on the chart the voyages are plotted on: its
/// longitude and latitude cut to 16 bits.
pub open spec fn boat_position(b: BoatInfoView) -> (u16, u16) {
    (b.navigation_data.longitude as u16, b.navigation_data.latitude as u16)
}

/// `seg` runs from the position of the boat `b` to the destination of `o`.
pub open spec fn leg_to(seg: VoyageSegment, b: BoatInfoView, o: VoyageOrderView) -> bool {
    seg.start_point == boat_position(b) && seg.end_point == o.body.destination_position
}

impl View for BoardComputer {
    type V = BoardComputerView;

    closed spec fn view(&self) -> BoardComputerView {
        BoardComputerView {
            voyage: opt_voyage_view(self.voyage),
            voyage_order_revision: opt_order_view(self.voyage_order_revision),
        }
    }
}

/// The voyage's stage is `status` (`None`: there is no voyage).
pub open spec fn status_is(s: BoardComputerView, status: Option<VoyageStatus>) -> bool {
    match (s.voyage, status) {
        (Some(v), Some(st)) => v.status == st,
        (None, None) => true,
        _ => false,
    }
}

/// What the board computer of the boat `self_mmsi` does with a message of
/// type `t` about the order `header`: messages that do not come from the
/// harbourmaster to this boat are ignored; an offer is always answered; an
/// acknowledgement, acceptation or refusal of a submitted revision applies
/// to the revision under way, an acknowledgement of an accepted order to
/// the voyage; a revision request applies to a voyage accepted, refused or
/// under way with the same order id; the end of a completed voyage to the
/// voyage.
pub open spec fn board_action(
    s: BoardComputerView,
    t: SatComMessageType,
    source: u32,
    target: u32,
    header: VoyageOrderHeader,
    self_mmsi: u32,
) -> BoardAction {
    let concerns_current_voyage = s.voyage matches Some(v) && v.order.header == header;
    let concerns_current_rev = s.voyage_order_revision matches Some(r) && r.header == header;
    if target != self_mmsi || source != HARBOURMASTER_MMSI {
        BoardAction::Ignore
    } else {
        match t {
            SatComMessageType::Offer => BoardAction::Offer,
            SatComMessageType::Acknowledgement => if status_is(s, Some(VoyageStatus::RevisionSubmitted))
                && concerns_current_rev {
                BoardAction::RevReqAck
            } else if status_is(s, Some(VoyageStatus::RevisionAccepted)) && concerns_current_voyage {
                BoardAction::InitialRevAcceptationAck
            } else {
                BoardAction::Ignore
            },
            SatComMessageType::RevisionAcceptation => if status_is(
                s,
                Some(VoyageStatus::RevisionSubmitted),
            ) && concerns_current_rev {
                BoardAction::RevAcceptation
            } else {
                BoardAction::Ignore
            },
            SatComMessageType::RevisionRefusal => if status_is(s, Some(VoyageStatus::RevisionSubmitted))
                && concerns_current_rev {
                BoardAction::RevRefusal
            } else {
                BoardAction::Ignore
            },
            SatComMessageType::RevisionRequest => if (status_is(s, Some(VoyageStatus::RevisionAccepted))
                || status_is(s, Some(VoyageStatus::RevisionRefused)) || status_is(
                s,
                Some(VoyageStatus::InExecution),
            )) && s.voyage->0.order.header.id == header.id {
                BoardAction::RevRequest
            } else {
                BoardAction::Ignore
            },
            SatComMessageType::EndOfVoyage => if status_is(s, Some(VoyageStatus::Completed))
                && concerns_current_voyage {
                BoardAction::EndOfVoyage
            } else {
                BoardAction::Ignore
            },
            _ => BoardAction::Ignore,
        }
    }
}

/// What the board computer decides for a message from the harbourmaster to
/// this boat, by the voyage's stage:
/// - an offer is always taken in hand;
/// - a revision request about the order sailed (same id) is handled while
///   its revision is accepted or refused or while it is in execution, and
///   ignored at any other stage or for another order;
/// - the end of a completed voyage of the same order is handled;
/// - while a revision is submitted, its acknowledgement, acceptation and
///   refusal are handled when they concern that revision;
/// - the acknowledgement of an accepted order sailed is handled.
pub proof fn lemma_board_decisions(
    s: BoardComputerView,
    t: SatComMessageType,
    header: VoyageOrderHeader,
    self_mmsi: u32,
)
    ensures
        ({
            let a = board_action(s, t, HARBOURMASTER_MMSI, self_mmsi, header, self_mmsi);
            let sailing = s.voyage is Some;
            let v = s.voyage->0;
            let handles_rev_request = sailing && (v.status == VoyageStatus::RevisionAccepted || v.status
                == VoyageStatus::RevisionRefused || v.status == VoyageStatus::InExecution) && v.order.header.id
                == header.id;
            let submitted_rev = sailing && v.status == VoyageStatus::RevisionSubmitted
                && s.voyage_order_revision is Some && s.voyage_order_revision->0.header == header;
            &&& t == SatComMessageType::Offer ==> a == BoardAction::Offer
            &&& t == SatComMessageType::RevisionRequest && handles_rev_request ==> a == BoardAction::RevRequest
            &&& t == SatComMessageType::RevisionRequest && !handles_rev_request ==> a == BoardAction::Ignore
            &&& t == SatComMessageType::EndOfVoyage && sailing && v.status == VoyageStatus::Completed
                && v.order.header == header ==> a == BoardAction::EndOfVoyage
            &&& t == SatComMessageType::Acknowledgement && submitted_rev ==> a == BoardAction::RevReqAck
            &&& t == SatComMessageType::RevisionAcceptation && submitted_rev ==> a
                == BoardAction::RevAcceptation
            &&& t == SatComMessageType::RevisionRefusal && submitted_rev ==> a == BoardAction::RevRefusal
            &&& t == SatComMessageType::Acknowledgement && sailing && v.status
                == VoyageStatus::RevisionAccepted && v.order.header == header ==> a
                == BoardAction::InitialRevAcceptationAck
        }),
{
}

/// The reply of the boat `self_mmsi` to a message: to the harbourmaster,
/// about `res_order_header` (by default the message's header), with the
/// revised body given, if any.
pub open spec fn board_reply_of(
    m: SatComMessageView,
    self_mmsi: u32,
    t: SatComMessageType,
    res_order_header: Option<VoyageOrderHeader>,
    res_order_revision: Option<VoyageOrderBody>,
) -> SatComMessageView {
    SatComMessageView {
        source: self_mmsi,
        target: HARBOURMASTER_MMSI,
        order_header: match res_order_header {
            Some(h) => h,
            None => m.order_header,
        },
        message_type: t,
        order_body_review: opt_body_view(res_order_revision),
    }
}

/// The reply of the boat `self_mmsi` to `satcom_msg`; see [`board_reply_of`].
pub fn board_reply(
    satcom_msg: &SatComMessage,
    self_mmsi: u32,
    msg_type: SatComMessageType,
    res_order_header: Option<VoyageOrderHeader>,
    res_order_revision: Option<VoyageOrderBody>,
) -> (r: SatComMessage)
    ensures
        r@ == board_reply_of(satcom_msg@, self_mmsi, msg_type, res_order_header, res_order_revision),
{
    let header = match res_order_header {
        Some(h) => h,
        None => satcom_msg.order_header(),
    };
    SatComMessage::new(self_mmsi, HARBOURMASTER_MMSI, header, msg_type, res_order_revision)
}

/// The voyage data that adopting an order gives the boat: its destination
/// and arrival time; the other voyage fields stay.
pub open spec fn adopted_voyage_data(v: VoyageDataView, order: VoyageOrderView) -> VoyageDataView {
    VoyageDataView {
        destination: order.body.destination,
        eta_month: order.body.eta_month,
        eta_day: order.body.eta_day,
        eta_hour: order.body.eta_hour,
        eta_minute: order.body.eta_minute,
        ..v
    }
}

impl BoardComputer {
    /// A board computer sailing `voyage`, if any, with no revision under way.
    pub fn init(voyage: Option<Voyage>) -> (r: Self)
        ensures
            r@.voyage == opt_voyage_view(voyage),
            r@.voyage_order_revision is None,
    {
        BoardComputer { voyage, voyage_order_revision: None }
    }

    /// The order of the voyage; an error when there is no voyage.
    pub fn order(&self) -> (r: BoardComputerResult<&VoyageOrder>)
        ensures
            match self@.voyage {
                Some(v) => r matches Ok(o) && o@ == v.order,
                None => r == Err::<&VoyageOrder, BoardComputerError>(
                    BoardComputerError::NoVoyageOrder,
                ),
            },
    {
        match &self.voyage {
            Some(v) => Ok(v.order()),
            None => Err(BoardComputerError::NoVoyageOrder),
        }
    }

    /// The revision under way; an error when there is none.
    pub fn order_revision(&self) -> (r: BoardComputerResult<&VoyageOrder>)
        ensures
            match self@.voyage_order_revision {
                Some(o) => r matches Ok(x) && x@ == o,
                None => r == Err::<&VoyageOrder, BoardComputerError>(
                    BoardComputerError::NoVoyageOrderRevision,
                ),
            },
    {
        match &self.voyage_order_revision {
            Some(o) => Ok(o),
            None => Err(BoardComputerError::NoVoyageOrderRevision),
        }
    }

    /// Sets the version of the revision under way; an error when there is none.
    pub fn set_revision_version(&mut self, version: u8) -> (r: BoardComputerResult<()>)
        ensures
            match old(self)@.voyage_order_revision {
                Some(o) => r is Ok && final(self)@ == (BoardComputerView {
                    voyage_order_revision: Some(
                        VoyageOrderView { header: VoyageOrderHeader { version, ..o.header }, ..o },
                    ),
                    ..old(self)@
                }),
                None => r == Err::<(), BoardComputerError>(BoardComputerError::NoVoyageOrderRevision)
                    && final(self)@ == old(self)@,
            },
    {
        match self.voyage_order_revision.take() {
            Some(mut o) => {
                o.set_ver(version);
                self.voyage_order_revision = Some(o);
                Ok(())
            },
            None => Err(BoardComputerError::NoVoyageOrderRevision),
        }
    }

    /// Makes `order` the revision under way.
    pub fn set_revision(&mut self, order: VoyageOrder)
        ensures
            final(self)@ == (BoardComputerView {
                voyage_order_revision: Some(order@),
                ..old(self)@
            }),
    {
        self.voyage_order_revision = Some(order);
    }

    /// Whether there is a voyage.
    pub fn has_voyage(&self) -> (r: bool)
        ensures
            r == self@.voyage is Some,
    {
        self.voyage.is_some()
    }

    /// Sails `new_voyage` from now on.
    pub fn update_voyage(&mut self, new_voyage: Voyage)
        ensures
            final(self)@ == (BoardComputerView { voyage: Some(new_voyage@), ..old(self)@ }),
    {
        self.voyage = Some(new_voyage);
    }

    /// Sets the stage of the voyage; an error when there is no voyage.
    pub fn update_voyage_status(&mut self, status: VoyageStatus) -> (r: BoardComputerResult<()>)
        ensures
            match old(self)@.voyage {
                Some(v) => r is Ok && final(self)@ == (BoardComputerView {
                    voyage: Some(VoyageView { status, ..v }),
                    ..old(self)@
                }),
                None => r == Err::<(), BoardComputerError>(BoardComputerError::NoVoyageOrder)
                    && final(self)@ == old(self)@,
            },
    {
        match self.voyage.take() {
            Some(mut v) => {
                v.set_status(status);
                self.voyage = Some(v);
                Ok(())
            },
            None => Err(BoardComputerError::NoVoyageOrder),
        }
    }

    /// Whether the voyage's stage is `status`; see [`status_is`].
    pub fn matches_status(&self, status: Option<VoyageStatus>) -> (r: bool)
        ensures
            r == status_is(self@, status),
    {
        match (&self.voyage, status) {
            (Some(v), Some(s)) => *v.status() == s,
            (None, None) => true,
            _ => false,
        }
    }

    /// Takes up `order`: the voyage becomes one that carries it out along
    /// `first_segment`, which runs from the boat's position to the order's
    /// destination, and the boat's voyage data take the order's destination
    /// and arrival time.
    pub fn adopt_voyage_order(
        &mut self,
        order: &VoyageOrder,
        boat_info: &mut BoatInfo,
        first_segment: VoyageSegment,
    ) -> (r: BoardComputerResult<()>)
        requires
            leg_to(first_segment, old(boat_info)@, order@),
        ensures
            r is Ok,
            final(self)@ == (BoardComputerView {
                voyage: Some(
                    VoyageView {
                        order: order@,
                        status: VoyageStatus::UnderRevision,
                        segments: seq![first_segment],
                        current_segment: 0,
                    },
                ),
                ..old(self)@
            }),
            final(boat_info)@ == (BoatInfoView {
                voyage_data: adopted_voyage_data(old(boat_info)@.voyage_data, order@),
                ..old(boat_info)@
            }),
    {
        let position: (u16, u16) = match boat_info.get_navigation_data() {
            Ok(nav) => (nav.longitude as u16, nav.latitude as u16),
            Err(e) => return Err(BoardComputerError::BoatInfo(e)),
        };
        self.update_voyage(Voyage::from(order.clone(), position, first_segment));
        let order_body = order.body();
        match boat_info.update_voyage_data(
            Some(order_body.destination().clone()),
            Some(*order_body.eta_month()),
            Some(*order_body.eta_day()),
            Some(*order_body.eta_hour()),
            Some(*order_body.eta_minute()),
        ) {
            Ok(_) => {},
            Err(e) => return Err(BoardComputerError::BoatInfo(e)),
        }
        Ok(())
    }

    /// Takes up the revision under way as in
    /// [`BoardComputer::adopt_voyage_order`], and forgets it as a
    /// revision; an error when there is none.
    pub fn adopt_voyage_order_rev(&mut self, boat_info: &mut BoatInfo, first_segment: VoyageSegment) -> (r:
        BoardComputerResult<()>)
        requires
            old(self)@.voyage_order_revision matches Some(o) ==> leg_to(first_segment, old(boat_info)@, o),
        ensures
            match old(self)@.voyage_order_revision {
                Some(o) => r is Ok && final(self)@ == (BoardComputerView {
                    voyage: Some(
                        VoyageView {
                            order: o,
                            status: VoyageStatus::UnderRevision,
                            segments: seq![first_segment],
                            current_segment: 0,
                        },
                    ),
                    voyage_order_revision: None,
                }) && final(boat_info)@ == (BoatInfoView {
                    voyage_data: adopted_voyage_data(old(boat_info)@.voyage_data, o),
                    ..old(boat_info)@
                }),
                None => r == Err::<(), BoardComputerError>(BoardComputerError::NoVoyageOrderRevision)
                    && final(self)@ == old(self)@ && final(boat_info)@ == old(boat_info)@,
            },
    {
        match self.voyage_order_revision.take() {
            Some(order) => self.adopt_voyage_order(&order, boat_info, first_segment),
            None => Err(BoardComputerError::NoVoyageOrderRevision),
        }
    }

    /// What to do with a message; see [`board_action`].
    pub fn decide(&self, satcom_msg: &SatComMessage, self_mmsi: u32) -> (r: BoardAction)
        ensures
            r == board_action(
                self@,
                satcom_msg.message_type,
                satcom_msg.source,
                satcom_msg.target,
                satcom_msg.order_header,
                self_mmsi,
            ),
    {
        if *satcom_msg.target() != self_mmsi || *satcom_msg.source() != HARBOURMASTER_MMSI {
            return BoardAction::Ignore;
        }
        let header = satcom_msg.order_header();
        let concerns_current_voyage = match &self.voyage {
            Some(v) => *v.order().header() == header,
            None => false,
        };
        let concerns_current_rev = match &self.voyage_order_revision {
            Some(rev) => *rev.header() == header,
            None => false,
        };
        match satcom_msg.message_type() {
            SatComMessageType::Offer => BoardAction::Offer,
            SatComMessageType::Acknowledgement => {
                if self.matches_status(Some(VoyageStatus::RevisionSubmitted)) && concerns_current_rev {
                    BoardAction::RevReqAck
                } else if self.matches_status(Some(VoyageStatus::RevisionAccepted))
                    && concerns_current_voyage {
                    BoardAction::InitialRevAcceptationAck
                } else {
                    BoardAction::Ignore
                }
            },
            SatComMessageType::RevisionAcceptation => {
                if self.matches_status(Some(VoyageStatus::RevisionSubmitted)) && concerns_current_rev {
                    BoardAction::RevAcceptation
                } else {
                    BoardAction::Ignore
                }
            },
            SatComMessageType::RevisionRefusal => {
                if self.matches_status(Some(VoyageStatus::RevisionSubmitted)) && concerns_current_rev {
                    BoardAction::RevRefusal
                } else {
                    BoardAction::Ignore
                }
            },
            SatComMessageType::RevisionRequest => {
                if self.matches_status(Some(VoyageStatus::RevisionAccepted)) || self.matches_status(
                    Some(VoyageStatus::RevisionRefused),
                ) || self.matches_status(Some(VoyageStatus::InExecution)) {
                    let same_id = match self.order() {
                        Ok(o) => *o.header().id() == header.id,
                        Err(_) => false,
                    };
                    if same_id {
                        BoardAction::RevRequest
                    } else {
                        BoardAction::Ignore
                    }
                } else {
                    BoardAction::Ignore
                }
            },
            SatComMessageType::EndOfVoyage => {
                if self.matches_status(Some(VoyageStatus::Completed)) && concerns_current_voyage {
                    BoardAction::EndOfVoyage
                } else {
                    BoardAction::Ignore
                }
            },
            _ => BoardAction::Ignore,
        }
    }
}


/// What handling a message comes to: the board computer's state after it,
/// the replies sent (in order), how it ends, and the order whose
/// destination and arrival time the boat's voyage data took, if any.
pub struct BoardStep {
    pub state: BoardComputerView,
    pub replies: Seq<SatComMessageView>,
    pub result: BoardComputerResult<()>,
    pub adopted: Option<VoyageOrderView>,
}

/// The order that a message carries, when it carries a body.
pub open spec fn carried_order(m: SatComMessageView) -> Option<VoyageOrderView> {
    match m.order_body_review {
        Some(b) => Some(VoyageOrderView { header: m.order_header, body: b }),
        None => None,
    }
}

/// `s` with the voyage's stage set to `status` (unchanged without a voyage).
pub open spec fn with_status(s: BoardComputerView, status: VoyageStatus) -> BoardComputerView {
    match s.voyage {
        Some(v) => BoardComputerView { voyage: Some(VoyageView { status, ..v }), ..s },
        None => s,
    }
}

/// `s` with the version of the revision under way set to `version`
/// (unchanged without a revision).
pub open spec fn with_revision_version(s: BoardComputerView, version: u8) -> BoardComputerView {
    match s.voyage_order_revision {
        Some(o) => BoardComputerView {
            voyage_order_revision: Some(
                VoyageOrderView { header: VoyageOrderHeader { version, ..o.header }, ..o },
            ),
            ..s
        },
        None => s,
    }
}

/// A reply of type `t` to `m` about `m`'s own order header.
pub open spec fn plain_reply(m: SatComMessageView, self_mmsi: u32, t: SatComMessageType) -> SatComMessageView {
    board_reply_of(m, self_mmsi, t, None, None)
}

/// Sets the voyage's stage to `status` and replies `t`; an error, with
/// nothing changed or sent, when there is no voyage.
pub open spec fn status_and_reply_step(
    s: BoardComputerView,
    m: SatComMessageView,
    self_mmsi: u32,
    status: VoyageStatus,
    t: SatComMessageType,
) -> BoardStep {
    match s.voyage {
        Some(_) => BoardStep {
            state: with_status(s, status),
            replies: seq![plain_reply(m, self_mmsi, t)],
            result: Ok(()),
            adopted: None,
        },
        None => BoardStep {
            state: s,
            replies: seq![],
            result: Err(BoardComputerError::NoVoyageOrder),
            adopted: None,
        },
    }
}

/// The voyage that carries out `order` along `first_segment`, at stage `status`.
pub open spec fn voyage_for(order: VoyageOrderView, first_segment: VoyageSegment, status: VoyageStatus) -> VoyageView {
    VoyageView { order, status, segments: seq![first_segment], current_segment: 0 }
}

/// What the board computer of the boat `self_mmsi` does for the action `a`
/// on the message `m`; `first_segment` is the leg, from the boat's
/// position to the destination of the order that `m` carries, along which
/// an adopted order is sailed.
/// - An offer is acknowledged; a boat without a voyage takes the order up
///   and accepts it (an error after the acknowledgement when the message
///   carries no order), a boat with one refuses it.
/// - The acknowledgement of a submitted revision gives the revision the
///   message's version and puts the voyage under revision.
/// - The acknowledgement of an accepted order puts the voyage in execution,
///   which is reported.
/// - The acceptation of a submitted revision gives it the message's version
///   and accepts it; its refusal is taken and confirmed.
/// - A revision request makes the order carried the revision under way,
///   acknowledges it, takes it up and accepts it.
/// - The end of a completed voyage finishes it and is acknowledged.
pub open spec fn board_step(
    s: BoardComputerView,
    m: SatComMessageView,
    self_mmsi: u32,
    first_segment: VoyageSegment,
    a: BoardAction,
) -> BoardStep {
    match a {
        BoardAction::Ignore => BoardStep { state: s, replies: seq![], result: Ok(()), adopted: None },
        BoardAction::Offer => {
            let ack = plain_reply(m, self_mmsi, SatComMessageType::Acknowledgement);
            if s.voyage is Some {
                BoardStep {
                    state: s,
                    replies: seq![ack, plain_reply(m, self_mmsi, SatComMessageType::RevisionRefusal)],
                    result: Ok(()),
                    adopted: None,
                }
            } else {
                match carried_order(m) {
                    Some(o) => BoardStep {
                        state: BoardComputerView {
                            voyage: Some(voyage_for(o, first_segment, VoyageStatus::RevisionAccepted)),
                            ..s
                        },
                        replies: seq![ack, plain_reply(m, self_mmsi, SatComMessageType::RevisionAcceptation)],
                        result: Ok(()),
                        adopted: Some(o),
                    },
                    None => BoardStep {
                        state: s,
                        replies: seq![ack],
                        result: Err(BoardComputerError::NoVoyageOrder),
                        adopted: None,
                    },
                }
            }
        },
        BoardAction::RevReqAck | BoardAction::RevAcceptation => {
            if s.voyage_order_revision is None {
                BoardStep {
                    state: s,
                    replies: seq![],
                    result: Err(BoardComputerError::NoVoyageOrderRevision),
                    adopted: None,
                }
            } else {
                let s1 = with_revision_version(s, m.order_header.version);
                if a is RevReqAck {
                    match s.voyage {
                        Some(_) => BoardStep {
                            state: with_status(s1, VoyageStatus::UnderRevision),
                            replies: seq![],
                            result: Ok(()),
                            adopted: None,
                        },
                        None => BoardStep {
                            state: s1,
                            replies: seq![],
                            result: Err(BoardComputerError::NoVoyageOrder),
                            adopted: None,
                        },
                    }
                } else {
                    status_and_reply_step(
                        s1,
                        m,
                        self_mmsi,
                        VoyageStatus::RevisionAccepted,
                        SatComMessageType::RevisionAcceptation,
                    )
                }
            }
        },
        BoardAction::InitialRevAcceptationAck => status_and_reply_step(
            s,
            m,
            self_mmsi,
            VoyageStatus::InExecution,
            SatComMessageType::ExecutingLastAgreedRevision,
        ),
        BoardAction::RevRefusal => status_and_reply_step(
            s,
            m,
            self_mmsi,
            VoyageStatus::RevisionRefused,
            SatComMessageType::RevisionRefusal,
        ),
        BoardAction::RevRequest => match carried_order(m) {
            None => BoardStep {
                state: s,
                replies: seq![],
                result: Err(BoardComputerError::NoVoyageOrderRevision),
                adopted: None,
            },
            Some(o) => match s.voyage {
                Some(_) => BoardStep {
                    state: BoardComputerView {
                        voyage: Some(voyage_for(o, first_segment, VoyageStatus::RevisionAccepted)),
                        voyage_order_revision: None,
                    },
                    replies: seq![
                        plain_reply(m, self_mmsi, SatComMessageType::Acknowledgement),
                        plain_reply(m, self_mmsi, SatComMessageType::RevisionAcceptation),
                    ],
                    result: Ok(()),
                    adopted: Some(o),
                },
                None => BoardStep {
                    state: BoardComputerView { voyage_order_revision: Some(o), ..s },
                    replies: seq![],
                    result: Err(BoardComputerError::NoVoyageOrder),
                    adopted: None,
                },
            },
        },
        BoardAction::EndOfVoyage => status_and_reply_step(
            s,
            m,
            self_mmsi,
            VoyageStatus::Finished,
            SatComMessageType::Acknowledgement,
        ),
    }
}

/// A message that is not for this boat, or not from the harbourmaster,
/// changes nothing and is not answered.
pub proof fn lemma_foreign_message_ignored(
    s: BoardComputerView,
    m: SatComMessageView,
    self_mmsi: u32,
    first_segment: VoyageSegment,
)
    requires
        m.target != self_mmsi || m.source != HARBOURMASTER_MMSI,
    ensures
        board_step(
            s,
            m,
            self_mmsi,
            first_segment,
            board_action(s, m.message_type, m.source, m.target, m.order_header, self_mmsi),
        ) == (BoardStep { state: s, replies: seq![], result: Ok(()), adopted: None }),
{
}

/// An order is only ever taken up from the message handled, and the voyage
/// that then starts runs along one segment, the current one, from the
/// boat's position to that order's destination.
pub proof fn lemma_adopted_voyage_leg(
    s: BoardComputerView,
    m: SatComMessageView,
    self_mmsi: u32,
    first_segment: VoyageSegment,
    a: BoardAction,
    b: BoatInfoView,
)
    requires
        carried_order(m) matches Some(o) ==> leg_to(first_segment, b, o),
    ensures
        board_step(s, m, self_mmsi, first_segment, a).adopted matches Some(o) ==> {
            &&& carried_order(m) == Some(o)
            &&& board_step(s, m, self_mmsi, first_segment, a).state.voyage matches Some(v)
            &&& v.order == o
            &&& v.segments.len() == 1
            &&& v.current_segment == 0
            &&& v.segments[0].start_point == boat_position(b)
            &&& v.segments[0].end_point == o.body.destination_position
        },
{
}

/// What handling a decided message does, by the replies' types and the
/// voyage's stage afterwards (all replies go to the harbourmaster about the
/// message's order):
/// - an offer to a boat without a voyage, carrying an order, is acknowledged
///   and accepted, and the order is sailed with its revision accepted; a
///   boat with a voyage acknowledges and refuses it, its voyage unchanged;
/// - a revision request carrying an order, to a boat with a voyage, is
///   acknowledged and accepted, and the order carried is sailed with its
///   revision accepted and no revision left under way;
/// - the acknowledgement of an accepted order puts the voyage in execution,
///   which is reported;
/// - the end of a voyage finishes it and is acknowledged.
pub proof fn lemma_board_steps(s: BoardComputerView, m: SatComMessageView, self_mmsi: u32, first_segment: VoyageSegment)
    ensures
        ({
            let offer = board_step(s, m, self_mmsi, first_segment, BoardAction::Offer);
            &&& s.voyage is None && carried_order(m) is Some ==> offer.result is Ok && offer.replies.len() == 2
                && offer.replies[0].message_type == SatComMessageType::Acknowledgement
                && offer.replies[1].message_type == SatComMessageType::RevisionAcceptation
                && offer.state.voyage is Some && offer.state.voyage->0.order == carried_order(m)->0
                && offer.state.voyage->0.status == VoyageStatus::RevisionAccepted
            &&& s.voyage is Some ==> offer.result is Ok && offer.state == s && offer.replies.len() == 2
                && offer.replies[0].message_type == SatComMessageType::Acknowledgement
                && offer.replies[1].message_type == SatComMessageType::RevisionRefusal
            &&& forall|k: int| 0 <= k < offer.replies.len() ==> (#[trigger] offer.replies[k]).target
                == HARBOURMASTER_MMSI && offer.replies[k].source == self_mmsi
                && offer.replies[k].order_header == m.order_header
        }),
        ({
            let req = board_step(s, m, self_mmsi, first_segment, BoardAction::RevRequest);
            s.voyage is Some && carried_order(m) is Some ==> req.result is Ok && req.replies.len() == 2
                && req.replies[0].message_type == SatComMessageType::Acknowledgement
                && req.replies[1].message_type == SatComMessageType::RevisionAcceptation
                && req.state.voyage is Some && req.state.voyage->0.order == carried_order(m)->0
                && req.state.voyage->0.status == VoyageStatus::RevisionAccepted
                && req.state.voyage_order_revision is None
        }),
        ({
            let ack = board_step(s, m, self_mmsi, first_segment, BoardAction::InitialRevAcceptationAck);
            s.voyage is Some ==> ack.result is Ok && ack.state.voyage->0.status == VoyageStatus::InExecution
                && ack.replies.len() == 1 && ack.replies[0].message_type
                == SatComMessageType::ExecutingLastAgreedRevision
        }),
        ({
            let end = board_step(s, m, self_mmsi, first_segment, BoardAction::EndOfVoyage);
            s.voyage is Some ==> end.result is Ok && end.state.voyage->0.status == VoyageStatus::Finished
                && end.replies.len() == 1 && end.replies[0].message_type == SatComMessageType::Acknowledgement
        }),
{
}

/// The views of a sequence of messages.
pub open spec fn message_views(v: Seq<SatComMessage>) -> Seq<SatComMessageView> {
    v.map_values(|x: SatComMessage| x@)
}

/// The boat's data after a step that adopted `adopted`, if any.
pub open spec fn boat_after(b: BoatInfoView, adopted: Option<VoyageOrderView>) -> BoatInfoView {
    match adopted {
        Some(o) => BoatInfoView { voyage_data: adopted_voyage_data(b.voyage_data, o), ..b },
        None => b,
    }
}

impl BoardComputer {
    /// Sets the voyage's stage to `new_status`, then replies `msg_type` to
    /// `satcom_msg`; nothing is sent when there is no voyage.
    pub fn update_voyage_status_and_respond(
        &mut self,
        new_status: VoyageStatus,
        satcom_msg: &SatComMessage,
        self_mmsi: u32,
        msg_type: SatComMessageType,
        res_order_header: Option<VoyageOrderHeader>,
        res_order_rev: Option<VoyageOrderBody>,
        replies: &mut Vec<SatComMessage>,
    ) -> (r: BoardComputerResult<()>)
        ensures
            match old(self)@.voyage {
                Some(v) => r is Ok && final(self)@ == with_status(old(self)@, new_status)
                    && message_views(final(replies)@) == message_views(old(replies)@).push(
                    board_reply_of(satcom_msg@, self_mmsi, msg_type, res_order_header, res_order_rev),
                ),
                None => r == Err::<(), BoardComputerError>(BoardComputerError::NoVoyageOrder)
                    && final(self)@ == old(self)@ && final(replies)@ == old(replies)@,
            },
    {
        match self.update_voyage_status(new_status) {
            Ok(_) => {},
            Err(e) => return Err(e),
        }
        let reply = board_reply(satcom_msg, self_mmsi, msg_type, res_order_header, res_order_rev);
        replies.push(reply);
        proof {
            assert(message_views(replies@) =~= message_views(old(replies)@).push(reply@));
        }
        Ok(())
    }

    /// Handles an offer; see [`board_step`].
    pub fn handle_offer(
        &mut self,
        satcom_msg: &SatComMessage,
        self_mmsi: u32,
        boat_info: &mut BoatInfo,
        first_segment: VoyageSegment,
    ) -> (r: (Vec<SatComMessage>, BoardComputerResult<()>))
        requires
            carried_order(satcom_msg@) matches Some(o) ==> leg_to(first_segment, old(boat_info)@, o),
        ensures
            ({
                let step = board_step(old(self)@, satcom_msg@, self_mmsi, first_segment, BoardAction::Offer);
                &&& final(self)@ == step.state
                &&& message_views(r.0@) == step.replies
                &&& r.1 == step.result
                &&& final(boat_info)@ == boat_after(old(boat_info)@, step.adopted)
            }),
    {
        let mut replies: Vec<SatComMessage> = Vec::new();
        replies.push(board_reply(satcom_msg, self_mmsi, SatComMessageType::Acknowledgement, None, None));
        if !self.has_voyage() {
            let voyage_order = match satcom_msg.order() {
                Some(o) => o,
                None => {
                    proof {
                        assert(message_views(replies@) =~= seq![
                            plain_reply(satcom_msg@, self_mmsi, SatComMessageType::Acknowledgement),
                        ]);
                    }
                    return (replies, Err(BoardComputerError::NoVoyageOrder));
                },
            };
            match self.adopt_voyage_order(&voyage_order, boat_info, first_segment) {
                Ok(_) => {},
                Err(e) => return (replies, Err(e)),
            }
            let res = self.update_voyage_status_and_respond(
                VoyageStatus::RevisionAccepted,
                satcom_msg,
                self_mmsi,
                SatComMessageType::RevisionAcceptation,
                None,
                None,
                &mut replies,
            );
            proof {
                assert(message_views(replies@) =~= seq![
                    plain_reply(satcom_msg@, self_mmsi, SatComMessageType::Acknowledgement),
                    plain_reply(satcom_msg@, self_mmsi, SatComMessageType::RevisionAcceptation),
                ]);
            }
            match res {
                Ok(_) => (replies, Ok(())),
                Err(e) => (replies, Err(e)),
            }
        } else {
            replies.push(board_reply(satcom_msg, self_mmsi, SatComMessageType::RevisionRefusal, None, None));
            proof {
                assert(message_views(replies@) =~= seq![
                    plain_reply(satcom_msg@, self_mmsi, SatComMessageType::Acknowledgement),
                    plain_reply(satcom_msg@, self_mmsi, SatComMessageType::RevisionRefusal),
                ]);
            }
            (replies, Ok(()))
        }
    }

    /// Handles the acknowledgement of a submitted revision; see
    /// [`board_step`] (no reply is sent, so the boat's MMSI and the segment
    /// play no part: any value stands for them there).
    pub fn handle_rev_req_ack(&mut self, satcom_msg: &SatComMessage) -> (r: BoardComputerResult<()>)
        ensures
            ({
                let step = board_step(old(self)@, satcom_msg@, 0, arbitrary(), BoardAction::RevReqAck);
                &&& final(self)@ == step.state
                &&& r == step.result
            }),
    {
        match self.set_revision_version(satcom_msg.order_header().version) {
            Ok(_) => {},
            Err(e) => return Err(e),
        }
        match self.update_voyage_status(VoyageStatus::UnderRevision) {
            Ok(_) => Ok(()),
            Err(e) => Err(e),
        }
    }

    /// Handles the acknowledgement of an accepted order; see [`board_step`] (no order is taken up, so the segment plays no
    /// part: any value stands for it there).
    pub fn handle_initial_rev_acceptation_ack(&mut self, satcom_msg: &SatComMessage, self_mmsi: u32) -> (r: (
        Vec<SatComMessage>,
        BoardComputerResult<()>,
    ))
        ensures
            ({
                let step = board_step(
                    old(self)@,
                    satcom_msg@,
                    self_mmsi,
                    arbitrary(),
                    BoardAction::InitialRevAcceptationAck,
                );
                &&& final(self)@ == step.state
                &&& message_views(r.0@) == step.replies
                &&& r.1 == step.result
            }),
    {
        let mut replies: Vec<SatComMessage> = Vec::new();
        let res = self.update_voyage_status_and_respond(
            VoyageStatus::InExecution,
            satcom_msg,
            self_mmsi,
            SatComMessageType::ExecutingLastAgreedRevision,
            None,
            None,
            &mut replies,
        );
        proof {
            assert(message_views(replies@) =~= board_step(
                old(self)@,
                satcom_msg@,
                self_mmsi,
                arbitrary(),
                BoardAction::InitialRevAcceptationAck,
            ).replies);
        }
        match res {
            Ok(_) => (replies, Ok(())),
            Err(e) => (replies, Err(e)),
        }
    }

    /// Handles the acceptation of a submitted revision; see [`board_step`] (no order is taken up, so the segment plays no
    /// part: any value stands for it there).
    pub fn handle_rev_acceptation(&mut self, satcom_msg: &SatComMessage, self_mmsi: u32) -> (r: (
        Vec<SatComMessage>,
        BoardComputerResult<()>,
    ))
        ensures
            ({
                let step = board_step(
                    old(self)@,
                    satcom_msg@,
                    self_mmsi,
                    arbitrary(),
                    BoardAction::RevAcceptation,
                );
                &&& final(self)@ == step.state
                &&& message_views(r.0@) == step.replies
                &&& r.1 == step.result
            }),
    {
        let mut replies: Vec<SatComMessage> = Vec::new();
        match self.set_revision_version(satcom_msg.order_header().version) {
            Ok(_) => {},
            Err(e) => {
                proof {
                    assert(message_views(replies@) =~= seq![]);
                }
                return (replies, Err(e));
            },
        }
        let res = self.update_voyage_status_and_respond(
            VoyageStatus::RevisionAccepted,
            satcom_msg,
            self_mmsi,
            SatComMessageType::RevisionAcceptation,
            None,
            None,
            &mut replies,
        );
        proof {
            assert(message_views(replies@) =~= board_step(
                old(self)@,
                satcom_msg@,
                self_mmsi,
                arbitrary(),
                BoardAction::RevAcceptation,
            ).replies);
        }
        match res {
            Ok(_) => (replies, Ok(())),
            Err(e) => (replies, Err(e)),
        }
    }

    /// Handles the refusal of a submitted revision; see [`board_step`] (no order is taken up, so the segment plays no
    /// part: any value stands for it there).
    pub fn handle_rev_refusal(&mut self, satcom_msg: &SatComMessage, self_mmsi: u32) -> (r: (
        Vec<SatComMessage>,
        BoardComputerResult<()>,
    ))
        ensures
            ({
                let step = board_step(old(self)@, satcom_msg@, self_mmsi, arbitrary(), BoardAction::RevRefusal);
                &&& final(self)@ == step.state
                &&& message_views(r.0@) == step.replies
                &&& r.1 == step.result
            }),
    {
        let mut replies: Vec<SatComMessage> = Vec::new();
        let res = self.update_voyage_status_and_respond(
            VoyageStatus::RevisionRefused,
            satcom_msg,
            self_mmsi,
            SatComMessageType::RevisionRefusal,
            None,
            None,
            &mut replies,
        );
        proof {
            assert(message_views(replies@) =~= board_step(
                old(self)@,
                satcom_msg@,
                self_mmsi,
                arbitrary(),
                BoardAction::RevRefusal,
            ).replies);
        }
        match res {
            Ok(_) => (replies, Ok(())),
            Err(e) => (replies, Err(e)),
        }
    }

    /// Handles the end of a completed voyage; see [`board_step`] (no order is taken up, so the segment plays no
    /// part: any value stands for it there).
    pub fn handle_end_of_voyage(&mut self, satcom_msg: &SatComMessage, self_mmsi: u32) -> (r: (
        Vec<SatComMessage>,
        BoardComputerResult<()>,
    ))
        ensures
            ({
                let step = board_step(old(self)@, satcom_msg@, self_mmsi, arbitrary(), BoardAction::EndOfVoyage);
                &&& final(self)@ == step.state
                &&& message_views(r.0@) == step.replies
                &&& r.1 == step.result
            }),
    {
        let mut replies: Vec<SatComMessage> = Vec::new();
        let res = self.update_voyage_status_and_respond(
            VoyageStatus::Finished,
            satcom_msg,
            self_mmsi,
            SatComMessageType::Acknowledgement,
            None,
            None,
            &mut replies,
        );
        proof {
            assert(message_views(replies@) =~= board_step(
                old(self)@,
                satcom_msg@,
                self_mmsi,
                arbitrary(),
                BoardAction::EndOfVoyage,
            ).replies);
        }
        match res {
            Ok(_) => (replies, Ok(())),
            Err(e) => (replies, Err(e)),
        }
    }

    /// Handles a revision request: the order carried becomes the revision
    /// under way, is acknowledged, taken up along `first_segment` and
    /// accepted; see [`board_step`].
    pub fn handle_rev_request(
        &mut self,
        satcom_msg: &SatComMessage,
        self_mmsi: u32,
        boat_info: &mut BoatInfo,
        first_segment: VoyageSegment,
    ) -> (r: (Vec<SatComMessage>, BoardComputerResult<()>))
        requires
            carried_order(satcom_msg@) matches Some(o) ==> leg_to(first_segment, old(boat_info)@, o),
        ensures
            ({
                let step = board_step(old(self)@, satcom_msg@, self_mmsi, first_segment, BoardAction::RevRequest);
                &&& final(self)@ == step.state
                &&& message_views(r.0@) == step.replies
                &&& r.1 == step.result
                &&& final(boat_info)@ == boat_after(old(boat_info)@, step.adopted)
            }),
    {
        let mut replies: Vec<SatComMessage> = Vec::new();
        let revision = match satcom_msg.order() {
            Some(o) => o,
            None => {
                proof {
                    assert(message_views(replies@) =~= seq![]);
                }
                return (replies, Err(BoardComputerError::NoVoyageOrderRevision));
            },
        };
        self.set_revision(revision);
        match self.update_voyage_status_and_respond(
            VoyageStatus::UnderRevision,
            satcom_msg,
            self_mmsi,
            SatComMessageType::Acknowledgement,
            None,
            None,
            &mut replies,
        ) {
            Ok(_) => {},
            Err(e) => {
                proof {
                    assert(message_views(replies@) =~= seq![]);
                }
                return (replies, Err(e));
            },
        }
        match self.adopt_voyage_order_rev(boat_info, first_segment) {
            Ok(_) => {},
            Err(e) => return (replies, Err(e)),
        }
        let res = self.update_voyage_status_and_respond(
            VoyageStatus::RevisionAccepted,
            satcom_msg,
            self_mmsi,
            SatComMessageType::RevisionAcceptation,
            None,
            None,
            &mut replies,
        );
        proof {
            assert(message_views(replies@) =~= seq![
                plain_reply(satcom_msg@, self_mmsi, SatComMessageType::Acknowledgement),
                plain_reply(satcom_msg@, self_mmsi, SatComMessageType::RevisionAcceptation),
            ]);
        }
        match res {
            Ok(_) => (replies, Ok(())),
            Err(e) => (replies, Err(e)),
        }
    }

    /// Handles one message received by the boat `self_mmsi`: decides what
    /// to do with it ([`BoardComputer::decide`]) and does it; gives the
    /// replies to send, in order, and how it ended. `first_segment` is the
    /// leg from the boat's position to the destination of the order that the
    /// message carries, for when that order is taken up.
    pub fn handle(
        &mut self,
        satcom_msg: &SatComMessage,
        self_mmsi: u32,
        boat_info: &mut BoatInfo,
        first_segment: VoyageSegment,
    ) -> (r: (Vec<SatComMessage>, BoardComputerResult<()>))
        requires
            carried_order(satcom_msg@) matches Some(o) ==> leg_to(first_segment, old(boat_info)@, o),
        ensures
            ({
                let step = board_step(
                    old(self)@,
                    satcom_msg@,
                    self_mmsi,
                    first_segment,
                    board_action(
                        old(self)@,
                        satcom_msg.message_type,
                        satcom_msg.source,
                        satcom_msg.target,
                        satcom_msg.order_header,
                        self_mmsi,
                    ),
                );
                &&& final(self)@ == step.state
                &&& message_views(r.0@) == step.replies
                &&& r.1 == step.result
                &&& final(boat_info)@ == boat_after(old(boat_info)@, step.adopted)
            }),
    {
        let action = self.decide(satcom_msg, self_mmsi);
        match action {
            BoardAction::Ignore => {
                let replies: Vec<SatComMessage> = Vec::new();
                proof {
                    assert(message_views(replies@) =~= seq![]);
                }
                (replies, Ok(()))
            },
            BoardAction::Offer => self.handle_offer(satcom_msg, self_mmsi, boat_info, first_segment),
            BoardAction::RevReqAck => {
                let replies: Vec<SatComMessage> = Vec::new();
                proof {
                    assert(message_views(replies@) =~= seq![]);
                }
                let res = self.handle_rev_req_ack(satcom_msg);
                (replies, res)
            },
            BoardAction::InitialRevAcceptationAck => self.handle_initial_rev_acceptation_ack(
                satcom_msg,
                self_mmsi,
            ),
            BoardAction::RevAcceptation => self.handle_rev_acceptation(satcom_msg, self_mmsi),
            BoardAction::RevRefusal => self.handle_rev_refusal(satcom_msg, self_mmsi),
            BoardAction::RevRequest => self.handle_rev_request(
                satcom_msg,
                self_mmsi,
                boat_info,
                first_segment,
            ),
            BoardAction::EndOfVoyage => self.handle_end_of_voyage(satcom_msg, self_mmsi),
        }
    }
}

} // verus!
