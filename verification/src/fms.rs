use vstd::prelude::*;
use crate::boat_info::{BoatInfo, BoatInfoView, VoyageDataView, at_signs};
use crate::boats_registry::BoatsInfoRegistry;
use crate::common::errors::{BoatsRegistryError, BoatsRegistryResult};
use crate::common::constants::HARBOURMASTER_MMSI;
use crate::common::types::{SatComMessageType, VoyageStatus, voyage_status_from_u8};
use crate::common::utils::str_eq;
use crate::satcom_message::{SatComMessage, SatComMessageView, opt_body_view};
use crate::voyage_order::VoyageOrder;

verus! {

/// What the fleet database holds of the order a message refers to.
#[derive(Debug, Clone, Copy, PartialEq, Eq, Structural)]
pub struct OrderRecord {
    /// The stage of the order, as its byte code.
    pub status: u8,
    pub current_version_number: u8,
    /// The boat that carries the order out, when one does.
    pub executant: Option<i32>,
    /// The version number of the revision under way, when there is one.
    pub revision_version_number: Option<u8>,
}

/// What the harbourmaster does with a message from a boat.
#[derive(Debug, Clone, Copy, PartialEq, Eq, Structural)]
pub enum FmsAction {
    Ignore,
    OfferAck,
    RevReqAck,
    RevAcceptation,
    InitialRevAcceptation,
    RevRefusal,
    InitialRevRefusal,
    RevRequest,
    LastAgreedRevExecution,
    NoticeOfReadiness,
    Aborting,
}

/// The action that a message of type `t` from `source` about version
/// `version` calls for, given what the database holds of its order: none
/// for a message not addressed to the harbourmaster or about an order that
/// is not found once; otherwise as the order's stage, the version and the
/// boat that carries the order out decide. A revision request from the boat
/// that carries the order out is recognised (`RevRequest`), but the
/// harbourmaster has no handling for it: it moves the order to no new stage,
/// changes nothing in the database and sends nothing back (see
/// [`action_status`], [`action_change`] and [`action_reply`]).
pub open spec fn fms_action(
    t: SatComMessageType,
    source: u32,
    target: u32,
    version: u8,
    order: Option<OrderRecord>,
) -> FmsAction {
    if target != HARBOURMASTER_MMSI || order is None {
        FmsAction::Ignore
    } else {
        let o = order->0;
        let status = voyage_status_from_u8(o.status);
        let rev_ver: u8 = match o.revision_version_number {
            Some(v) => v,
            None => (o.current_version_number + 1) as u8,
        };
        let by_executant = Some(source as i32) == o.executant;
        let refers_current_ver = version == o.current_version_number && by_executant;
        let refers_rev_ver = version == rev_ver && by_executant;
        match t {
            SatComMessageType::Acknowledgement => if status == VoyageStatus::Unassigned {
                FmsAction::OfferAck
            } else if status == VoyageStatus::RevisionSubmitted && refers_rev_ver {
                FmsAction::RevReqAck
            } else {
                FmsAction::Ignore
            },
            SatComMessageType::RevisionAcceptation => if status == VoyageStatus::UnderRevision
                && refers_current_ver {
                FmsAction::RevAcceptation
            } else if status == VoyageStatus::UnderRevision && o.current_version_number == version
                && o.executant is None {
                FmsAction::InitialRevAcceptation
            } else {
                FmsAction::Ignore
            },
            SatComMessageType::RevisionRefusal => if status == VoyageStatus::UnderRevision
                && refers_rev_ver {
                FmsAction::RevRefusal
            } else if status == VoyageStatus::UnderRevision && o.executant is None && version
                == o.current_version_number {
                FmsAction::InitialRevRefusal
            } else {
                FmsAction::Ignore
            },
            SatComMessageType::RevisionRequest => if (status == VoyageStatus::InExecution || status
                == VoyageStatus::RevisionAccepted || status == VoyageStatus::RevisionRefused)
                && refers_current_ver {
                FmsAction::RevRequest
            } else {
                FmsAction::Ignore
            },
            SatComMessageType::ExecutingLastAgreedRevision => if (status
                == VoyageStatus::RevisionAccepted || status == VoyageStatus::RevisionRefused)
                && refers_current_ver {
                FmsAction::LastAgreedRevExecution
            } else {
                FmsAction::Ignore
            },
            SatComMessageType::NoticeOfReadiness => if status == VoyageStatus::InExecution
                && refers_current_ver {
                FmsAction::NoticeOfReadiness
            } else {
                FmsAction::Ignore
            },
            SatComMessageType::Aborting => if refers_current_ver {
                FmsAction::Aborting
            } else {
                FmsAction::Ignore
            },
            _ => FmsAction::Ignore,
        }
    }
}

/// The stage an action moves the order to, if any (none for a revision
/// request, which is not handled).
pub open spec fn action_status(a: FmsAction) -> Option<VoyageStatus> {
    match a {
        FmsAction::Ignore => None,
        FmsAction::RevRequest => None,
        FmsAction::OfferAck => Some(VoyageStatus::UnderRevision),
        FmsAction::RevReqAck => Some(VoyageStatus::UnderRevision),
        FmsAction::RevAcceptation => Some(VoyageStatus::RevisionAccepted),
        FmsAction::InitialRevAcceptation => Some(VoyageStatus::RevisionAccepted),
        FmsAction::RevRefusal => Some(VoyageStatus::RevisionRefused),
        FmsAction::InitialRevRefusal => Some(VoyageStatus::Unassigned),
        FmsAction::LastAgreedRevExecution => Some(VoyageStatus::InExecution),
        FmsAction::NoticeOfReadiness => Some(VoyageStatus::Completed),
        FmsAction::Aborting => Some(VoyageStatus::Finished),
    }
}

/// The type of the reply an action sends back, if any (none for a revision
/// request, which is not handled).
pub open spec fn action_reply(a: FmsAction) -> Option<SatComMessageType> {
    match a {
        FmsAction::Ignore => None,
        FmsAction::RevRequest => None,
        FmsAction::OfferAck => None,
        FmsAction::RevReqAck => None,
        FmsAction::NoticeOfReadiness => Some(SatComMessageType::EndOfVoyage),
        _ => Some(SatComMessageType::Acknowledgement),
    }
}

/// What an action changes in the fleet database besides the order's stage,
/// before the stage changes.
#[derive(Debug, Clone, Copy, PartialEq, Eq, Structural)]
pub enum OrderChange {
    Nothing,
    /// The order's current version becomes `version`.
    SetCurrentVersion { id: u16, version: u8 },
    /// The order is assigned to the boat `executant`.
    Assign { id: u16, executant: u32 },
    /// The version `version` of the order is deleted.
    DeleteVersion { id: u16, version: u8 },
}

/// The change an action makes to the order that the message `m` is about:
/// an accepted revision becomes the current version, an accepted first
/// revision assigns the order to the boat that sent it, a refused revision
/// is deleted; other actions change nothing but the stage.
pub open spec fn action_change(a: FmsAction, m: SatComMessageView) -> OrderChange {
    match a {
        FmsAction::RevAcceptation => OrderChange::SetCurrentVersion {
            id: m.order_header.id,
            version: m.order_header.version,
        },
        FmsAction::InitialRevAcceptation => OrderChange::Assign { id: m.order_header.id, executant: m.source },
        FmsAction::RevRefusal => OrderChange::DeleteVersion {
            id: m.order_header.id,
            version: m.order_header.version,
        },
        _ => OrderChange::Nothing,
    }
}

impl FmsAction {
    /// The stage the action moves the order to, if any; see [`action_status`].
    pub fn new_status(&self) -> (r: Option<VoyageStatus>)
        ensures
            r == action_status(*self),
    {
        match self {
            FmsAction::Ignore => None,
            FmsAction::RevRequest => None,
            FmsAction::OfferAck => Some(VoyageStatus::UnderRevision),
            FmsAction::RevReqAck => Some(VoyageStatus::UnderRevision),
            FmsAction::RevAcceptation => Some(VoyageStatus::RevisionAccepted),
            FmsAction::InitialRevAcceptation => Some(VoyageStatus::RevisionAccepted),
            FmsAction::RevRefusal => Some(VoyageStatus::RevisionRefused),
            FmsAction::InitialRevRefusal => Some(VoyageStatus::Unassigned),
            FmsAction::LastAgreedRevExecution => Some(VoyageStatus::InExecution),
            FmsAction::NoticeOfReadiness => Some(VoyageStatus::Completed),
            FmsAction::Aborting => Some(VoyageStatus::Finished),
        }
    }

    /// The change the action makes to the order `satcom_msg` is about; see
    /// [`action_change`].
    pub fn order_change(&self, satcom_msg: &SatComMessage) -> (r: OrderChange)
        ensures
            r == action_change(*self, satcom_msg@),
    {
        let header = satcom_msg.order_header();
        match self {
            FmsAction::RevAcceptation => OrderChange::SetCurrentVersion { id: header.id, version: header.version },
            FmsAction::InitialRevAcceptation => OrderChange::Assign { id: header.id, executant: *satcom_msg.source() },
            FmsAction::RevRefusal => OrderChange::DeleteVersion { id: header.id, version: header.version },
            _ => OrderChange::Nothing,
        }
    }

    /// The type of the reply the action sends back, if any; see [`action_reply`].
    pub fn reply(&self) -> (r: Option<SatComMessageType>)
        ensures
            r == action_reply(*self),
    {
        match self {
            FmsAction::Ignore => None,
            FmsAction::RevRequest => None,
            FmsAction::OfferAck => None,
            FmsAction::RevReqAck => None,
            FmsAction::NoticeOfReadiness => Some(SatComMessageType::EndOfVoyage),
            _ => Some(SatComMessageType::Acknowledgement),
        }
    }
}

/// A message that is not addressed to the harbourmaster, or that is about an
/// order the database does not hold once, is dropped: it calls for no
/// action, so the order's stage stays, nothing is sent back and nothing else
/// changes in the database.
pub proof fn lemma_stray_message_dropped(
    t: SatComMessageType,
    source: u32,
    target: u32,
    version: u8,
    order: Option<OrderRecord>,
    m: SatComMessageView,
)
    requires
        target != HARBOURMASTER_MMSI || order is None,
    ensures
        fms_action(t, source, target, version, order) == FmsAction::Ignore,
        action_status(fms_action(t, source, target, version, order)) is None,
        action_reply(fms_action(t, source, target, version, order)) is None,
        action_change(fms_action(t, source, target, version, order), m) == OrderChange::Nothing,
{
}

/// The harbourmaster's answers to the boat that carries an order out, about
/// the order's current version (stages by their database codes: 1 under
/// revision, 3 revision accepted, 4 revision refused, 5 in execution):
/// - executing the last agreed revision, after a revision was accepted or
///   refused, puts the order in execution and is acknowledged;
/// - a notice of readiness during execution completes the order and is
///   answered with the end of the voyage;
/// - aborting finishes the order, whatever its stage, and is acknowledged;
/// - accepting a revision under way makes the message's version the current
///   one, accepts the revision and is acknowledged;
/// - a revision request, after a revision was accepted or refused or during
///   execution, is recognised but moves nothing and is not answered;
/// - executing the last agreed revision at any other stage is ignored.
pub proof fn lemma_fms_executant_messages(
    t: SatComMessageType,
    source: u32,
    version: u8,
    o: OrderRecord,
    m: SatComMessageView,
)
    requires
        o.executant == Some(source as i32),
        version == o.current_version_number,
    ensures
        ({
            let a = fms_action(t, source, HARBOURMASTER_MMSI, version, Some(o));
            &&& t == SatComMessageType::ExecutingLastAgreedRevision && (o.status == 3 || o.status == 4)
                ==> action_status(a) == Some(VoyageStatus::InExecution) && action_reply(a) == Some(
                SatComMessageType::Acknowledgement,
            ) && action_change(a, m) == OrderChange::Nothing
            &&& t == SatComMessageType::ExecutingLastAgreedRevision && o.status != 3 && o.status != 4
                ==> a == FmsAction::Ignore
            &&& t == SatComMessageType::NoticeOfReadiness && o.status == 5 ==> action_status(a) == Some(
                VoyageStatus::Completed,
            ) && action_reply(a) == Some(SatComMessageType::EndOfVoyage) && action_change(a, m)
                == OrderChange::Nothing
            &&& t == SatComMessageType::Aborting ==> action_status(a) == Some(VoyageStatus::Finished)
                && action_reply(a) == Some(SatComMessageType::Acknowledgement) && action_change(a, m)
                == OrderChange::Nothing
            &&& t == SatComMessageType::RevisionAcceptation && o.status == 1 ==> action_status(a)
                == Some(VoyageStatus::RevisionAccepted) && action_reply(a) == Some(
                SatComMessageType::Acknowledgement,
            ) && action_change(a, m) == (OrderChange::SetCurrentVersion {
                id: m.order_header.id,
                version: m.order_header.version,
            })
            &&& t == SatComMessageType::RevisionRequest && (o.status == 3 || o.status == 4 || o.status
                == 5) ==> a == FmsAction::RevRequest && action_status(a) is None && action_reply(a) is None
                && action_change(a, m) == OrderChange::Nothing
        }),
{
}

/// The harbourmaster's answers about an order that no boat carries out yet,
/// about its current version: the acknowledgement of an offer of an
/// unassigned order (code 0) puts it under revision without a reply; the
/// acceptance of the first revision (code 1, under revision) assigns the
/// order to the boat that accepts, accepts the revision and is
/// acknowledged; its refusal makes the order unassigned again and is
/// acknowledged.
pub proof fn lemma_fms_offer_messages(
    t: SatComMessageType,
    source: u32,
    version: u8,
    o: OrderRecord,
    m: SatComMessageView,
)
    requires
        o.executant is None,
        version == o.current_version_number,
    ensures
        ({
            let a = fms_action(t, source, HARBOURMASTER_MMSI, version, Some(o));
            &&& t == SatComMessageType::Acknowledgement && o.status == 0 ==> action_status(a) == Some(
                VoyageStatus::UnderRevision,
            ) && action_reply(a) is None && action_change(a, m) == OrderChange::Nothing
            &&& t == SatComMessageType::RevisionAcceptation && o.status == 1 ==> action_status(a)
                == Some(VoyageStatus::RevisionAccepted) && action_reply(a) == Some(
                SatComMessageType::Acknowledgement,
            ) && action_change(a, m) == (OrderChange::Assign { id: m.order_header.id, executant: m.source })
            &&& t == SatComMessageType::RevisionRefusal && o.status == 1 ==> action_status(a) == Some(
                VoyageStatus::Unassigned,
            ) && action_reply(a) == Some(SatComMessageType::Acknowledgement) && action_change(a, m)
                == OrderChange::Nothing
        }),
{
}

/// The harbourmaster's answers to the boat that carries an order out, about
/// the revision under way: its acknowledgement while the revision is
/// submitted (code 2) puts the order under revision without a reply; its
/// refusal while under revision (code 1) refuses the revision, deletes that
/// version and is acknowledged.
pub proof fn lemma_fms_revision_messages(
    t: SatComMessageType,
    source: u32,
    version: u8,
    o: OrderRecord,
    m: SatComMessageView,
)
    requires
        o.executant == Some(source as i32),
        o.revision_version_number == Some(version),
    ensures
        ({
            let a = fms_action(t, source, HARBOURMASTER_MMSI, version, Some(o));
            &&& t == SatComMessageType::Acknowledgement && o.status == 2 ==> action_status(a) == Some(
                VoyageStatus::UnderRevision,
            ) && action_reply(a) is None && action_change(a, m) == OrderChange::Nothing
            &&& t == SatComMessageType::RevisionRefusal && o.status == 1 ==> action_status(a) == Some(
                VoyageStatus::RevisionRefused,
            ) && action_reply(a) == Some(SatComMessageType::Acknowledgement) && action_change(a, m)
                == (OrderChange::DeleteVersion { id: m.order_header.id, version: m.order_header.version })
        }),
{
}

/// The action a message from a boat calls for; see [`fms_action`]. For a
/// message addressed to the harbourmaster about an order found once, the
/// version of a revision is the current one plus one when the database
/// names none, so that order's current version must be below 255.
pub fn decide(satcom_msg: &SatComMessage, order: Option<OrderRecord>) -> (r: FmsAction)
    requires
        satcom_msg.target == HARBOURMASTER_MMSI && order is Some ==> order->0.current_version_number
            < 255,
    ensures
        r == fms_action(
            satcom_msg.message_type,
            satcom_msg.source,
            satcom_msg.target,
            satcom_msg.order_header.version,
            order,
        ),
{
    if *satcom_msg.target() != HARBOURMASTER_MMSI {
        return FmsAction::Ignore;
    }
    let o = match order {
        Some(o) => o,
        None => return FmsAction::Ignore,
    };
    let db_order_status: VoyageStatus = o.status.into();
    let db_order_ver_nbr: u8 = o.current_version_number;
    let mut db_order_rev_ver_nbr: u8 = db_order_ver_nbr + 1;
    if let Some(v) = o.revision_version_number {
        db_order_rev_ver_nbr = v;
    }
    let msg_ver: u8 = satcom_msg.order_header().version;
    let by_executant = Some(*satcom_msg.source() as i32) == o.executant;
    let refers_current_ver: bool = msg_ver == db_order_ver_nbr && by_executant;
    let refers_rev_ver: bool = msg_ver == db_order_rev_ver_nbr && by_executant;
    match satcom_msg.message_type() {
        SatComMessageType::Acknowledgement => {
            if db_order_status == VoyageStatus::Unassigned {
                FmsAction::OfferAck
            } else if db_order_status == VoyageStatus::RevisionSubmitted && refers_rev_ver {
                FmsAction::RevReqAck
            } else {
                FmsAction::Ignore
            }
        },
        SatComMessageType::RevisionAcceptation => {
            if db_order_status == VoyageStatus::UnderRevision && refers_current_ver {
                FmsAction::RevAcceptation
            } else if db_order_status == VoyageStatus::UnderRevision && db_order_ver_nbr == msg_ver
                && o.executant.is_none() {
                FmsAction::InitialRevAcceptation
            } else {
                FmsAction::Ignore
            }
        },
        SatComMessageType::RevisionRefusal => {
            if db_order_status == VoyageStatus::UnderRevision && refers_rev_ver {
                FmsAction::RevRefusal
            } else if db_order_status == VoyageStatus::UnderRevision && o.executant.is_none()
                && msg_ver == db_order_ver_nbr {
                FmsAction::InitialRevRefusal
            } else {
                FmsAction::Ignore
            }
        },
        SatComMessageType::RevisionRequest => {
            if (db_order_status == VoyageStatus::InExecution || db_order_status
                == VoyageStatus::RevisionAccepted || db_order_status == VoyageStatus::RevisionRefused)
                && refers_current_ver {
                FmsAction::RevRequest
            } else {
                FmsAction::Ignore
            }
        },
        SatComMessageType::ExecutingLastAgreedRevision => {
            if (db_order_status == VoyageStatus::RevisionAccepted || db_order_status
                == VoyageStatus::RevisionRefused) && refers_current_ver {
                FmsAction::LastAgreedRevExecution
            } else {
                FmsAction::Ignore
            }
        },
        SatComMessageType::NoticeOfReadiness => {
            if db_order_status == VoyageStatus::InExecution && refers_current_ver {
                FmsAction::NoticeOfReadiness
            } else {
                FmsAction::Ignore
            }
        },
        SatComMessageType::Aborting => {
            if refers_current_ver {
                FmsAction::Aborting
            } else {
                FmsAction::Ignore
            }
        },
        _ => FmsAction::Ignore,
    }
}

/// The reply of the harbourmaster to a message: the same order header,
/// from the harbourmaster back to the message's source, without a body.
pub open spec fn reply_to(m: SatComMessageView, t: SatComMessageType) -> SatComMessageView {
    SatComMessageView {
        source: HARBOURMASTER_MMSI,
        target: m.source,
        order_header: m.order_header,
        message_type: t,
        order_body_review: None,
    }
}

/// The reply of the harbourmaster to `satcom_msg`; see [`reply_to`].
pub fn respond(satcom_msg: &SatComMessage, msg_type: SatComMessageType) -> (r: SatComMessage)
    ensures
        r@ == reply_to(satcom_msg@, msg_type),
{
    SatComMessage::new(HARBOURMASTER_MMSI, *satcom_msg.source(), satcom_msg.order_header(), msg_type, None)
}

/// A boat is free when its destination is the padding of twenty `@`.
pub open spec fn is_free_boat(b: BoatInfo) -> bool {
    b@.voyage_data.destination == at_signs(20)
}

/// The MMSIs of the free boats among `boats`, in order.
pub open spec fn free_boats(boats: Seq<(u32, BoatInfo)>) -> Seq<u32>
    decreases boats.len(),
{
    if boats.len() == 0 {
        Seq::empty()
    } else {
        free_boats(boats.drop_last()) + if is_free_boat(boats.last().1) {
            seq![boats.last().1@.static_data.mmsi]
        } else {
            Seq::<u32>::empty()
        }
    }
}

/// The offer of an order to a boat.
pub open spec fn offer_of(order: VoyageOrder, mmsi: u32) -> SatComMessageView {
    SatComMessageView {
        source: HARBOURMASTER_MMSI,
        target: mmsi,
        order_header: order@.header,
        message_type: SatComMessageType::Offer,
        order_body_review: Some(order@.body),
    }
}

fn free_boat_mmsis(boats: &[(u32, BoatInfo)]) -> (r: Vec<u32>)
    ensures
        r@ == free_boats(boats@),
{
    let free = "@@@@@@@@@@@@@@@@@@@@";
    proof {
        reveal_strlit("@@@@@@@@@@@@@@@@@@@@");
    }
    assert(free@ =~= at_signs(20));
    let mut v: Vec<u32> = Vec::new();
    let mut i: usize = 0;
    while i < boats.len()
        invariant
            i <= boats@.len(),
            free@ == at_signs(20),
            v@ == free_boats(boats@.take(i as int)),
        decreases boats@.len() - i,
    {
        let boat = &boats[i].1;
        let voyage = boat.get_voyage_data().unwrap();
        if str_eq(voyage.destination.as_str(), free) {
            let s = boat.get_static_data().unwrap();
            v.push(s.mmsi);
        }
        assert(boats@.take(i + 1).drop_last() =~= boats@.take(i as int));
        i = i + 1;
    }
    assert(boats@.take(boats@.len() as int) =~= boats@);
    v
}

/// The offers that the dispatcher sends: the unassigned orders, in order,
/// each to the next free boat among `boats`, as many as there are of the
/// fewer.
pub fn dispatch_offers(unassigned_orders: &[VoyageOrder], boats: &[(u32, BoatInfo)]) -> (r: Vec<SatComMessage>)
    ensures
        r@.len() == if unassigned_orders@.len() < free_boats(boats@).len() {
            unassigned_orders@.len()
        } else {
            free_boats(boats@).len()
        },
        forall|i: int|
            0 <= i < r@.len() ==> #[trigger] r@[i]@ == offer_of(unassigned_orders@[i], free_boats(boats@)[i]),
{
    let free_boats_mmsis = free_boat_mmsis(boats);
    let n: usize = if unassigned_orders.len() < free_boats_mmsis.len() {
        unassigned_orders.len()
    } else {
        free_boats_mmsis.len()
    };
    let mut offers: Vec<SatComMessage> = Vec::new();
    let mut i: usize = 0;
    while i < n
        invariant
            i <= n,
            n <= unassigned_orders@.len(),
            n <= free_boats_mmsis@.len(),
            free_boats_mmsis@ == free_boats(boats@),
            offers@.len() == i,
            forall|k: int|
                0 <= k < i ==> #[trigger] offers@[k]@ == offer_of(unassigned_orders@[k], free_boats_mmsis@[k]),
        decreases n - i,
    {
        let order = &unassigned_orders[i];
        let req = SatComMessage::new(
            HARBOURMASTER_MMSI,
            free_boats_mmsis[i],
            *order.header(),
            SatComMessageType::Offer,
            Some(order.body().clone()),
        );
        offers.push(req);
        i = i + 1;
    }
    offers
}

/// What the harbourmaster records when a boat acknowledges an offer: the
/// boat recorded under `source` takes the order's destination and arrival
/// time as its voyage data, and the registry is updated with it (under the
/// MMSI that its data carry). An error, with nothing changed, when no boat
/// is recorded under `source`, or none under the MMSI its data carry.
pub fn record_offer_ack(
    boats_registry: &mut BoatsInfoRegistry,
    source: u32,
    destination: String,
    eta_month: u8,
    eta_day: u8,
    eta_hour: u8,
    eta_minute: u8,
) -> (r: BoatsRegistryResult<()>)
    ensures
        !old(boats_registry)@.contains_key(source) ==> r == Err::<(), BoatsRegistryError>(
            BoatsRegistryError::UnkownMmsi,
        ) && final(boats_registry)@ == old(boats_registry)@,
        old(boats_registry)@.contains_key(source) ==> ({
            let b = old(boats_registry)@[source];
            let k = b.static_data.mmsi;
            let nb = BoatInfoView {
                voyage_data: VoyageDataView {
                    destination: destination@,
                    eta_month,
                    eta_day,
                    eta_hour,
                    eta_minute,
                    ..b.voyage_data
                },
                ..b
            };
            &&& old(boats_registry)@.contains_key(k) ==> r is Ok && final(boats_registry)@ == old(
                boats_registry,
            )@.insert(k, nb)
            &&& !old(boats_registry)@.contains_key(k) ==> r == Err::<(), BoatsRegistryError>(
                BoatsRegistryError::MmsiAlreadyRegistered,
            ) && final(boats_registry)@ == old(boats_registry)@
        }),
{
    let mut boat_info = match boats_registry.get(source) {
        Ok(b) => b,
        Err(e) => return Err(e),
    };
    let _ = boat_info.update_voyage_data(
        Some(destination),
        Some(eta_month),
        Some(eta_day),
        Some(eta_hour),
        Some(eta_minute),
    );
    match boats_registry.update(boat_info) {
        Ok(_) => Ok(()),
        Err(e) => Err(e),
    }
}

} // verus!
