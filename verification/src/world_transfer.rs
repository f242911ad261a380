//! Presentation-side decisions of an active-world transfer: whether the
//! destination is known, which loading card a transfer opens, when an abort
//! carries a difficulty message, and when map loading completes.

use vstd::prelude::*;

verus! {

/// The kind of a transfer packet.
#[derive(Clone, Copy, Debug, PartialEq, Eq, Structural)]
pub enum TransferKind {
    /// `SMSG_NEW_WORLD` to a destination map.
    NewWorld { map_id: u32 },
    /// Verify-world replacement to a destination map.
    VerifyWorld { map_id: u32 },
    Pending,
    Aborted,
}

/// Whether the transfer's destination is known: the map of a new or verified
/// world must exist in the terrain catalog; other packets name none.
pub fn destination_exists(kind: TransferKind, map_known: bool) -> (exists: bool)
    ensures
        exists == match kind {
            TransferKind::NewWorld { .. } => map_known,
            TransferKind::VerifyWorld { .. } => map_known,
            _ => true,
        },
{
    match kind {
        TransferKind::NewWorld { .. } => map_known,
        TransferKind::VerifyWorld { .. } => map_known,
        TransferKind::Pending => true,
        TransferKind::Aborted => true,
    }
}

/// The transport a pending transfer names: its template entry and source
/// map.
#[derive(Clone, Copy, Debug, PartialEq, Eq, Structural)]
pub struct TransferTransport {
    pub entry: u32,
    pub source_map_id: u32,
}

/// The dynamic transport card is not supported.
#[derive(Clone, Copy, Debug, PartialEq, Eq, Structural)]
pub enum TransferCardError {
    DynamicTransportCard { entry: u32 },
}

/// The card of a pending transfer: the client takes the dynamic transport arm
/// only for a valid transport whose entry matches the player's admitted
/// transport object; otherwise the ordinary destination card opens.
pub fn transfer_card(transport: Option<TransferTransport>, player_transport_entry: Option<u32>) -> (card:
    Result<(), TransferCardError>)
    ensures
        card == match transport {
            Some(t) => if t.entry != 0 && t.source_map_id != u32::MAX
                && player_transport_entry == Some(t.entry) {
                Err(TransferCardError::DynamicTransportCard { entry: t.entry })
            } else {
                Ok::<(), TransferCardError>(())
            },
            None => Ok(()),
        },
{
    match transport {
        Some(t) => {
            if t.entry != 0 && t.source_map_id != u32::MAX && player_transport_entry == Some(
                t.entry,
            ) {
                Err(TransferCardError::DynamicTransportCard { entry: t.entry })
            } else {
                Ok(())
            }
        },
        None => Ok(()),
    }
}

/// Abort reason whose argument names a map difficulty.
pub const DIFFICULTY_ABORT_REASON: u8 = 8;

/// The map difficulty whose message an abort shows, if any.
pub fn abort_difficulty(reason: u8, argument: Option<u8>) -> (difficulty: Option<u32>)
    ensures
        difficulty == if reason == DIFFICULTY_ABORT_REASON {
            match argument {
                Some(a) => Some(a as u32),
                None => None::<u32>,
            }
        } else {
            None::<u32>
        },
{
    if reason == DIFFICULTY_ABORT_REASON {
        match argument {
            Some(a) => Some(a as u32),
            None => None,
        }
    } else {
        None
    }
}

/// What finishing the destination map needs this frame.
#[derive(Clone, Copy, Debug, PartialEq, Eq, Structural)]
pub enum MapCompletion {
    /// No destination is loading, or its terrain is not resident yet.
    Wait,
    /// Queue the transfer acknowledgement; complete once it is queued.
    Acknowledge,
    /// Complete the destination map now.
    Complete,
}

pub fn map_completion(loading: bool, terrain_resident: bool, requires_acknowledgement: bool) -> (step:
    MapCompletion)
    ensures
        step == if !loading || !terrain_resident {
            MapCompletion::Wait
        } else if requires_acknowledgement {
            MapCompletion::Acknowledge
        } else {
            MapCompletion::Complete
        },
{
    if !loading || !terrain_resident {
        MapCompletion::Wait
    } else if requires_acknowledgement {
        MapCompletion::Acknowledge
    } else {
        MapCompletion::Complete
    }
}

} // verus!
