//! Shared model opacity ownership: which display a model was selected for,
//! whether its entry fade awaits the first animation decision, and when the
//! model was removed. The fade curve itself is floating-point and stays with
//! the caller.

use vstd::prelude::*;

verus! {

/// Lifecycle of one entity's opacity owner.
#[derive(Clone, Copy, Debug, PartialEq, Eq)]
pub struct EntityOpacityOwner {
    pub selection: Option<u32>,
    pub initial_animation_pending: bool,
    pub transport_guid: u64,
    pub removed_at: Option<u32>,
}

/// Selecting `display_id`: a new display publishes its fade target and
/// awaits its first animation decision; the current display changes nothing.
pub open spec fn selected(owner: EntityOpacityOwner, display_id: u32) -> (EntityOpacityOwner, bool) {
    if owner.selection != Some(display_id) {
        (
            EntityOpacityOwner {
                selection: Some(display_id),
                initial_animation_pending: true,
                ..owner
            },
            true,
        )
    } else {
        (owner, false)
    }
}

impl EntityOpacityOwner {
    pub fn new() -> (owner: Self)
        ensures
            owner.selection is None,
            !owner.initial_animation_pending,
            owner.transport_guid == 0,
            owner.removed_at is None,
    {
        EntityOpacityOwner {
            selection: None,
            initial_animation_pending: false,
            transport_guid: 0,
            removed_at: None,
        }
    }

    pub fn set_transport_guid(&mut self, guid: u64)
        ensures
            *final(self) == (EntityOpacityOwner { transport_guid: guid, ..*old(self) }),
    {
        self.transport_guid = guid;
    }

    /// The first removal time wins.
    pub fn mark_removed(&mut self, now: u32)
        ensures
            *final(self) == (EntityOpacityOwner {
                removed_at: if old(self).removed_at is None {
                    Some(now)
                } else {
                    old(self).removed_at
                },
                ..*old(self)
            }),
    {
        if self.removed_at.is_none() {
            self.removed_at = Some(now);
        }
    }

    /// Removal time and transport parent of a retiring model.
    pub fn retirement(&self) -> (retirement: Option<(u32, u64)>)
        ensures
            retirement == match self.removed_at {
                Some(now) => Some((now, self.transport_guid)),
                None => None,
            },
    {
        match self.removed_at {
            Some(now) => Some((now, self.transport_guid)),
            None => None,
        }
    }

    pub fn has_model(&self, display_id: u32) -> (has: bool)
        ensures
            has == (self.selection == Some(display_id)),
    {
        self.selection == Some(display_id)
    }

    /// CPU model admission publishes a fade target once for each selected
    /// display; returns whether the caller must start that fade.
    pub fn select_model(&mut self, display_id: u32) -> (publish: bool)
        ensures
            (*final(self), publish) == selected(*old(self), display_id),
    {
        if self.selection == Some(display_id) {
            return false;
        }
        self.selection = Some(display_id);
        self.initial_animation_pending = true;
        true
    }

    /// The client suppresses entry interpolation when the selected behavior is
    /// Birth; returns whether the caller must finish the fade at once.
    pub fn resolve_initial_animation(&mut self, birth: bool) -> (finish: bool)
        ensures
            finish == (old(self).initial_animation_pending && birth),
            *final(self) == (EntityOpacityOwner { initial_animation_pending: false, ..*old(self) }),
    {
        let pending = self.initial_animation_pending;
        self.initial_animation_pending = false;
        pending && birth
    }

    /// A model without a selected display is fully opaque; otherwise its fade
    /// state decides.
    pub fn uses_fade(&self) -> (fade: bool)
        ensures
            fade == (self.selection is Some),
    {
        self.selection.is_some()
    }
}

/// Selecting the same display twice publishes one fade target: the second
/// selection changes nothing and publishes nothing.
pub proof fn law_select_is_idempotent(owner: EntityOpacityOwner, display_id: u32)
    ensures
        selected(selected(owner, display_id).0, display_id) == (
            selected(owner, display_id).0,
            false,
        ),
        selected(owner, display_id).0.selection == Some(display_id),
{
}

} // verus!
