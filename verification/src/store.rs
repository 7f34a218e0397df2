//! What the coordinator asks of any place that holds firmware.

use vstd::prelude::*;

use crate::metadata::Metadata;

verus! {

/// A place that holds firmware: a container registry, an update server, a
/// directory.
///
/// What a store may answer, and how asking may change it, is for each
/// store to say: for each question there is a relation between the store
/// before, what is asked, the store afterwards and the answer. A store that
/// says nothing may answer anything. The coordinator is proved for every
/// store and every answer.
pub trait FirmwareStore: Sized {
    /// What names a firmware in this store.
    type Params;

    /// What the store remembers between the calls that belong to one status.
    type Context;

    /// Whether asking for the firmware that `params` names may leave the
    /// store as `after` and give `outcome`.
    open spec fn may_fetch_metadata(
        &self,
        after: Self,
        params: Self::Params,
        outcome: Result<(Self::Context, Option<Metadata>), String>,
    ) -> bool {
        true
    }

    /// Whether the store may advise `backoff` after `context`.
    open spec fn may_get_backoff(&self, context: Self::Context, backoff: Option<u32>) -> bool {
        true
    }

    /// Whether telling the store how far a transfer has come may leave it as
    /// `after` and give `outcome`.
    open spec fn may_update_progress(
        &self,
        after: Self,
        params: Self::Params,
        context: Self::Context,
        offset: u32,
        size: u32,
        outcome: Result<(), String>,
    ) -> bool {
        true
    }

    /// Whether telling the store how an installation ended may leave it as
    /// `after` and give `outcome`.
    open spec fn may_mark_synced(
        &self,
        after: Self,
        params: Self::Params,
        context: Self::Context,
        success: bool,
        outcome: Result<(), String>,
    ) -> bool {
        true
    }

    /// Whether asking for the firmware that `metadata` describes may leave
    /// the store as `after` and give `outcome`.
    open spec fn may_fetch_firmware(
        &self,
        after: Self,
        params: Self::Params,
        context: Self::Context,
        metadata: Metadata,
        outcome: Result<Vec<u8>, String>,
    ) -> bool {
        true
    }

    /// Looks for the firmware that `params` names. No metadata means that
    /// there is nothing to install yet.
    fn fetch_metadata(&mut self, params: &Self::Params) -> (outcome: Result<
        (Self::Context, Option<Metadata>),
        String,
    >)
        ensures
            old(self).may_fetch_metadata(*final(self), *params, outcome),
    ;

    /// How long, in seconds, a device should wait before it asks again.
    fn get_backoff(&self, context: &Self::Context) -> (backoff: Option<u32>)
        ensures
            self.may_get_backoff(*context, backoff),
    ;

    /// Tells the store how far a transfer has come.
    fn update_progress(
        &mut self,
        params: &Self::Params,
        context: &Self::Context,
        offset: u32,
        size: u32,
    ) -> (outcome: Result<(), String>)
        ensures
            old(self).may_update_progress(*final(self), *params, *context, offset, size, outcome),
    ;

    /// Tells the store that a device runs the firmware, or failed to install it.
    fn mark_synced(&mut self, params: &Self::Params, context: &Self::Context, success: bool)
        -> (outcome: Result<(), String>)
        ensures
            old(self).may_mark_synced(*final(self), *params, *context, success, outcome),
    ;

    /// Delivers the whole firmware that `metadata` describes.
    fn fetch_firmware(
        &mut self,
        params: &Self::Params,
        context: &Self::Context,
        metadata: &Metadata,
    ) -> (outcome: Result<Vec<u8>, String>)
        ensures
            old(self).may_fetch_firmware(*final(self), *params, *context, *metadata, outcome),
    ;
}

} // verus!
