//! The targets as they were loaded, kept in one place for the life of the
//! process.

use crate::target::{target_views, RepoTarget, TargetView};
use vstd::prelude::*;

verus! {

/// Holds the loaded targets once there are any. Targets that have been
/// stored stay: a later list does not replace them.
#[derive(Debug)]
pub struct AuthBox {
    items: Option<Vec<RepoTarget>>,
}

impl View for AuthBox {
    type V = Option<Seq<TargetView>>;

    closed spec fn view(&self) -> Option<Seq<TargetView>> {
        match self.items {
            Some(items) => Some(target_views(items@)),
            None => None,
        }
    }
}

impl AuthBox {
    /// A box that holds no targets yet.
    pub fn new() -> (store: AuthBox)
        ensures
            store@ is None,
    {
        AuthBox { items: None }
    }
}

/// Stores `items`, unless targets are held already.
pub fn init_auth_box(store: &mut AuthBox, items: Vec<RepoTarget>)
    ensures
        final(store)@ == (if old(store)@ is Some {
            old(store)@
        } else {
            Some(target_views(items@))
        }),
{
    if store.items.is_none() {
        store.items = Some(items);
    }
}

/// The targets held by `store`, if any have been stored.
pub fn auth_items(store: &AuthBox) -> (items: Option<&Vec<RepoTarget>>)
    ensures
        match items {
            Some(held) => store@ == Some(target_views(held@)),
            None => store@ is None,
        },
{
    match &store.items {
        Some(held) => Some(held),
        None => None,
    }
}

} // verus!
