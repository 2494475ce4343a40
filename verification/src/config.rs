//! The identifiers that tie the registry to one community. They are read
//! once when the process starts and never change afterwards.
//!
//! An identifier of the platform is never 0. A configuration may hold 0, as
//! a file may say anything, but nothing can be done with such an
//! identifier: whatever hands a configured identifier on asks that it is
//! not 0.

use vstd::prelude::*;

verus! {

/// The configuration of the registry.
#[derive(Debug, Clone, PartialEq, Eq)]
pub struct Config {
    /// The credential of the process on the platform.
    pub token: String,
    /// The category under which every managed channel lives.
    pub category_id: u64,
    /// The channel that receives a note of every successful action.
    pub log_channel_id: u64,
    /// The channel that holds the public index.
    pub list_channel_id: u64,
    /// The role that may provision, rename, redescribe and retire channels.
    pub special_role_id: u64,
    /// The role that may force a rebuild of the public index.
    pub manager_role_id: u64,
}

impl Config {
    /// The category, the log channel and the list channel are identifiers
    /// that the platform can have: none of them is 0.
    pub open spec fn names_channels(&self) -> bool {
        &&& self.category_id != 0
        &&& self.log_channel_id != 0
        &&& self.list_channel_id != 0
    }

    /// Whether the category, the log channel and the list channel are
    /// identifiers that the platform can have.
    pub fn has_channels(&self) -> (named: bool)
        ensures
            named == self.names_channels(),
    {
        self.category_id != 0 && self.log_channel_id != 0 && self.list_channel_id != 0
    }

    /// The category under which every managed channel lives.
    pub fn category_id(&self) -> (id: u64)
        requires
            self.category_id != 0,
        ensures
            id == self.category_id,
    {
        self.category_id
    }

    /// The channel that receives a note of every successful action.
    pub fn log_channel_id(&self) -> (id: u64)
        requires
            self.log_channel_id != 0,
        ensures
            id == self.log_channel_id,
    {
        self.log_channel_id
    }

    /// The channel that holds the public index.
    pub fn list_channel_id(&self) -> (id: u64)
        requires
            self.list_channel_id != 0,
        ensures
            id == self.list_channel_id,
    {
        self.list_channel_id
    }

    /// The role that may provision, rename, redescribe and retire channels.
    pub fn special_role_id(&self) -> (id: u64)
        requires
            self.special_role_id != 0,
        ensures
            id == self.special_role_id,
    {
        self.special_role_id
    }

    /// The role that may force a rebuild of the public index.
    pub fn manager_role_id(&self) -> (id: u64)
        requires
            self.manager_role_id != 0,
        ensures
            id == self.manager_role_id,
    {
        self.manager_role_id
    }
}

} // verus!
