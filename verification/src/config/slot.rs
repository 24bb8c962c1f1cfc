//! The place of the configuration of a process: it may be set until it is
//! first read, and from then on it stays what it is.

use super::{DefaultConfig, InnerConfig, RespConfig, RespView, SerdeConfig, SerdeView};
use vstd::prelude::*;

verus! {

/// What a configuration says, in both its parts.
pub struct ConfigView {
    pub serde: SerdeView,
    pub resp: RespView,
}

/// What a slot holds: the configuration that was set, if one was, and
/// whether it has been read.
pub struct SlotView {
    pub config: Option<ConfigView>,
    pub read: bool,
}

/// What the default configuration says.
pub open spec fn default_view() -> ConfigView {
    ConfigView { serde: DefaultConfig.serde_view(), resp: DefaultConfig.resp_view() }
}

/// A slot after an attempt to set `config`: it takes it while it is unread,
/// and stays as it is once it is read.
pub open spec fn slot_set(slot: SlotView, config: ConfigView) -> SlotView {
    if slot.read {
        slot
    } else {
        SlotView { config: Some(config), read: false }
    }
}

/// A slot after a read: it is read, and holds what was set, or the default
/// where nothing was.
pub open spec fn slot_read(slot: SlotView) -> SlotView {
    SlotView {
        config: Some(
            match slot.config {
                Some(config) => config,
                None => default_view(),
            },
        ),
        read: true,
    }
}

/// Once a slot is read, no attempt to set it changes it.
pub proof fn lemma_read_slot_stays(slot: SlotView, config: ConfigView)
    requires
        slot.read,
    ensures
        slot_set(slot, config) == slot,
        slot_set(slot_read(slot), config) == slot_read(slot),
{
}

/// A second read finds what the first found.
pub proof fn lemma_read_twice(slot: SlotView)
    ensures
        slot_read(slot_read(slot)) == slot_read(slot),
        slot_read(slot).config is Some,
{
}

/// Before the first read the last configuration that was set is the one
/// that a read finds.
pub proof fn lemma_last_set_is_read(slot: SlotView, first: ConfigView, second: ConfigView)
    requires
        !slot.read,
    ensures
        slot_read(slot_set(slot_set(slot, first), second)).config == Some(second),
{
}

/// The place of the configuration of a process.
#[derive(Debug)]
pub struct ConfigSlot {
    config: Option<InnerConfig>,
    read: bool,
}

impl View for ConfigSlot {
    type V = SlotView;

    closed spec fn view(&self) -> SlotView {
        SlotView {
            config: match self.config {
                Some(config) => Some(ConfigView { serde: config.serde@, resp: config.resp@ }),
                None => None,
            },
            read: self.read,
        }
    }
}

impl ConfigSlot {
    #[verifier::type_invariant]
    spec fn read_means_resolved(self) -> bool {
        self.read ==> self.config is Some
    }

    /// A slot that holds nothing and is unread.
    pub fn new() -> (r: ConfigSlot)
        ensures
            r@ == (SlotView { config: None, read: false }),
    {
        ConfigSlot { config: None, read: false }
    }

    /// Sets `config`, unless the slot is read. Says whether it did.
    pub fn set(&mut self, config: InnerConfig) -> (r: bool)
        ensures
            r == !old(self)@.read,
            final(self)@ == slot_set(
                old(self)@,
                ConfigView { serde: config.serde@, resp: config.resp@ },
            ),
    {
        proof {
            use_type_invariant(&*self);
        }
        if self.read {
            false
        } else {
            self.config = Some(config);
            true
        }
    }

    /// Reads the slot: resolves the default where nothing was set, and
    /// closes the slot to further setting.
    pub fn read(&mut self)
        ensures
            final(self)@ == slot_read(old(self)@),
    {
        if self.config.is_none() {
            let config = InnerConfig::default();
            self.config = Some(config);
        }
        self.read = true;
    }

    /// The configuration, once the slot is read.
    pub fn get(&self) -> (r: Option<&InnerConfig>)
        ensures
            r is Some <==> self@.read,
            r matches Some(config) ==> self@.config == Some(
                ConfigView { serde: config.serde@, resp: config.resp@ },
            ),
    {
        proof {
            use_type_invariant(self);
        }
        if self.read {
            self.config.as_ref()
        } else {
            None
        }
    }
}

} // verus!
