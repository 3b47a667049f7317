//! The settings panel's visibility and messages.

use vstd::prelude::*;
use std::sync::Arc;

verus! {

/// The settings panel over a configuration and a workspace manifest.
#[derive(Debug)]
pub struct Settings<C, W> {
    cfg: Arc<C>,
    wsp: Arc<W>,
    pub show: bool,
}

/// The messages of the settings panel.
#[derive(Debug, Clone)]
pub enum SettingsMessage {
    /// A field (named by the first text) changed to a value (the second).
    ContentChanged(String, String),
}

impl<C, W> Settings<C, W> {
    /// Whether the panel is shown.
    pub closed spec fn spec_show(&self) -> bool {
        self.show
    }

    /// The configuration the panel edits.
    pub closed spec fn spec_cfg(&self) -> Arc<C> {
        self.cfg
    }

    /// The workspace manifest the panel edits.
    pub closed spec fn spec_wsp(&self) -> Arc<W> {
        self.wsp
    }

    /// Shows the panel when hidden and hides it when shown.
    pub fn toggle(&mut self)
        ensures
            final(self).spec_show() == !old(self).spec_show(),
            final(self).spec_cfg() == old(self).spec_cfg(),
            final(self).spec_wsp() == old(self).spec_wsp(),
    {
        self.show = !self.show;
    }

    /// A hidden settings panel.
    pub fn new(cfg: Arc<C>, wsp: Arc<W>) -> (r: Self)
        ensures
            !r.spec_show(),
            r.spec_cfg() == cfg,
            r.spec_wsp() == wsp,
    {
        Self { cfg, wsp, show: false }
    }

    /// Handles a message. No field is recognized yet, so nothing changes.
    pub fn update(&mut self, msg: SettingsMessage)
        ensures
            *final(self) == *old(self),
    {
        match msg {
            SettingsMessage::ContentChanged(_field, _value) => {},
        }
    }
}

} // verus!
