//! Editor lifecycle and message-bridge engine for a web-rendered panel that is
//! embedded in a host-owned window.
//!
//! The library owns the verifiable core of that design: the persisted size and
//! open/closed record with its all-or-nothing resize negotiation, the wire
//! codec that multiplexes frame ticks, text payloads and binary payloads over a
//! single string channel, the panel instance manager that reuses a live panel
//! across detach/reattach where the platform allows it, and the runtime
//! thread-confinement guard. Everything that must touch a real window system
//! stays behind the small [`handler::PanelHost`] capability trait, which the
//! surrounding application implements.

use vstd::prelude::*;

pub mod base64;
pub mod codec;
pub mod guard;
pub mod handler;
pub mod manager;
pub mod state;
mod strutil;

use crate::manager::{manager_wf, spec_attach_fresh, spec_attach_reuse, spec_detach, PanelManager};
use crate::state::{spec_set_scale_factor, WebViewState};

verus! {

/// Where the panel's initial content comes from.
#[derive(Debug, Clone)]
pub enum WebViewSource {
    /// Loads a web page from the given URL, for example `https://example.com`.
    URL(String),
    /// Loads a web page from the given HTML content, for example
    /// `<h1>Hello, world!</h1>`.
    HTML(String),
    /// Serves assets over a custom protocol; the browser loads the initial
    /// page from `url` under that protocol.
    CustomProtocol {
        /// The protocol over which the site assets will be served.
        protocol: String,
        /// The path at which a browser will attempt to load the initial page.
        url: String,
    },
}

impl WebViewSource {
    /// The location the panel navigates to initially: the address itself for
    /// a remote address, and `protocol://localhost/path` for assets served
    /// over a custom protocol. Inline markup is handed to the panel whole and
    /// has no location.
    pub open spec fn initial_location_spec(&self) -> Option<Seq<char>> {
        match self {
            WebViewSource::URL(url) => Some(url@),
            WebViewSource::HTML(_) => None,
            WebViewSource::CustomProtocol { protocol, url } => Some(
                protocol@ + "://localhost/"@ + url@,
            ),
        }
    }

    /// Build the initial location, exactly as
    /// [`WebViewSource::initial_location_spec`] states it.
    pub fn initial_location(&self) -> (r: Option<String>)
        ensures
            match r {
                Some(loc) => self.initial_location_spec() == Some(loc@),
                None => self.initial_location_spec() is None,
            },
    {
        match self {
            WebViewSource::URL(url) => Some(url.clone()),
            WebViewSource::HTML(_) => None,
            WebViewSource::CustomProtocol { protocol, url } => {
                let mut loc = protocol.clone();
                loc.append("://localhost/");
                loc.append(url.as_str());
                Some(loc)
            },
        }
    }
}

/// Static configuration of one editor: window title, content source, and the
/// directory where the panel keeps its working data.
pub struct WebViewConfig {
    /// The title of the window when running as a standalone application.
    pub title: String,
    /// The source for the site to be loaded in the panel.
    pub source: WebViewSource,
    /// The directory where the panel will store its working data.
    pub workdir: String,
}

/// A panel-based plugin editor: the persisted state shared with the plugin,
/// the static configuration, and the lifecycle bookkeeping for the single
/// panel instance.
///
/// The host drives it: an attach request first tries to reuse the parked
/// instance by reparenting ([`WebViewEditor::attach_reused`] when the
/// platform reparent succeeded) and falls back to constructing a fresh one
/// ([`WebViewEditor::attach_fresh`]); releasing the editor handle detaches
/// ([`WebViewEditor::detach`]), parking the instance without destroying it.
pub struct WebViewEditor {
    /// The persisted size and open flag, shared with the plugin.
    pub state: WebViewState,
    /// Static configuration: title, content source, working directory.
    pub config: WebViewConfig,
    /// Attach/detach bookkeeping for the panel instance.
    pub manager: PanelManager,
}

impl WebViewEditor {
    /// The window is open exactly while the panel is attached, and the
    /// instance bookkeeping is consistent.
    pub open spec fn wf(&self) -> bool {
        &&& self.state.open == self.manager.attached
        &&& manager_wf(self.manager)
    }

    /// An editor that has not yet been attached: no panel instance exists and
    /// the window is closed.
    pub fn new(state: WebViewState, config: WebViewConfig) -> (e: WebViewEditor)
        requires
            !state.open,
        ensures
            e.state == state,
            e.config == config,
            e.manager == (PanelManager {
                attached: false,
                instance: None::<u64>,
                next_id: 0,
                init_count: 0,
            }),
            e.wf(),
    {
        WebViewEditor { state, config, manager: PanelManager::new() }
    }

    /// Whether an attach may try to reparent the parked panel instance into
    /// the new host window instead of constructing a fresh one.
    pub fn can_reuse(&self) -> (r: bool)
        ensures
            r == self.manager.instance is Some,
    {
        self.manager.can_reuse()
    }

    /// Record an attach that reparented the parked instance into the new host
    /// window: the same instance is reused, `init` is not owed again, and the
    /// window is now open.
    pub fn attach_reused(&mut self)
        requires
            old(self).wf(),
            !old(self).state.open,
            old(self).manager.instance is Some,
        ensures
            final(self).wf(),
            final(self).manager == spec_attach_reuse(old(self).manager),
            final(self).state == (WebViewState { open: true, ..old(self).state }),
            final(self).config == old(self).config,
    {
        self.manager.attach_reuse();
        self.state.open = true;
    }

    /// Record an attach that constructed a fresh panel instance — the first
    /// attach, or a reattach on a platform that cannot reparent: the instance
    /// gets a fresh identity, `init` is owed exactly once more, and the
    /// window is now open.
    pub fn attach_fresh(&mut self)
        requires
            old(self).wf(),
            !old(self).state.open,
            old(self).manager.next_id < u64::MAX,
            old(self).manager.init_count < u64::MAX,
        ensures
            final(self).wf(),
            final(self).manager == spec_attach_fresh(old(self).manager),
            final(self).state == (WebViewState { open: true, ..old(self).state }),
            final(self).config == old(self).config,
    {
        self.manager.attach_fresh();
        self.state.open = true;
    }

    /// Record a detach — the host released the editor handle: the window is
    /// closed and the panel instance is parked, with its identity, for a
    /// later attach; it is not destroyed.
    pub fn detach(&mut self)
        requires
            old(self).wf(),
            old(self).state.open,
        ensures
            final(self).wf(),
            final(self).manager == spec_detach(old(self).manager),
            final(self).state == (WebViewState { open: false, ..old(self).state }),
            final(self).config == old(self).config,
    {
        self.manager.detach();
        self.state.open = false;
    }

    /// The current editor size in logical pixels, as reported to the host
    /// before it creates the window.
    pub fn size(&self) -> (r: (u32, u32))
        ensures
            r == (self.state.window_size.width, self.state.window_size.height),
    {
        self.state.window_size()
    }

    /// A host-driven scale-factor change. While the window is open it is
    /// refused — there is no way to change scale mid-session. Otherwise the
    /// matching resize is deferred to the next frame tick, because resizing
    /// synchronously from this notification can deadlock the host.
    pub fn set_scale_factor(&mut self) -> (accepted: bool)
        ensures
            final(self).state == spec_set_scale_factor(old(self).state).0,
            accepted == spec_set_scale_factor(old(self).state).1,
            final(self).manager == old(self).manager,
            final(self).config == old(self).config,
            old(self).wf() ==> final(self).wf(),
    {
        if self.state.is_open() {
            return false;
        }
        self.state.resize_pending = true;
        true
    }
}

} // verus!
