//! The state of the whole application, owned in one place.

use crate::command::{LapceUICommand, SinkView, Submission, Target, UiCommandSink};
use crate::environment::{
    customize_environment, editor_font_family, resolved_color, ColorSlot, StyleEnvironment,
    EDITOR_FONT_SIZE, EDITOR_LINE_HEIGHT,
};
use crate::registry::AppStateRegistry;
use crate::theme::ThemeMap;
use crate::window::{WindowIdentity, WindowIdentityMint, WindowState, MINT_CAPACITY};
use vstd::prelude::*;

verus! {

/// The state that the whole application shares: the theme, the states of its
/// windows, and the sink for UI commands. It is made once at startup, with
/// its sink in place, and handed to whoever needs it.
pub struct AppState {
    theme: ThemeMap,
    states: AppStateRegistry,
    ui_sink: UiCommandSink,
    mint: WindowIdentityMint,
}

impl AppState {
    /// Every window's state stands under the identity that it carries, and
    /// every identity in use came from the application's own mint.
    pub closed spec fn wf(&self) -> bool {
        forall|id: WindowIdentity| #[trigger]
            self.states@.contains_key(id) ==> self.mint.issued().contains(id)
                && self.states@[id].window_id == id
    }

    /// The theme.
    pub closed spec fn theme_view(&self) -> Map<Seq<char>, Seq<char>> {
        self.theme@
    }

    /// The states of the open windows.
    pub closed spec fn windows(&self) -> Map<WindowIdentity, WindowState> {
        self.states@
    }

    /// The sink for UI commands.
    pub closed spec fn sink(&self) -> SinkView {
        self.ui_sink@
    }

    /// How many windows have been opened so far.
    pub closed spec fn opened(&self) -> nat {
        self.mint.minted()
    }

    /// Whether there is an identity left for one more window.
    pub open spec fn can_open_window(&self) -> bool {
        self.opened() < MINT_CAPACITY
    }

    /// The state of an application that has `theme`, no window yet, and an
    /// open sink with nothing pending.
    pub fn new(theme: ThemeMap) -> (state: AppState)
        ensures
            state.wf(),
            state.theme_view() == theme@,
            state.windows() == Map::<WindowIdentity, WindowState>::empty(),
            state.sink() == (SinkView { open: true, pending: Seq::empty() }),
            state.opened() == 0,
    {
        AppState {
            theme,
            states: AppStateRegistry::new(),
            ui_sink: UiCommandSink::new(),
            mint: WindowIdentityMint::new(),
        }
    }

    /// Opens a window: mints an identity that no window has had, and registers
    /// under it the state of a new window. No other window's state changes.
    /// It returns `None`, and changes nothing, once no identity is left.
    pub fn open_window(&mut self) -> (opened: Option<WindowIdentity>)
        requires
            old(self).wf(),
        ensures
            final(self).wf(),
            final(self).theme_view() == old(self).theme_view(),
            final(self).sink() == old(self).sink(),
            opened is Some <==> old(self).can_open_window(),
            match opened {
                Some(id) => {
                    &&& final(self).opened() == old(self).opened() + 1
                    &&& !old(self).windows().contains_key(id)
                    &&& final(self).windows() == old(self).windows().insert(
                        id,
                        WindowState { window_id: id, active_tab: 0 },
                    )
                },
                None => final(self).windows() == old(self).windows() && final(self).opened()
                    == old(self).opened(),
            },
    {
        match self.mint.mint() {
            Some(id) => {
                self.states.register(id, WindowState::new(id));
                Some(id)
            },
            None => None,
        }
    }

    /// The state of the window `identity`.
    pub fn window(&self, identity: WindowIdentity) -> (state: Option<WindowState>)
        ensures
            state == if self.windows().contains_key(identity) {
                Some(self.windows()[identity])
            } else {
                None
            },
    {
        self.states.lookup(identity)
    }

    /// Makes `tab` the active tab of the window `identity`, and says whether
    /// there is such a window. No other window's state changes.
    pub fn set_active_tab(&mut self, identity: WindowIdentity, tab: usize) -> (found: bool)
        requires
            old(self).wf(),
        ensures
            final(self).wf(),
            final(self).theme_view() == old(self).theme_view(),
            final(self).sink() == old(self).sink(),
            final(self).opened() == old(self).opened(),
            found == old(self).windows().contains_key(identity),
            final(self).windows() == if found {
                old(self).windows().insert(
                    identity,
                    WindowState { window_id: identity, active_tab: tab },
                )
            } else {
                old(self).windows()
            },
    {
        if self.states.contains(identity) {
            self.states.register(identity, WindowState { window_id: identity, active_tab: tab });
            true
        } else {
            false
        }
    }

    /// Hands `command` for `target` to the GUI thread, as `UiCommandSink::submit`
    /// does.
    pub fn submit_command(&mut self, command: LapceUICommand, target: Target)
        ensures
            final(self).sink() == old(self).sink().submit(Submission { command, target }),
            final(self).theme_view() == old(self).theme_view(),
            final(self).windows() == old(self).windows(),
            final(self).opened() == old(self).opened(),
            old(self).wf() ==> final(self).wf(),
    {
        self.ui_sink.submit(command, target);
    }

    /// Takes the oldest pending command, for the GUI thread to carry out.
    pub fn next_command(&mut self) -> (taken: Option<Submission>)
        ensures
            taken == old(self).sink().next(),
            final(self).sink() == old(self).sink().after_next(),
            final(self).theme_view() == old(self).theme_view(),
            final(self).windows() == old(self).windows(),
            final(self).opened() == old(self).opened(),
            old(self).wf() ==> final(self).wf(),
    {
        self.ui_sink.next_command()
    }

    /// Closes the sink when the GUI thread terminates.
    pub fn shut_down(&mut self)
        ensures
            final(self).sink() == old(self).sink().shut_down(),
            final(self).theme_view() == old(self).theme_view(),
            final(self).windows() == old(self).windows(),
            final(self).opened() == old(self).opened(),
            old(self).wf() ==> final(self).wf(),
    {
        self.ui_sink.shut_down();
    }

    /// Puts the application's theme and the editor's fixed styling into `env`,
    /// as `customize_environment` does.
    pub fn customize_environment(&self, env: &mut StyleEnvironment)
        ensures
            forall|slot: ColorSlot|
                final(env).color_at(slot) == resolved_color(
                    self.theme_view(),
                    old(env).color_at(slot),
                    slot,
                ),
            final(env).editor_line_height == Some(EDITOR_LINE_HEIGHT),
            final(env).editor_font matches Some(font) && font.family@ == editor_font_family()
                && font.size == EDITOR_FONT_SIZE,
    {
        customize_environment(&self.theme, env);
    }
}

} // verus!
