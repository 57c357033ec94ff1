//! Windows: their identities, their state, and how the main window is described
//! to the toolkit.

use vstd::prelude::*;

verus! {

/// The token that tells one open window from another. Two identities are the
/// same window exactly if they are equal.
#[derive(Clone, Copy, Debug, PartialEq, Eq, Hash, Structural)]
pub struct WindowIdentity {
    pub(crate) raw: u64,
}

impl WindowIdentity {
    /// The number that this identity was minted with.
    pub closed spec fn raw_value(self) -> u64 {
        self.raw
    }

    /// The number that this identity was minted with.
    pub fn raw(&self) -> (raw: u64)
        ensures
            raw == self.raw_value(),
    {
        self.raw
    }

    /// Identities with the same number are the same identity.
    pub proof fn lemma_equal_by_raw(self, other: WindowIdentity)
        ensures
            self.raw_value() == other.raw_value() <==> self == other,
    {
    }
}

/// The number of identities that one mint can hand out.
pub const MINT_CAPACITY: u64 = 0xffff_ffff_ffff_fffe;

/// The source of window identities. It never hands out the same one twice.
pub struct WindowIdentityMint {
    next: u64,
}

impl WindowIdentityMint {
    /// The first identity carries the number one.
    #[verifier::type_invariant]
    closed spec fn starts_at_one(&self) -> bool {
        self.next >= 1
    }

    /// The identities handed out so far.
    pub closed spec fn issued(&self) -> Set<WindowIdentity> {
        Set::new(|id: WindowIdentity| 1 <= id.raw < self.next)
    }

    /// How many identities have been handed out so far.
    pub closed spec fn minted(&self) -> nat {
        (self.next - 1) as nat
    }

    /// Whether every identity has been handed out.
    pub open spec fn exhausted(&self) -> bool {
        self.minted() >= MINT_CAPACITY
    }

    /// A mint that has handed out nothing yet.
    pub fn new() -> (mint: WindowIdentityMint)
        ensures
            mint.issued() == Set::<WindowIdentity>::empty(),
            mint.minted() == 0,
    {
        let mint = WindowIdentityMint { next: 1 };
        assert(mint.issued() =~= Set::<WindowIdentity>::empty());
        mint
    }

    /// Hands out an identity that was never handed out before, or `None` once
    /// there is none left.
    pub fn mint(&mut self) -> (minted: Option<WindowIdentity>)
        ensures
            match minted {
                Some(id) => {
                    &&& !old(self).exhausted()
                    &&& !old(self).issued().contains(id)
                    &&& final(self).issued() == old(self).issued().insert(id)
                    &&& final(self).minted() == old(self).minted() + 1
                },
                None => old(self).exhausted() && *final(self) == *old(self),
            },
    {
        if self.next == u64::MAX {
            return None;
        }
        proof {
            use_type_invariant(&*self);
        }
        let id = WindowIdentity { raw: self.next };
        self.next = self.next + 1;
        assert(self.issued() =~= old(self).issued().insert(id));
        Some(id)
    }
}

/// What the editor keeps for one window: its identity and the tab that is
/// active in it.
#[derive(Clone, Copy, Debug, PartialEq, Eq, Structural)]
pub struct WindowState {
    pub window_id: WindowIdentity,
    pub active_tab: usize,
}

impl WindowState {
    /// The state of a window that has just been opened: its first tab is active.
    pub fn new(window_id: WindowIdentity) -> (state: WindowState)
        ensures
            state == (WindowState { window_id, active_tab: 0 }),
    {
        WindowState { window_id, active_tab: 0 }
    }
}

/// The application's delegate: it is told of windows that come and go.
pub struct Delegate {
    windows: Vec<WindowIdentity>,
}

impl View for Delegate {
    type V = Seq<WindowIdentity>;

    closed spec fn view(&self) -> Seq<WindowIdentity> {
        self.windows@
    }
}

impl Delegate {
    /// A delegate that knows of no window.
    pub fn new() -> (delegate: Delegate)
        ensures
            delegate@ == Seq::<WindowIdentity>::empty(),
    {
        Delegate { windows: Vec::new() }
    }

    /// The windows that the delegate knows of.
    pub fn windows(&self) -> (windows: &Vec<WindowIdentity>)
        ensures
            windows@ == self@,
    {
        &self.windows
    }
}

/// The width of the main window, and the least it can be resized to.
pub const WINDOW_WIDTH: u32 = 800;

/// The height of the main window, and the least it can be resized to.
pub const WINDOW_HEIGHT: u32 = 600;

/// What the toolkit is told of a window that is to be opened. The window has
/// no menu.
#[derive(Clone, Debug, PartialEq, Eq)]
pub struct WindowDescriptor {
    pub window_id: WindowIdentity,
    /// The key under which the title is looked up among the localised strings.
    pub title_key: &'static str,
    /// The title where no localised string is found.
    pub title_placeholder: &'static str,
    pub width: u32,
    pub height: u32,
    pub min_width: u32,
    pub min_height: u32,
}

/// The description of the editor's main window.
pub fn main_window(window_id: WindowIdentity) -> (window: WindowDescriptor)
    ensures
        window.window_id == window_id,
        window.title_key@ == "lapce"@,
        window.title_placeholder@ == "Lapce"@,
        window.width == WINDOW_WIDTH,
        window.height == WINDOW_HEIGHT,
        window.min_width == WINDOW_WIDTH,
        window.min_height == WINDOW_HEIGHT,
{
    WindowDescriptor {
        window_id,
        title_key: "lapce",
        title_placeholder: "Lapce",
        width: WINDOW_WIDTH,
        height: WINDOW_HEIGHT,
        min_width: WINDOW_WIDTH,
        min_height: WINDOW_HEIGHT,
    }
}

} // verus!
