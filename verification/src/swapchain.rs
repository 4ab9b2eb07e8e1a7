//! The swapchain lifecycle: a two-state machine driven by visibility signals.
//!
//! A swapchain is created when the application becomes visible (`Resumed`) and destroyed
//! when it stops being visible (`Suspended`). At most one swapchain is live at any time;
//! a resume while one is live breaks the lifecycle contract.

use vstd::prelude::*;

verus! {

/// Whether the render thread currently owns a live swapchain.
#[derive(Clone, Copy, Debug, PartialEq, Eq, Structural)]
pub enum SwapchainState {
    NoSwapchain,
    HasSwapchain,
}

/// A visibility transition reported by the platform.
#[derive(Clone, Copy, Debug, PartialEq, Eq, Structural)]
pub enum LifecycleSignal {
    Suspended,
    Resumed,
}

/// The state after `signal` arrives in `state`; `None` where the signal breaks the
/// lifecycle contract (a resume while a swapchain is already live).
pub open spec fn transition(state: SwapchainState, signal: LifecycleSignal) -> Option<
    SwapchainState,
> {
    match signal {
        LifecycleSignal::Suspended => Some(SwapchainState::NoSwapchain),
        LifecycleSignal::Resumed => match state {
            SwapchainState::NoSwapchain => Some(SwapchainState::HasSwapchain),
            SwapchainState::HasSwapchain => None,
        },
    }
}

/// The state reached from `state` by `signals`, applied first to last; `None` as soon as
/// one of them breaks the lifecycle contract.
pub open spec fn run(state: SwapchainState, signals: Seq<LifecycleSignal>) -> Option<
    SwapchainState,
>
    decreases signals.len(),
{
    if signals.len() == 0 {
        Some(state)
    } else {
        match run(state, signals.drop_last()) {
            Some(before) => transition(before, signals.last()),
            None => None,
        }
    }
}

/// No two neighbouring signals are the same.
pub open spec fn alternating(signals: Seq<LifecycleSignal>) -> bool {
    forall|i: int, j: int|
        #![trigger signals[i], signals[j]]
        0 <= i && j == i + 1 && j < signals.len() ==> signals[i] != signals[j]
}

/// The state in which a lifecycle that started without a swapchain is expected to rest
/// after `signals`.
pub open spec fn resting_state(signals: Seq<LifecycleSignal>) -> SwapchainState {
    if signals.len() > 0 && signals.last() == LifecycleSignal::Resumed {
        SwapchainState::HasSwapchain
    } else {
        SwapchainState::NoSwapchain
    }
}

impl SwapchainState {
    /// The state a lifecycle starts in.
    pub fn initial() -> (state: SwapchainState)
        ensures
            state == SwapchainState::NoSwapchain,
    {
        SwapchainState::NoSwapchain
    }

    /// Executable form of [`transition`].
    pub fn after(self, signal: LifecycleSignal) -> (next: Option<SwapchainState>)
        ensures
            next == transition(self, signal),
    {
        match signal {
            LifecycleSignal::Suspended => Some(SwapchainState::NoSwapchain),
            LifecycleSignal::Resumed => match self {
                SwapchainState::NoSwapchain => Some(SwapchainState::HasSwapchain),
                SwapchainState::HasSwapchain => None,
            },
        }
    }

    /// Applies `signals` in order, stopping at the first one that breaks the contract.
    pub fn after_all(self, signals: &Vec<LifecycleSignal>) -> (end: Option<SwapchainState>)
        ensures
            end == run(self, signals@),
    {
        let mut state: SwapchainState = self;
        let mut i: usize = 0;
        while i < signals.len()
            invariant
                i <= signals.len(),
                run(self, signals@.take(i as int)) == Some(state),
            decreases signals.len() - i,
        {
            let next = state.after(signals[i]);
            proof {
                let upto = signals@.take(i + 1);
                assert(upto.drop_last() =~= signals@.take(i as int));
                assert(upto.last() == signals@[i as int]);
            }
            match next {
                Some(s) => {
                    state = s;
                },
                None => {
                    proof {
                        lemma_run_stays_broken(self, signals@, i + 1);
                    }
                    return None;
                },
            }
            i = i + 1;
        }
        proof {
            assert(signals@.take(i as int) =~= signals@);
        }
        Some(state)
    }
}

/// The drawable size that the render loop last drew with.
///
/// A resize is not acted on when it is announced. It shows at the next frame tick as a
/// drawable size that differs from the one last drawn with.
#[derive(Clone, Copy, Debug, PartialEq, Eq, Structural)]
pub struct DrawableSize {
    width: u32,
    height: u32,
}

impl DrawableSize {
    /// Starts from the size the window was created with.
    pub fn new(size: (u32, u32)) -> (tracker: Self)
        ensures
            tracker.last_known() == size,
    {
        DrawableSize { width: size.0, height: size.1 }
    }

    /// The size last drawn with.
    pub closed spec fn last_known(&self) -> (u32, u32) {
        (self.width, self.height)
    }

    /// Executable form of [`Self::last_known`].
    pub fn size(&self) -> (size: (u32, u32))
        ensures
            size == self.last_known(),
    {
        (self.width, self.height)
    }

    /// Compares the drawable's present size with the size last drawn with and adopts
    /// it. Returns the size that was replaced if the two differ, `None` if they agree.
    pub fn update(&mut self, current: (u32, u32)) -> (replaced: Option<(u32, u32)>)
        ensures
            final(self).last_known() == current,
            replaced == if current == old(self).last_known() {
                None
            } else {
                Some(old(self).last_known())
            },
    {
        if self.width == current.0 && self.height == current.1 {
            None
        } else {
            let previous = (self.width, self.height);
            self.width = current.0;
            self.height = current.1;
            Some(previous)
        }
    }
}

/// Once a prefix of `signals` has broken the contract, so has every longer prefix.
proof fn lemma_run_stays_broken(state: SwapchainState, signals: Seq<LifecycleSignal>, n: int)
    requires
        0 <= n <= signals.len(),
        run(state, signals.take(n)) is None,
    ensures
        run(state, signals) is None,
    decreases signals.len() - n,
{
    if n < signals.len() {
        let longer = signals.take(n + 1);
        assert(longer.drop_last() =~= signals.take(n));
        lemma_run_stays_broken(state, signals, n + 1);
    } else {
        assert(signals.take(n) =~= signals);
    }
}

/// A lifecycle that starts without a swapchain and sees signals of which no two
/// neighbours are the same never breaks the contract, and ends with a swapchain exactly
/// when the last signal was `Resumed`: it ends without one when the last signal was
/// `Suspended` or when there was no signal at all.
pub proof fn lemma_alternating_signals_rest(signals: Seq<LifecycleSignal>)
    requires
        alternating(signals),
    ensures
        run(SwapchainState::NoSwapchain, signals) == Some(resting_state(signals)),
        run(SwapchainState::NoSwapchain, signals) == Some(SwapchainState::HasSwapchain) <==> (
        signals.len() > 0 && signals.last() == LifecycleSignal::Resumed),
        run(SwapchainState::NoSwapchain, signals) == Some(SwapchainState::NoSwapchain) <==> (
        signals.len() == 0 || signals.last() == LifecycleSignal::Suspended),
    decreases signals.len(),
{
    if signals.len() > 0 {
        let earlier = signals.drop_last();
        assert forall|i: int, j: int|
            #![trigger earlier[i], earlier[j]]
            0 <= i && j == i + 1 && j < earlier.len() implies earlier[i] != earlier[j] by {
            assert(earlier[i] == signals[i]);
            assert(earlier[j] == signals[j]);
        }
        lemma_alternating_signals_rest(earlier);
        if earlier.len() > 0 {
            let k = earlier.len() - 1;
            assert(signals[k] != signals[k + 1]);
            assert(earlier.last() == signals[k]);
        }
    }
}

} // verus!
