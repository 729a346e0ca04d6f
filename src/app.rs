use vstd::prelude::*;

use crate::action::{is_orchestration, Action};
use crate::base::{dispatched, sat_add, BaseState};

verus! {

/// Where the application loop sends one received action.
#[derive(Clone, Debug, PartialEq, Eq)]
pub enum Route {
    /// Command the render driver to draw.
    Render,
    /// Dispatch to the UI state tree, re-enqueueing any follow-up.
    Dispatch(Action),
    /// Handled by the loop itself (a flag was set or cleared).
    Handled,
}

/// What the application loop does after routing one action.
#[derive(Clone, Copy, Debug, PartialEq, Eq, Structural)]
pub enum Phase {
    /// Receive the next action.
    Continue,
    /// Suspend the render driver, cancel the multiplexer, await both, build
    /// fresh ones on the same UI state tree, then enqueue the resume actions.
    Suspend,
    /// Stop the render driver, cancel the multiplexer, await both, and end.
    Quit,
}

/// The application loop's own state.
pub struct AppState {
    pub tick_rate: (u64, u64),
    pub should_quit: bool,
    pub should_suspend: bool,
}

/// The loop's state after receiving `a`.
pub open spec fn routed_state(s: AppState, a: Action) -> AppState {
    match a {
        Action::Quit => AppState { should_quit: true, ..s },
        Action::Suspend => AppState { should_suspend: true, ..s },
        Action::Resume => AppState { should_suspend: false, ..s },
        _ => s,
    }
}

/// Where the loop sends `a`.
pub open spec fn route_of(a: Action) -> Route {
    match a {
        Action::RenderTick => Route::Render,
        Action::Quit | Action::Suspend | Action::Resume => Route::Handled,
        _ => Route::Dispatch(a),
    }
}

/// What the loop does once its flags are as in `s`.
pub open spec fn phase_of(s: AppState) -> Phase {
    if s.should_suspend {
        Phase::Suspend
    } else if s.should_quit {
        Phase::Quit
    } else {
        Phase::Continue
    }
}

/// The loop's state after receiving `actions` in order, and the actions that
/// reached dispatch, in order.
pub open spec fn route_all(s: AppState, actions: Seq<Action>) -> (AppState, Seq<Action>)
    decreases actions.len(),
{
    if actions.len() == 0 {
        (s, Seq::empty())
    } else {
        let (t, d) = route_all(s, actions.drop_last());
        let a = actions.last();
        (
            routed_state(t, a),
            match route_of(a) {
                Route::Dispatch(x) => d.push(x),
                _ => d,
            },
        )
    }
}

/// The UI state after dispatching `actions` in order.
pub open spec fn dispatch_all(b: BaseState, actions: Seq<Action>) -> BaseState
    decreases actions.len(),
{
    if actions.len() == 0 {
        b
    } else {
        dispatched(dispatch_all(b, actions.drop_last()), actions.last())
    }
}

/// The actions enqueued once fresh tasks have been built after a suspend.
pub open spec fn resume_seq() -> Seq<Action> {
    seq![Action::Resume, Action::RenderTick]
}

/// The application loop: routes actions, and tracks whether to quit or to
/// suspend. The tasks that it drives are run by the host.
pub struct App {
    tick_rate: (u64, u64),
    should_quit: bool,
    should_suspend: bool,
}

impl View for App {
    type V = AppState;

    closed spec fn view(&self) -> AppState {
        AppState {
            tick_rate: self.tick_rate,
            should_quit: self.should_quit,
            should_suspend: self.should_suspend,
        }
    }
}

impl App {
    /// A loop with the given (logic-tick, render-tick) periods, in the
    /// running state.
    pub fn new(tick_rate: (u64, u64)) -> (r: App)
        ensures
            r@ == (AppState { tick_rate, should_quit: false, should_suspend: false }),
    {
        App { tick_rate, should_quit: false, should_suspend: false }
    }

    pub fn tick_rate(&self) -> (r: (u64, u64))
        ensures
            r == self@.tick_rate,
    {
        self.tick_rate
    }

    /// Receives one action: `RenderTick` goes to the render driver, `Quit`,
    /// `Suspend` and `Resume` set or clear the loop's flags, and any other
    /// action goes to dispatch.
    pub fn route(&mut self, action: Action) -> (r: Route)
        ensures
            final(self)@ == routed_state(old(self)@, action),
            r == route_of(action),
    {
        match action {
            Action::RenderTick => Route::Render,
            Action::Quit => {
                self.should_quit = true;
                Route::Handled
            },
            Action::Suspend => {
                self.should_suspend = true;
                Route::Handled
            },
            Action::Resume => {
                self.should_suspend = false;
                Route::Handled
            },
            _ => Route::Dispatch(action),
        }
    }

    /// What to do after routing an action: suspending takes precedence over
    /// quitting.
    pub fn phase(&self) -> (r: Phase)
        ensures
            r == phase_of(self@),
    {
        if self.should_suspend {
            Phase::Suspend
        } else if self.should_quit {
            Phase::Quit
        } else {
            Phase::Continue
        }
    }

    /// The actions to enqueue once fresh tasks have been built after a
    /// suspend, so that the screen is redrawn at once.
    pub fn resume_actions() -> (r: Vec<Action>)
        ensures
            r@ == resume_seq(),
    {
        let v = vec![Action::Resume, Action::RenderTick];
        proof {
            assert(v@ =~= resume_seq());
        }
        v
    }
}

/// `Quit`, `Suspend`, `Resume` and `RenderTick` never reach dispatch; every
/// other action reaches it unchanged.
pub proof fn lemma_orchestration_intercepted(a: Action)
    ensures
        is_orchestration(a) ==> !(route_of(a) is Dispatch),
        !is_orchestration(a) ==> route_of(a) == Route::Dispatch(a),
{
}

/// Actions other than `Quit`, `Suspend`, `Resume` and `RenderTick` leave the
/// loop's flags as they were, and each reaches dispatch exactly once, in the
/// order received.
pub proof fn lemma_plain_actions_forwarded(s: AppState, actions: Seq<Action>)
    requires
        forall|i: int| 0 <= i < actions.len() ==> !is_orchestration(#[trigger] actions[i]),
    ensures
        route_all(s, actions) == (s, actions),
    decreases actions.len(),
{
    if actions.len() > 0 {
        let init = actions.drop_last();
        assert forall|i: int| 0 <= i < init.len() implies !is_orchestration(#[trigger] init[i]) by {
            assert(init[i] == actions[i]);
        }
        lemma_plain_actions_forwarded(s, init);
        assert(!is_orchestration(actions[actions.len() - 1]));
        assert(init.push(actions.last()) =~= actions);
    }
}

/// A suspend followed by the resume actions leaves the UI state as it was:
/// none of them reaches dispatch. The suspend flag is set by `Suspend`, so
/// the loop rebuilds its tasks, and cleared again by the resume actions.
pub proof fn lemma_suspend_resume_keeps_state(s: AppState, b: BaseState)
    ensures
        phase_of(routed_state(s, Action::Suspend)) == Phase::Suspend,
        ({
            let (t, d) = route_all(s, seq![Action::Suspend].add(resume_seq()));
            &&& d == Seq::<Action>::empty()
            &&& dispatch_all(b, d) == b
            &&& !t.should_suspend
            &&& t.should_quit == s.should_quit
            &&& t.tick_rate == s.tick_rate
        }),
{
    let all = seq![Action::Suspend].add(resume_seq());
    let s1 = routed_state(s, Action::Suspend);
    let s2 = routed_state(s1, Action::Resume);
    assert(all.drop_last() =~= seq![Action::Suspend, Action::Resume]);
    assert(all.drop_last().drop_last() =~= seq![Action::Suspend]);
    assert(all.drop_last().drop_last().drop_last() =~= Seq::<Action>::empty());
    assert(route_all(s, Seq::<Action>::empty()) == (s, Seq::<Action>::empty()));
    assert(all.drop_last().drop_last().last() == Action::Suspend);
    assert(all.drop_last().last() == Action::Resume);
    assert(all.last() == Action::RenderTick);
    assert(route_all(s, all.drop_last().drop_last()) == (s1, Seq::<Action>::empty()));
    assert(route_all(s, all.drop_last()) == (s2, Seq::<Action>::empty()));
    assert(route_all(s, all) == (s2, Seq::<Action>::empty()));
}

/// `n` ticks in a row.
pub open spec fn ticks(n: nat) -> Seq<Action> {
    Seq::new(n, |i: int| Action::Tick)
}

/// Dispatching `Tick` `n` times raises the tick counter by exactly `n`,
/// saturating at the largest `usize`, and changes nothing else.
pub proof fn lemma_ticks_saturate(b: BaseState, n: nat)
    ensures
        dispatch_all(b, ticks(n)).ticker == if b.ticker + n > usize::MAX {
            usize::MAX as int
        } else {
            b.ticker + n
        },
        dispatch_all(b, ticks(n)) == (BaseState { ticker: dispatch_all(b, ticks(n)).ticker, ..b }),
    decreases n,
{
    if n > 0 {
        assert(ticks(n).drop_last() =~= ticks((n - 1) as nat));
        lemma_ticks_saturate(b, (n - 1) as nat);
        let prev = dispatch_all(b, ticks((n - 1) as nat));
        assert(ticks(n).last() == Action::Tick);
        assert(dispatch_all(b, ticks(n)) == dispatched(prev, Action::Tick));
        assert(dispatched(prev, Action::Tick).ticker == sat_add(prev.ticker, 1));
    }
}

} // verus!
