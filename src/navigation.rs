use vstd::prelude::*;

use crate::screen::{Screen, LAST_INDEX};
use crate::sliding::{
    lemma_advanced_by_total, lemma_finished_value, lemma_lerp_zero, total_ms, AnimatedOffset, AnimatedOffsetView,
    SlideOffset, ENTER_DISTANCE, TRANSITION_MS,
};

verus! {

/// Which screen is showing, and the transition that brings it in.
pub struct Navigation {
    screen: Screen,
    slide_offset: AnimatedOffset,
}

/// What can happen to the navigation.
#[derive(Clone, Copy, Debug, PartialEq, Eq, Structural)]
pub enum Message {
    NextScreen,
    PrevScreen,
    /// An animation frame, with the milliseconds since the previous one.
    SlideOffset(u32),
}

/// What the host should do after an update.
#[derive(Clone, Copy, Debug, PartialEq, Eq, Structural)]
pub enum Action {
    Nothing,
    /// The screen changed: state that belongs to the old screen can be reset.
    SlideChanged,
}

/// The abstract state of a `Navigation`.
pub struct NavigationView {
    pub screen: Screen,
    pub offset: AnimatedOffsetView,
}

impl View for Navigation {
    type V = NavigationView;

    closed spec fn view(&self) -> NavigationView {
        NavigationView { screen: self.screen, offset: self.slide_offset@ }
    }
}

/// A transition that starts at `start` and heads for the resting offset.
pub open spec fn entering(start: SlideOffset) -> AnimatedOffsetView {
    AnimatedOffsetView { from: start, target: SlideOffset { left: 0, right: 0 }, elapsed_ms: 0 }
}

impl NavigationView {
    /// The transition heads for the resting offset, from a start that is
    /// displaced on one side at most.
    pub open spec fn wf(self) -> bool {
        &&& self.offset.wf()
        &&& self.offset.target.is_settled()
        &&& self.offset.from.left == 0 || self.offset.from.right == 0
    }

    /// Whether the slide is still moving in.
    pub open spec fn is_animating(self) -> bool {
        !self.offset.value().is_settled()
    }

    /// The state after one message.
    pub open spec fn next(self, msg: Message) -> NavigationView {
        match msg {
            Message::NextScreen => if self.screen.ordinal() < LAST_INDEX {
                NavigationView {
                    screen: self.screen.spec_forward(),
                    offset: entering(SlideOffset { left: ENTER_DISTANCE, right: 0 }),
                }
            } else {
                self
            },
            Message::PrevScreen => if self.screen.ordinal() > 0 {
                NavigationView {
                    screen: self.screen.spec_backward(),
                    offset: entering(SlideOffset { left: 0, right: ENTER_DISTANCE }),
                }
            } else {
                self
            },
            Message::SlideOffset(dt) => NavigationView { offset: self.offset.advanced(dt), ..self },
        }
    }

    /// What one message reports to the host.
    pub open spec fn action(self, msg: Message) -> Action {
        match msg {
            Message::NextScreen => if self.screen.ordinal() < LAST_INDEX {
                Action::SlideChanged
            } else {
                Action::Nothing
            },
            Message::PrevScreen => if self.screen.ordinal() > 0 {
                Action::SlideChanged
            } else {
                Action::Nothing
            },
            Message::SlideOffset(_) => Action::Nothing,
        }
    }

    /// The state after a run of messages, in order.
    pub open spec fn run(self, msgs: Seq<Message>) -> NavigationView
        decreases msgs.len(),
    {
        if msgs.len() == 0 {
            self
        } else {
            self.next(msgs[0]).run(msgs.drop_first())
        }
    }
}

/// Animation frames with the given durations.
pub open spec fn frames(dts: Seq<u32>) -> Seq<Message> {
    dts.map_values(|dt: u32| Message::SlideOffset(dt))
}

impl Navigation {
    /// Navigation at the first screen, at rest.
    pub fn new() -> (r: Navigation)
        ensures
            r@.wf(),
            r@.screen.ordinal() == 0,
            !r@.is_animating(),
    {
        Navigation { screen: Screen::first(), slide_offset: AnimatedOffset::new(SlideOffset::settled()) }
    }

    /// Applies one message. Moving past either end does nothing; a move that
    /// changes the screen restarts the transition from the side it came from.
    pub fn update(&mut self, message: Message) -> (r: Action)
        requires
            old(self)@.wf(),
        ensures
            final(self)@ == old(self)@.next(message),
            final(self)@.wf(),
            r == old(self)@.action(message),
            message == Message::NextScreen ==> final(self)@.screen.ordinal() == if old(self)@.screen.ordinal() < LAST_INDEX {
                old(self)@.screen.ordinal() + 1int
            } else {
                old(self)@.screen.ordinal() as int
            },
            message == Message::PrevScreen ==> final(self)@.screen.ordinal() == if old(self)@.screen.ordinal() > 0 {
                old(self)@.screen.ordinal() - 1int
            } else {
                old(self)@.screen.ordinal() as int
            },
            r == Action::SlideChanged ==> final(self)@.is_animating(),
    {
        match message {
            Message::NextScreen => {
                if !self.screen.is_last() {
                    self.screen.forward();
                    self.slide_offset = AnimatedOffset::new(SlideOffset::entering_forward());
                    self.slide_offset.set_target(SlideOffset::settled());
                    proof {
                        assert(self.slide_offset@ =~= entering(
                            SlideOffset { left: ENTER_DISTANCE, right: 0 },
                        ));
                    }
                    Action::SlideChanged
                } else {
                    Action::Nothing
                }
            },
            Message::PrevScreen => {
                if !self.screen.is_first() {
                    self.screen.backward();
                    self.slide_offset = AnimatedOffset::new(SlideOffset::entering_backward());
                    self.slide_offset.set_target(SlideOffset::settled());
                    proof {
                        assert(self.slide_offset@ =~= entering(
                            SlideOffset { left: 0, right: ENTER_DISTANCE },
                        ));
                    }
                    Action::SlideChanged
                } else {
                    Action::Nothing
                }
            },
            Message::SlideOffset(dt) => {
                self.slide_offset.update(dt);
                Action::Nothing
            },
        }
    }

    /// The screen that is showing.
    pub fn screen(&self) -> (r: Screen)
        ensures
            r == self@.screen,
    {
        self.screen
    }

    /// The transition of the slide.
    pub fn slide_offset(&self) -> (r: &AnimatedOffset)
        ensures
            r@ == self@.offset,
    {
        &self.slide_offset
    }

    /// Whether the slide is still moving in, so that frames are still needed.
    pub fn is_animating(&self) -> (r: bool)
        requires
            self@.wf(),
        ensures
            r == self@.is_animating(),
    {
        self.slide_offset.value() != SlideOffset::settled()
    }
}

/// Whatever messages arrive, the screen stays between the first and the last,
/// and the state stays well formed.
pub proof fn lemma_screen_stays_in_range(n: NavigationView, msgs: Seq<Message>)
    requires
        n.wf(),
    ensures
        n.run(msgs).wf(),
        0 <= n.run(msgs).screen.ordinal() <= LAST_INDEX,
    decreases msgs.len(),
{
    Screen::lemma_at_ordinal(n.screen);
    if msgs.len() > 0 {
        let m = n.next(msgs[0]);
        Screen::lemma_at_ordinal(m.screen);
        lemma_screen_stays_in_range(m, msgs.drop_first());
    }
    Screen::lemma_at_ordinal(n.run(msgs).screen);
}

/// While the slide moves in, exactly one side is displaced.
pub proof fn lemma_one_side_in_flight(n: NavigationView)
    requires
        n.wf(),
    ensures
        n.is_animating() ==> (n.offset.value().left == 0) != (n.offset.value().right == 0),
{
    lemma_lerp_zero(n.offset.elapsed_ms);
}

/// Frames only move the transition on.
proof fn lemma_run_frames(n: NavigationView, dts: Seq<u32>)
    ensures
        n.run(frames(dts)) == (NavigationView { offset: n.offset.advanced_by(dts), ..n }),
    decreases dts.len(),
{
    if dts.len() > 0 {
        assert(frames(dts)[0] == Message::SlideOffset(dts[0]));
        assert(frames(dts).drop_first() =~= frames(dts.drop_first()));
        lemma_run_frames(n.next(frames(dts)[0]), dts.drop_first());
    }
}

/// A move that changes the screen starts the slide moving at once, and frames
/// that report the length of the transition in all bring it to rest.
pub proof fn lemma_transition_settles(n: NavigationView, msg: Message, dts: Seq<u32>)
    requires
        n.wf(),
        n.action(msg) == Action::SlideChanged,
        total_ms(dts) >= TRANSITION_MS,
    ensures
        n.next(msg).is_animating(),
        !n.next(msg).run(frames(dts)).is_animating(),
{
    let m = n.next(msg);
    lemma_run_frames(m, dts);
    lemma_advanced_by_total(m.offset, dts);
    lemma_finished_value(m.offset.advanced_by(dts));
}

} // verus!
