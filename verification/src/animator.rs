//! The time-windowed easing state machine.
//!
//! An `Animator` maps normalized global time `t` to local progress through
//! its window `[start, end)`: before the window nothing happens, inside it
//! the progress `(t - start) / (end - start)` is produced, and past the end
//! one of four finishing disciplines applies.  The caller feeds the
//! produced progress to its easing function and drawing callback; the
//! state machine itself is exact and pure.

use vstd::prelude::*;

use crate::rat::Rat;
use crate::rat::add_fits;
use crate::rat::add_rat;
use crate::rat::div_fits;
use crate::rat::div_rat;
use crate::rat::is_diff;
use crate::rat::is_quot;
use crate::rat::is_sum;
use crate::rat::lemma_add_rat_is_sum;
use crate::rat::lemma_div_rat_is_quot;
use crate::rat::lemma_lt_add_pos;
use crate::rat::lemma_sub_add_inverse;
use crate::rat::lemma_sub_pos;
use crate::rat::lemma_sub_rat_is_diff;
use crate::rat::rat_le;
use crate::rat::rat_lt;
use crate::rat::rat_one;
use crate::rat::rat_zero;
use crate::rat::sub_fits;
use crate::rat::sub_rat;

verus! {

/// What an animation does once global time passes the end of its window.
#[derive(Debug, Clone, Copy, PartialEq, Eq, Structural)]
pub enum FinishAction {
    /// Slide the window forward and play again from local progress zero.
    StartOver,
    /// Ping-pong: play backward to zero, then slide the window and resume.
    Rewind,
    /// Produce nothing forever after (terminal).
    Stop,
    /// Keep producing local progress one (holds the end pose).
    RepeatEnd,
}

/// A windowed animation over normalized time.
///
/// `start` and `end` move only under the `StartOver` and `Rewind`
/// disciplines, which slide the window forward; `interval_length` is fixed
/// at construction and always equals `end - start`.
pub struct Animator {
    pub finish_action: FinishAction,
    pub start: Rat,
    pub end: Rat,
    pub interval_length: Rat,
}

impl Animator {
    /// Well-formed: the window is non-empty and `interval_length` is
    /// exactly `end - start` (hence strictly positive).
    pub open spec fn wf(self) -> bool {
        &&& self.start.wf()
        &&& self.end.wf()
        &&& self.interval_length.wf()
        &&& rat_lt(self.start, self.end)
        &&& self.interval_length.num >= 1
        &&& is_sum(self.start, self.interval_length, self.end)
    }

    /// Creates an animation over the window `[start, end)` with the given
    /// finishing discipline.  The window must be non-empty.
    pub fn new(start: Rat, end: Rat, finish_action: FinishAction) -> (r: Animator)
        requires
            start.wf(),
            end.wf(),
            rat_lt(start, end),
            sub_fits(end, start),
        ensures
            r.wf(),
            r.start == start,
            r.end == end,
            r.finish_action == finish_action,
            r.interval_length == sub_rat(end, start),
            is_diff(end, start, r.interval_length),
    {
        let length = end.checked_sub(start).unwrap();
        proof {
            lemma_sub_rat_is_diff(end, start);
            lemma_sub_pos(end, start);
            lemma_sub_add_inverse(end, start);
        }
        Animator { finish_action, start, end, interval_length: length }
    }

    /// The intermediate arithmetic of one `draw` step at time `t` fits in
    /// 64-bit fields.  (`can_draw` decides this at run time.)
    pub open spec fn draw_fits(self, t: Rat) -> bool {
        if rat_lt(t, self.start) {
            true
        } else if rat_lt(t, self.end) {
            sub_fits(t, self.start) && div_fits(sub_rat(t, self.start), self.interval_length)
        } else {
            match self.finish_action {
                FinishAction::StartOver => add_fits(t, self.interval_length),
                FinishAction::Rewind => ({
                    let over = sub_rat(t, self.end);
                    sub_fits(t, self.end) && if rat_lt(over, self.interval_length) {
                        sub_fits(self.interval_length, over) && div_fits(
                            sub_rat(self.interval_length, over),
                            self.interval_length,
                        )
                    } else {
                        add_fits(t, self.interval_length)
                    }
                }),
                FinishAction::Stop => true,
                FinishAction::RepeatEnd => true,
            }
        }
    }

    /// Decides at run time whether `draw` may be called at time `t`.
    pub fn can_draw(&self, t: Rat) -> (r: bool)
        requires
            self.wf(),
            t.wf(),
        ensures
            r == self.draw_fits(t),
    {
        if t.lt(self.start) {
            return true;
        }
        if t.lt(self.end) {
            let diff = t.checked_sub(self.start);
            return match diff {
                Some(d) => d.checked_div(self.interval_length).is_some(),
                None => false,
            };
        }
        match self.finish_action {
            FinishAction::StartOver => t.checked_add(self.interval_length).is_some(),
            FinishAction::Rewind => {
                match t.checked_sub(self.end) {
                    Some(over) => {
                        if over.lt(self.interval_length) {
                            match self.interval_length.checked_sub(over) {
                                Some(back) => back.checked_div(self.interval_length).is_some(),
                                None => false,
                            }
                        } else {
                            t.checked_add(self.interval_length).is_some()
                        }
                    },
                    None => false,
                }
            },
            FinishAction::Stop => true,
            FinishAction::RepeatEnd => true,
        }
    }

    /// One tick of the state machine at global time `t`.
    ///
    /// Returns the local progress to hand to the easing function and the
    /// drawing callback, or nothing when the callback must not fire:
    /// - before the window (`t < start`): nothing;
    /// - inside the window: `(t - start) / interval_length`;
    /// - past the end, by finishing discipline:
    ///   `Stop` produces nothing forever; `RepeatEnd` holds progress one;
    ///   `StartOver` slides the window to `[t, t + interval_length)` and
    ///   produces zero; `Rewind` plays backward while within one window
    ///   length past the end, then slides the window like `StartOver`.
    pub fn draw(&mut self, t: Rat) -> (r: Option<Rat>)
        requires
            old(self).wf(),
            t.wf(),
            old(self).draw_fits(t),
        ensures
            final(self).wf(),
            final(self).finish_action == old(self).finish_action,
            final(self).interval_length == old(self).interval_length,
            rat_lt(t, old(self).start) ==> r.is_none() && *final(self) == *old(self),
            !rat_lt(t, old(self).start) && rat_lt(t, old(self).end) ==> *final(self) == *old(
                self,
            ) && r == Some(div_rat(sub_rat(t, old(self).start), old(self).interval_length))
                && is_quot(
                sub_rat(t, old(self).start),
                old(self).interval_length,
                r.unwrap(),
            ),
            !rat_lt(t, old(self).start) && !rat_lt(t, old(self).end) ==> match old(
                self,
            ).finish_action {
                FinishAction::Stop => r.is_none() && *final(self) == *old(self),
                FinishAction::RepeatEnd => r == Some(rat_one()) && *final(self) == *old(self),
                FinishAction::StartOver => r == Some(rat_zero()) && final(self).start == t
                    && final(self).end == add_rat(t, old(self).interval_length),
                FinishAction::Rewind => ({
                    let over = sub_rat(t, old(self).end);
                    if rat_lt(over, old(self).interval_length) {
                        *final(self) == *old(self) && r == Some(
                            div_rat(
                                sub_rat(old(self).interval_length, over),
                                old(self).interval_length,
                            ),
                        ) && is_quot(
                            sub_rat(old(self).interval_length, over),
                            old(self).interval_length,
                            r.unwrap(),
                        )
                    } else {
                        r == Some(rat_zero()) && final(self).start == t && final(self).end
                            == add_rat(t, old(self).interval_length)
                    }
                }),
            },
    {
        if t.lt(self.start) {
            return None;
        }
        if t.lt(self.end) {
            let diff = t.checked_sub(self.start).unwrap();
            let local = diff.checked_div(self.interval_length).unwrap();
            proof {
                lemma_div_rat_is_quot(diff, self.interval_length);
            }
            return Some(local);
        }
        match self.finish_action {
            FinishAction::Stop => None,
            FinishAction::RepeatEnd => Some(Rat::one()),
            FinishAction::StartOver => {
                let new_end = t.checked_add(self.interval_length).unwrap();
                proof {
                    lemma_add_rat_is_sum(t, self.interval_length);
                    lemma_lt_add_pos(t, self.interval_length);
                }
                self.start = t;
                self.end = new_end;
                Some(Rat::zero())
            },
            FinishAction::Rewind => {
                let over = t.checked_sub(self.end).unwrap();
                if over.lt(self.interval_length) {
                    let back = self.interval_length.checked_sub(over).unwrap();
                    let local = back.checked_div(self.interval_length).unwrap();
                    proof {
                        lemma_div_rat_is_quot(back, self.interval_length);
                    }
                    Some(local)
                } else {
                    let new_end = t.checked_add(self.interval_length).unwrap();
                    proof {
                        lemma_add_rat_is_sum(t, self.interval_length);
                        lemma_lt_add_pos(t, self.interval_length);
                    }
                    self.start = t;
                    self.end = new_end;
                    Some(Rat::zero())
                }
            },
        }
    }

    /// Whether the animation is over at global time `t`: only the terminal
    /// disciplines (`Stop`, `RepeatEnd`) ever finish, once `t` reaches the
    /// end of the window.
    pub open spec fn finished(self, t: Rat) -> bool {
        (self.finish_action is Stop || self.finish_action is RepeatEnd) && rat_le(self.end, t)
    }

    pub fn is_finished(&self, t: Rat) -> (r: bool)
        ensures
            r == self.finished(t),
    {
        (matches!(self.finish_action, FinishAction::Stop | FinishAction::RepeatEnd))
            && self.end.le(t)
    }
}

} // verus!
