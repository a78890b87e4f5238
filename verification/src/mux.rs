//! The event-multiplexing loop, as a state machine.
//!
//! The main loop waits on two sources at once — bus messages and relayed key
//! events — and hands each ready event to [`step`], which decides the next
//! state and the one action to carry out. The loop starts in `Running`; the
//! closure of the relay channel (the reader saw a quit signal) moves it to
//! `Stopping` with one trailing stop command to publish; once that publish is
//! done and the terminal is restored, `ShutdownComplete` moves it to
//! `Stopped`. Nothing else leaves `Running`: a bus message that does not
//! decode costs one warning and nothing more.

use crate::keys::is_command_key;
use crate::keys::KeyEvent;
use crate::rosout::spec_decode_log;
use crate::rosout::spec_render_log;
use crate::rosout::decode_log;
use crate::rosout::render_log;
use crate::twist::encode_twist;
use crate::twist::spec_encode_twist;
use crate::twist::spec_stop_twist;
use crate::twist::spec_twist_for;
use crate::twist::twist_for;
use crate::twist::TwistBits;
use vstd::prelude::*;

verus! {

/// The loop's state.
#[derive(Clone, Copy, PartialEq, Eq, Structural, Debug)]
pub enum MuxState {
    /// Both sources are live.
    Running,
    /// The relay channel closed; the trailing stop command is on its way.
    Stopping,
    /// The trailing publish is done and the terminal is restored.
    Stopped,
}

/// One event the loop wakes up on.
#[derive(PartialEq, Eq, Debug)]
pub enum MuxEvent {
    /// A payload arrived from the bus.
    Bus(Vec<u8>),
    /// A key event arrived over the relay channel.
    Key(KeyEvent),
    /// The relay channel closed: the reader shut down.
    ChannelClosed,
    /// The trailing stop publish finished and the terminal is restored.
    ShutdownComplete,
}

/// Mathematical image of an event.
pub ghost enum MuxEventView {
    Bus(Seq<u8>),
    Key(KeyEvent),
    ChannelClosed,
    ShutdownComplete,
}

impl View for MuxEvent {
    type V = MuxEventView;

    open spec fn view(&self) -> MuxEventView {
        match self {
            MuxEvent::Bus(p) => MuxEventView::Bus(p@),
            MuxEvent::Key(k) => MuxEventView::Key(*k),
            MuxEvent::ChannelClosed => MuxEventView::ChannelClosed,
            MuxEvent::ShutdownComplete => MuxEventView::ShutdownComplete,
        }
    }
}

/// The one action the loop carries out after a step.
#[derive(PartialEq, Eq, Debug)]
pub enum MuxAction {
    /// Publish these bytes on the command key.
    Publish(Vec<u8>),
    /// Publish these bytes as the trailing stop command, then finish the
    /// shutdown.
    PublishStop(Vec<u8>),
    /// Show this line on the terminal.
    Render(Vec<u8>),
    /// Log one warning: a bus payload did not decode.
    WarnDecode,
    /// Nothing to do.
    Idle,
}

/// Mathematical image of an action.
pub ghost enum MuxActionView {
    Publish(Seq<u8>),
    PublishStop(Seq<u8>),
    Render(Seq<u8>),
    WarnDecode,
    Idle,
}

impl View for MuxAction {
    type V = MuxActionView;

    open spec fn view(&self) -> MuxActionView {
        match self {
            MuxAction::Publish(p) => MuxActionView::Publish(p@),
            MuxAction::PublishStop(p) => MuxActionView::PublishStop(p@),
            MuxAction::Render(l) => MuxActionView::Render(l@),
            MuxAction::WarnDecode => MuxActionView::WarnDecode,
            MuxAction::Idle => MuxActionView::Idle,
        }
    }
}

/// The wire image of the trailing stop command.
pub open spec fn spec_stop_bytes() -> Seq<u8> {
    spec_encode_twist(spec_stop_twist())
}

/// The transition table. In `Running`, a bus payload renders or warns, a
/// command key publishes its command, and channel closure publishes the
/// trailing stop and moves to `Stopping`. In `Stopping`, only
/// `ShutdownComplete` moves on, to `Stopped`. `Stopped` is final. No other
/// event changes anything.
pub open spec fn spec_step(s: MuxState, e: MuxEventView, linear_scale: u64, angular_scale: u64) -> (
    MuxState,
    MuxActionView,
) {
    match s {
        MuxState::Running => match e {
            MuxEventView::Bus(p) => match spec_decode_log(p) {
                Some(rec) => (MuxState::Running, MuxActionView::Render(spec_render_log(rec))),
                None => (MuxState::Running, MuxActionView::WarnDecode),
            },
            MuxEventView::Key(k) => if is_command_key(k) {
                (
                    MuxState::Running,
                    MuxActionView::Publish(
                        spec_encode_twist(spec_twist_for(k, linear_scale, angular_scale)),
                    ),
                )
            } else {
                (MuxState::Running, MuxActionView::Idle)
            },
            MuxEventView::ChannelClosed => (
                MuxState::Stopping,
                MuxActionView::PublishStop(spec_stop_bytes()),
            ),
            MuxEventView::ShutdownComplete => (MuxState::Running, MuxActionView::Idle),
        },
        MuxState::Stopping => match e {
            MuxEventView::ShutdownComplete => (MuxState::Stopped, MuxActionView::Idle),
            _ => (MuxState::Stopping, MuxActionView::Idle),
        },
        MuxState::Stopped => (MuxState::Stopped, MuxActionView::Idle),
    }
}

/// Takes one step of the loop: the next state and the action to carry out.
pub fn step(s: MuxState, e: MuxEvent, linear_scale_bits: u64, angular_scale_bits: u64) -> (r: (
    MuxState,
    MuxAction,
))
    ensures
        r.0 == spec_step(s, e@, linear_scale_bits, angular_scale_bits).0,
        r.1@ == spec_step(s, e@, linear_scale_bits, angular_scale_bits).1,
{
    match s {
        MuxState::Running => match e {
            MuxEvent::Bus(p) => match decode_log(p.as_slice()) {
                Some(rec) => (MuxState::Running, MuxAction::Render(render_log(&rec))),
                None => (MuxState::Running, MuxAction::WarnDecode),
            },
            MuxEvent::Key(k) => match k {
                KeyEvent::Quit | KeyEvent::Other => (MuxState::Running, MuxAction::Idle),
                _ => {
                    let t = twist_for(k, linear_scale_bits, angular_scale_bits);
                    (MuxState::Running, MuxAction::Publish(encode_twist(t)))
                },
            },
            MuxEvent::ChannelClosed => {
                let stop = encode_twist(TwistBits { linear_x: 0, angular_z: 0 });
                (MuxState::Stopping, MuxAction::PublishStop(stop))
            },
            MuxEvent::ShutdownComplete => (MuxState::Running, MuxAction::Idle),
        },
        MuxState::Stopping => match e {
            MuxEvent::ShutdownComplete => (MuxState::Stopped, MuxAction::Idle),
            _ => (MuxState::Stopping, MuxAction::Idle),
        },
        MuxState::Stopped => (MuxState::Stopped, MuxAction::Idle),
    }
}

/// States after feeding `evs` to the machine one by one, starting at `s`.
pub open spec fn spec_state_after(
    s: MuxState,
    evs: Seq<MuxEventView>,
    linear_scale: u64,
    angular_scale: u64,
) -> MuxState
    decreases evs.len(),
{
    if evs.len() == 0 {
        s
    } else {
        spec_state_after(
            spec_step(s, evs[0], linear_scale, angular_scale).0,
            evs.drop_first(),
            linear_scale,
            angular_scale,
        )
    }
}

/// Actions emitted while feeding `evs` to the machine, starting at `s`.
pub open spec fn spec_actions(
    s: MuxState,
    evs: Seq<MuxEventView>,
    linear_scale: u64,
    angular_scale: u64,
) -> Seq<MuxActionView>
    decreases evs.len(),
{
    if evs.len() == 0 {
        Seq::empty()
    } else {
        seq![spec_step(s, evs[0], linear_scale, angular_scale).1] + spec_actions(
            spec_step(s, evs[0], linear_scale, angular_scale).0,
            evs.drop_first(),
            linear_scale,
            angular_scale,
        )
    }
}

/// How many of the actions publish the trailing stop command.
pub open spec fn spec_count_stops(acts: Seq<MuxActionView>) -> nat
    decreases acts.len(),
{
    if acts.len() == 0 {
        0
    } else {
        spec_count_stops(acts.drop_first()) + (match acts[0] {
            MuxActionView::PublishStop(_) => 1nat,
            _ => 0nat,
        })
    }
}

/// One action comes out per event fed in.
pub proof fn lemma_actions_len(
    s: MuxState,
    evs: Seq<MuxEventView>,
    linear_scale: u64,
    angular_scale: u64,
)
    ensures
        spec_actions(s, evs, linear_scale, angular_scale).len() == evs.len(),
    decreases evs.len(),
{
    if evs.len() > 0 {
        lemma_actions_len(
            spec_step(s, evs[0], linear_scale, angular_scale).0,
            evs.drop_first(),
            linear_scale,
            angular_scale,
        );
    }
}

/// A payload that does not decode never ends the loop: the step stays in
/// `Running` and does exactly one thing, warn — no render, no publish.
pub proof fn lemma_bad_payload_is_harmless(
    p: Seq<u8>,
    linear_scale: u64,
    angular_scale: u64,
)
    requires
        spec_decode_log(p) is None,
    ensures
        spec_step(MuxState::Running, MuxEventView::Bus(p), linear_scale, angular_scale) == (
            MuxState::Running,
            MuxActionView::WarnDecode,
        ),
{
}

/// While the relay channel stays open, the loop stays in `Running`: no bus
/// payload and no key event can end it.
pub proof fn lemma_loop_runs_until_closure(
    evs: Seq<MuxEventView>,
    linear_scale: u64,
    angular_scale: u64,
)
    requires
        forall|i: int| 0 <= i < evs.len() ==> evs[i] != MuxEventView::ChannelClosed,
    ensures
        spec_state_after(MuxState::Running, evs, linear_scale, angular_scale) == MuxState::Running,
    decreases evs.len(),
{
    if evs.len() > 0 {
        assert(evs[0] != MuxEventView::ChannelClosed);
        assert(spec_step(MuxState::Running, evs[0], linear_scale, angular_scale).0
            == MuxState::Running);
        assert(forall|i: int|
            0 <= i < evs.drop_first().len() ==> evs.drop_first()[i] != MuxEventView::ChannelClosed);
        lemma_loop_runs_until_closure(evs.drop_first(), linear_scale, angular_scale);
    }
}

/// Once out of `Running`, the machine never returns to it and never
/// publishes again.
pub proof fn lemma_no_publish_after_shutdown(
    s: MuxState,
    evs: Seq<MuxEventView>,
    linear_scale: u64,
    angular_scale: u64,
)
    requires
        s != MuxState::Running,
    ensures
        spec_state_after(s, evs, linear_scale, angular_scale) != MuxState::Running,
        spec_count_stops(spec_actions(s, evs, linear_scale, angular_scale)) == 0,
        forall|i: int|
            0 <= i < evs.len() ==> spec_actions(s, evs, linear_scale, angular_scale)[i]
                == MuxActionView::Idle,
    decreases evs.len(),
{
    if evs.len() > 0 {
        let s1 = spec_step(s, evs[0], linear_scale, angular_scale).0;
        assert(s1 != MuxState::Running);
        assert(spec_step(s, evs[0], linear_scale, angular_scale).1 == MuxActionView::Idle);
        lemma_no_publish_after_shutdown(s1, evs.drop_first(), linear_scale, angular_scale);
        assert(spec_actions(s, evs, linear_scale, angular_scale).drop_first() =~= spec_actions(
            s1,
            evs.drop_first(),
            linear_scale,
            angular_scale,
        ));
        lemma_actions_len(s, evs, linear_scale, angular_scale);
        lemma_actions_len(s1, evs.drop_first(), linear_scale, angular_scale);
        assert forall|i: int| 0 <= i < evs.len() implies spec_actions(
            s,
            evs,
            linear_scale,
            angular_scale,
        )[i] == MuxActionView::Idle by {
            if i > 0 {
                assert(spec_actions(s, evs, linear_scale, angular_scale)[i] == spec_actions(
                    s1,
                    evs.drop_first(),
                    linear_scale,
                    angular_scale,
                )[i - 1]);
            }
        }
    }
}

/// A run from `Running` publishes the trailing stop command exactly once if
/// the relay channel ever closes, and never otherwise.
pub proof fn lemma_one_trailing_stop(
    evs: Seq<MuxEventView>,
    linear_scale: u64,
    angular_scale: u64,
)
    ensures
        spec_count_stops(spec_actions(MuxState::Running, evs, linear_scale, angular_scale)) == (
        if evs.contains(MuxEventView::ChannelClosed) {
            1nat
        } else {
            0nat
        }),
    decreases evs.len(),
{
    if evs.len() == 0 {
        assert(!evs.contains(MuxEventView::ChannelClosed));
    } else {
        let e0 = evs[0];
        let rest = evs.drop_first();
        let s1 = spec_step(MuxState::Running, e0, linear_scale, angular_scale).0;
        let a0 = spec_step(MuxState::Running, e0, linear_scale, angular_scale).1;
        assert(evs.contains(MuxEventView::ChannelClosed) <==> (e0 == MuxEventView::ChannelClosed
            || rest.contains(MuxEventView::ChannelClosed))) by {
            if evs.contains(MuxEventView::ChannelClosed) {
                let i = choose|i: int|
                    0 <= i < evs.len() && evs[i] == MuxEventView::ChannelClosed;
                if i > 0 {
                    assert(rest[i - 1] == MuxEventView::ChannelClosed);
                }
            }
            if rest.contains(MuxEventView::ChannelClosed) {
                let i = choose|i: int|
                    0 <= i < rest.len() && rest[i] == MuxEventView::ChannelClosed;
                assert(evs[i + 1] == MuxEventView::ChannelClosed);
            }
        }
        if e0 == MuxEventView::ChannelClosed {
            assert(a0 == MuxActionView::PublishStop(spec_stop_bytes()));
            lemma_no_publish_after_shutdown(s1, rest, linear_scale, angular_scale);
        } else {
            assert(s1 == MuxState::Running);
            assert(a0 !is PublishStop);
            lemma_one_trailing_stop(rest, linear_scale, angular_scale);
        }
        assert(spec_actions(MuxState::Running, evs, linear_scale, angular_scale).drop_first()
            =~= spec_actions(s1, rest, linear_scale, angular_scale));
    }
}

} // verus!
