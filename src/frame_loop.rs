use vstd::prelude::*;

verus! {

/// The controller of a loop driven by the host's single-shot
/// animation-frame requests.
///
/// The host calls back once per request. The tick runs only while a request
/// is outstanding, and the tick must ask for the next one: a frame handled
/// without a new request is the last. Timestamps go from the host to the
/// tick untouched; their order is the host's.
#[derive(Clone, Copy, Debug, PartialEq, Eq, Structural)]
pub struct FrameLoop {
    /// Whether a frame request is outstanding.
    pub armed: bool,
}

/// The loop state after the host calls back, and whether the tick runs.
pub open spec fn frame_step(s: FrameLoop) -> (FrameLoop, bool) {
    if s.armed {
        (FrameLoop { armed: false }, true)
    } else {
        (s, false)
    }
}

/// Runs the host's callbacks, one per element of `rearms`, which says
/// whether the tick asked for the next frame when it ran; yields the final
/// state and, for each callback, whether the tick ran.
pub open spec fn run_frames(s: FrameLoop, rearms: Seq<bool>) -> (FrameLoop, Seq<bool>)
    decreases rearms.len(),
{
    if rearms.len() == 0 {
        (s, Seq::empty())
    } else {
        let (s1, ran) = frame_step(s);
        let s2 = if ran && rearms[0] {
            FrameLoop { armed: true }
        } else {
            s1
        };
        let (s3, rest) = run_frames(s2, rearms.drop_first());
        (s3, seq![ran] + rest)
    }
}

/// How many callbacks reach the tick when the loop starts armed: all of
/// them up to and including the first whose tick did not re-arm.
pub open spec fn live_frames(rearms: Seq<bool>) -> nat
    decreases rearms.len(),
{
    if rearms.len() == 0 {
        0
    } else if rearms[0] {
        1 + live_frames(rearms.drop_first())
    } else {
        1
    }
}

proof fn lemma_unarmed_is_stopped(s: FrameLoop, rearms: Seq<bool>)
    requires
        !s.armed,
    ensures
        run_frames(s, rearms).0 == s,
        run_frames(s, rearms).1 =~= Seq::new(rearms.len(), |i: int| false),
    decreases rearms.len(),
{
    if rearms.len() > 0 {
        lemma_unarmed_is_stopped(s, rearms.drop_first());
    }
}

/// A loop started armed and driven by any number of host callbacks runs
/// the tick on exactly the first `live_frames(rearms)` of them, in order:
/// each one up to and including the first whose tick did not ask for the
/// next frame, and none after. It stays armed exactly when every tick
/// re-armed.
pub proof fn lemma_loop_persistence(rearms: Seq<bool>)
    ensures
        live_frames(rearms) <= rearms.len(),
        run_frames(FrameLoop { armed: true }, rearms).1.len() == rearms.len(),
        forall|i: int|
            0 <= i < rearms.len() ==> (#[trigger] run_frames(FrameLoop { armed: true }, rearms).1[i]
                <==> i < live_frames(rearms)),
        run_frames(FrameLoop { armed: true }, rearms).0.armed <==> forall|i: int|
            0 <= i < rearms.len() ==> #[trigger] rearms[i],
    decreases rearms.len(),
{
    let s = FrameLoop { armed: true };
    if rearms.len() > 0 {
        let rest = rearms.drop_first();
        let all = run_frames(s, rearms).1;
        if rearms[0] {
            lemma_loop_persistence(rest);
            let out = run_frames(s, rest).1;
            assert(all == seq![true] + out);
            assert forall|i: int| 0 <= i < rearms.len() implies (#[trigger] all[i] <==> i
                < live_frames(rearms)) by {
                if i > 0 {
                    assert(all[i] == out[i - 1]);
                }
            }
            if run_frames(s, rest).0.armed {
                assert forall|i: int| 0 <= i < rearms.len() implies #[trigger] rearms[i] by {
                    if i > 0 {
                        assert(rearms[i] == rest[i - 1]);
                    }
                }
            } else {
                let k = choose|k: int| 0 <= k < rest.len() && !#[trigger] rest[k];
                assert(rearms[k + 1] == rest[k]);
            }
        } else {
            lemma_unarmed_is_stopped(FrameLoop { armed: false }, rest);
            assert(all == seq![true] + Seq::new(rest.len(), |i: int| false));
            assert forall|i: int| 0 <= i < rearms.len() implies (#[trigger] all[i] <==> i
                < live_frames(rearms)) by {
                if i > 0 {
                    assert(all[i] == false);
                }
            }
        }
    }
}

impl FrameLoop {
    /// A loop with no frame requested yet.
    pub fn new() -> (r: FrameLoop)
        ensures
            r == (FrameLoop { armed: false }),
    {
        FrameLoop { armed: false }
    }

    /// Records a request for the next frame. Returns whether the host must
    /// be asked for one: not when a request is already outstanding.
    pub fn arm(&mut self) -> (request: bool)
        ensures
            request == !old(self).armed,
            final(self).armed,
    {
        let request = !self.armed;
        self.armed = true;
        request
    }

    /// Forgets an outstanding request, when the host refused it.
    pub fn disarm(&mut self)
        ensures
            !final(self).armed,
    {
        self.armed = false;
    }

    /// The host called back. Returns whether the tick runs: only when a
    /// request was outstanding, which this callback consumes.
    pub fn on_frame(&mut self) -> (run: bool)
        ensures
            (*final(self), run) == frame_step(*old(self)),
    {
        let run = self.armed;
        self.armed = false;
        run
    }
}

} // verus!
