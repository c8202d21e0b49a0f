use vstd::prelude::*;

use crate::ports::{
    live_step, read_step, write_step, ControllerPorts, InvalidAddress, PortsView,
};

verus! {

/// The abstract state of a movie adapter.
pub struct MovieView {
    pub ports: PortsView,
    /// One controller state per frame.
    pub frames: Seq<u8>,
    /// The index of the frame that the next poll supplies or records.
    pub frame: nat,
    pub recording: bool,
}

/// The state that a replayed movie supplies for frame `frame`: its entry,
/// or nothing pressed once the movie has ended.
pub open spec fn movie_state(frames: Seq<u8>, frame: nat) -> u8 {
    if frame < frames.len() {
        frames[frame as int]
    } else {
        0
    }
}

/// The state of a movie adapter after the poll of one frame, given the
/// state that the host sampled for it: a replay supplies the recorded
/// frame and ignores the sample; a recording appends the sample to the log
/// and supplies it.
pub open spec fn movie_poll_step(m: MovieView, sampled: u8) -> MovieView {
    if m.recording {
        MovieView {
            ports: live_step(m.ports, sampled),
            frames: m.frames.push(sampled),
            frame: m.frame + 1,
            ..m
        }
    } else {
        MovieView {
            ports: live_step(m.ports, movie_state(m.frames, m.frame)),
            frame: if m.frame < m.frames.len() {
                m.frame + 1
            } else {
                m.frame
            },
            ..m
        }
    }
}

/// The deterministic input adapter: the controller ports fed, frame by
/// frame, from a movie log that it either replays or records.
pub struct MovieIO {
    ports: ControllerPorts,
    frames: Vec<u8>,
    frame: usize,
    recording: bool,
}

impl View for MovieIO {
    type V = MovieView;

    closed spec fn view(&self) -> MovieView {
        MovieView {
            ports: self.ports@,
            frames: self.frames@,
            frame: self.frame as nat,
            recording: self.recording,
        }
    }
}

impl MovieIO {
    /// While the strobe is high the first latch holds the live state; the
    /// next frame lies within the log, and a recording is always at its end.
    pub open spec fn wf(&self) -> bool {
        &&& self@.ports.strobe ==> self@.ports.controller1 == self@.ports.live
        &&& self@.frame <= self@.frames.len()
        &&& self@.recording ==> self@.frame == self@.frames.len()
    }

    /// An adapter that replays `frames`, one controller state per frame.
    pub fn replay(frames: Vec<u8>) -> (r: MovieIO)
        ensures
            r.wf(),
            r@ == (MovieView {
                ports: PortsView { strobe: false, live: 0, controller1: 0, controller2: 0 },
                frames: frames@,
                frame: 0,
                recording: false,
            }),
    {
        MovieIO { ports: ControllerPorts::new(), frames, frame: 0, recording: false }
    }

    /// An adapter that records each frame's sampled state into an empty log.
    pub fn record() -> (r: MovieIO)
        ensures
            r.wf(),
            r@ == (MovieView {
                ports: PortsView { strobe: false, live: 0, controller1: 0, controller2: 0 },
                frames: Seq::empty(),
                frame: 0,
                recording: true,
            }),
    {
        MovieIO { ports: ControllerPorts::new(), frames: Vec::new(), frame: 0, recording: true }
    }

    /// A bus read at `idx`.
    pub fn read(&mut self, idx: u16) -> (r: Result<u8, InvalidAddress>)
        requires
            old(self).wf(),
        ensures
            final(self).wf(),
            (final(self)@.ports, r) == read_step(old(self)@.ports, idx),
            final(self)@ == (MovieView { ports: final(self)@.ports, ..old(self)@ }),
    {
        self.ports.read(idx)
    }

    /// A bus write of `val` at `idx`.
    pub fn write(&mut self, idx: u16, val: u8) -> (r: Result<(), InvalidAddress>)
        requires
            old(self).wf(),
        ensures
            final(self).wf(),
            (final(self)@.ports, r) == write_step(old(self)@.ports, idx, val),
            final(self)@ == (MovieView { ports: final(self)@.ports, ..old(self)@ }),
    {
        self.ports.write(idx, val)
    }

    /// The poll of one frame; see `movie_poll_step`.
    pub fn poll(&mut self, sampled: u8)
        requires
            old(self).wf(),
        ensures
            final(self).wf(),
            final(self)@ == movie_poll_step(old(self)@, sampled),
    {
        if self.recording {
            self.frames.push(sampled);
            self.frame = self.frames.len();
            self.ports.set_live(sampled);
        } else if self.frame < self.frames.len() {
            let state = self.frames[self.frame];
            self.frame = self.frame + 1;
            self.ports.set_live(state);
        } else {
            self.ports.set_live(0);
        }
    }

    /// The movie log: the replayed frames, or those recorded so far.
    pub fn frames(&self) -> (r: &Vec<u8>)
        ensures
            r@ == self@.frames,
    {
        &self.frames
    }

    /// The index of the frame that the next poll supplies or records.
    pub fn frame(&self) -> (r: usize)
        ensures
            r == self@.frame,
    {
        self.frame
    }
}

/// The state of a movie adapter after one poll for each of `samples`, the
/// states that the host sampled, in order.
pub open spec fn polls(m: MovieView, samples: Seq<u8>) -> MovieView
    decreases samples.len(),
{
    if samples.len() == 0 {
        m
    } else {
        movie_poll_step(polls(m, samples.drop_last()), samples.last())
    }
}

/// A recording started on an empty log holds, after any run of polls,
/// exactly the states that were sampled, in order.
pub proof fn lemma_record_log(ports: PortsView, samples: Seq<u8>)
    ensures
        polls(
            MovieView { ports, frames: Seq::empty(), frame: 0, recording: true },
            samples,
        ).frames == samples,
        polls(
            MovieView { ports, frames: Seq::empty(), frame: 0, recording: true },
            samples,
        ).frame == samples.len(),
        polls(
            MovieView { ports, frames: Seq::empty(), frame: 0, recording: true },
            samples,
        ).recording,
    decreases samples.len(),
{
    if samples.len() > 0 {
        lemma_record_log(ports, samples.drop_last());
        assert(samples.drop_last().push(samples.last()) =~= samples);
    }
}

/// A replay supplies, at its `n`-th poll, the `n`-th state of its log (none
/// pressed once the log has ended), whatever the host sampled: two runs of
/// one movie receive the same input, frame for frame. Replaying a recorded
/// log thus hands back what was recorded.
pub proof fn lemma_replay_supplies_log(ports: PortsView, frames: Seq<u8>, host: Seq<u8>)
    ensures
        polls(MovieView { ports, frames, frame: 0, recording: false }, host).frames == frames,
        !polls(MovieView { ports, frames, frame: 0, recording: false }, host).recording,
        polls(MovieView { ports, frames, frame: 0, recording: false }, host).frame == if host.len()
            < frames.len() {
            host.len()
        } else {
            frames.len()
        },
        host.len() > 0 ==> polls(
            MovieView { ports, frames, frame: 0, recording: false },
            host,
        ).ports.live == movie_state(frames, (host.len() - 1) as nat),
    decreases host.len(),
{
    if host.len() > 0 {
        lemma_replay_supplies_log(ports, frames, host.drop_last());
    }
}

} // verus!
