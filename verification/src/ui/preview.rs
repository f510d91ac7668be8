//! When previews are rendered and which renders are shown.
//!
//! Rendering happens elsewhere (a background worker); these types decide what to hand
//! it and whether what comes back is still wanted. Every request or clear starts a new
//! generation, and a render is shown only if it belongs to the current one, so a slow,
//! outdated render never replaces a newer state.
//!
//! The watermark preview also coalesces requests: the caller's worker waits a short
//! while, takes only the latest request ([`WatermarkPreview::next_job`]) and renders it;
//! while it renders, the previous image stays on screen.

use vstd::prelude::*;

verus! {

/// How long the watermark preview waits for further changes before it renders, in
/// milliseconds.
pub const DEBOUNCE_MILLIS: u64 = 80;

/// The generation after `g`; the counter wraps around.
pub open spec fn next_generation(g: u64) -> u64 {
    if g == u64::MAX {
        0
    } else {
        (g + 1) as u64
    }
}

/// The generation `k` steps after `g`.
pub open spec fn generation_after(g: u64, k: nat) -> u64
    decreases k,
{
    if k == 0 {
        g
    } else {
        next_generation(generation_after(g, (k - 1) as nat))
    }
}

fn advance(g: u64) -> (r: u64)
    ensures
        r == next_generation(g),
{
    if g == u64::MAX {
        0
    } else {
        g + 1
    }
}

/// What the watermark preview shows.
#[derive(Debug)]
pub enum PreviewState<I> {
    /// No photo to preview.
    Empty,
    /// A render is under way; the previous image, if any, stays on screen.
    Rendering { previous: Option<I> },
    Ready(I),
    Failed(String),
}

/// The image on screen in a state.
pub open spec fn shown<I>(s: PreviewState<I>) -> Option<I> {
    match s {
        PreviewState::Rendering { previous } => previous,
        PreviewState::Ready(image) => Some(image),
        _ => None,
    }
}

impl<I> PreviewState<I> {
    /// The image on screen: during a render, still the previous one.
    pub fn image(&self) -> (r: Option<&I>)
        ensures
            match r {
                Some(i) => shown(*self) == Some(*i),
                None => shown(*self) is None,
            },
    {
        match self {
            PreviewState::Rendering { previous } => match previous {
                Some(image) => Some(image),
                None => None,
            },
            PreviewState::Ready(image) => Some(image),
            _ => None,
        }
    }
}

/// The watermark preview's schedule: `J` is a render job, `I` a rendered image.
pub struct WatermarkPreview<J, I> {
    state: PreviewState<I>,
    generation: u64,
    pending: Option<J>,
    working: bool,
}

impl<J, I> WatermarkPreview<J, I> {
    pub closed spec fn current_state(&self) -> PreviewState<I> {
        self.state
    }

    pub closed spec fn current_generation(&self) -> u64 {
        self.generation
    }

    /// The latest request not yet handed to the worker.
    pub closed spec fn pending_job(&self) -> Option<J> {
        self.pending
    }

    /// A worker is running and will take the pending request.
    pub closed spec fn is_working(&self) -> bool {
        self.working
    }

    pub fn new() -> (p: Self)
        ensures
            p.current_state() is Empty,
            p.current_generation() == 0,
            p.pending_job() is None,
            !p.is_working(),
    {
        WatermarkPreview { state: PreviewState::Empty, generation: 0, pending: None, working: false }
    }

    pub fn state(&self) -> (s: &PreviewState<I>)
        ensures
            *s == self.current_state(),
    {
        &self.state
    }

    /// Asks for a render of `job`, replacing any request not yet taken. Gives whether
    /// the caller must start a worker (none is running).
    pub fn request(&mut self, job: J) -> (start_worker: bool)
        ensures
            final(self).pending_job() == Some(job),
            final(self).current_generation() == next_generation(old(self).current_generation()),
            final(self).current_state() == old(self).current_state(),
            final(self).is_working(),
            start_worker == !old(self).is_working(),
    {
        self.pending = Some(job);
        self.generation = advance(self.generation);
        let start_worker = !self.working;
        self.working = true;
        start_worker
    }

    /// Called by the worker once the wait is over: the latest request and its
    /// generation, now being rendered; `None` when there is none, and the worker stops.
    pub fn next_job(&mut self) -> (r: Option<(J, u64)>)
        ensures
            final(self).pending_job() is None,
            final(self).current_generation() == old(self).current_generation(),
            match old(self).pending_job() {
                Some(job) => {
                    &&& r == Some((job, old(self).current_generation()))
                    &&& final(self).current_state() == (PreviewState::Rendering {
                        previous: shown(old(self).current_state()),
                    })
                    &&& final(self).is_working() == old(self).is_working()
                },
                None => {
                    &&& r is None
                    &&& final(self).current_state() == old(self).current_state()
                    &&& !final(self).is_working()
                },
            },
    {
        match self.pending.take() {
            None => {
                self.working = false;
                None
            },
            Some(job) => {
                let mut state = PreviewState::Empty;
                core::mem::swap(&mut state, &mut self.state);
                self.state = match state {
                    PreviewState::Rendering { previous } => PreviewState::Rendering { previous },
                    PreviewState::Ready(image) => PreviewState::Rendering { previous: Some(image) },
                    _ => PreviewState::Rendering { previous: None },
                };
                Some((job, self.generation))
            },
        }
    }

    /// Called by the worker with a finished render of generation `generation`: shown
    /// only if no request or clear came since. Gives whether it was shown.
    pub fn finish(&mut self, generation: u64, rendered: Result<I, String>) -> (applied: bool)
        ensures
            applied == (generation == old(self).current_generation()),
            applied ==> final(self).current_state() == match rendered {
                Ok(image) => PreviewState::Ready(image),
                Err(message) => PreviewState::<I>::Failed(message),
            },
            !applied ==> final(self).current_state() == old(self).current_state(),
            final(self).current_generation() == old(self).current_generation(),
            final(self).pending_job() == old(self).pending_job(),
            final(self).is_working() == old(self).is_working(),
    {
        if generation != self.generation {
            return false;
        }
        self.state = match rendered {
            Ok(image) => PreviewState::Ready(image),
            Err(message) => PreviewState::Failed(message),
        };
        true
    }

    /// There is no photo to preview: drops the pending request and outdates any render
    /// under way.
    pub fn clear(&mut self)
        ensures
            final(self).pending_job() is None,
            final(self).current_generation() == next_generation(old(self).current_generation()),
            final(self).current_state() is Empty,
            final(self).is_working() == old(self).is_working(),
    {
        self.pending = None;
        self.generation = advance(self.generation);
        self.state = PreviewState::Empty;
    }
}

/// What a one-shot preview (a Motion Photo cover, a gain map) shows: nothing, a render
/// under way, or the outcome `R` of the latest render.
#[derive(Debug)]
pub enum LoadState<R> {
    Empty,
    Loading,
    Done(R),
}

/// A preview that renders every request at once and shows only the latest outcome.
pub struct LatestPreview<R> {
    state: LoadState<R>,
    generation: u64,
}

impl<R> LatestPreview<R> {
    pub closed spec fn current_state(&self) -> LoadState<R> {
        self.state
    }

    pub closed spec fn current_generation(&self) -> u64 {
        self.generation
    }

    pub fn new() -> (p: Self)
        ensures
            p.current_state() is Empty,
            p.current_generation() == 0,
    {
        LatestPreview { state: LoadState::Empty, generation: 0 }
    }

    pub fn state(&self) -> (s: &LoadState<R>)
        ensures
            *s == self.current_state(),
    {
        &self.state
    }

    /// Starts a render: the preview shows that it is loading. Gives the generation the
    /// render belongs to.
    pub fn request(&mut self) -> (generation: u64)
        ensures
            generation == next_generation(old(self).current_generation()),
            final(self).current_generation() == generation,
            final(self).current_state() is Loading,
    {
        self.generation = advance(self.generation);
        self.state = LoadState::Loading;
        self.generation
    }

    /// A render of generation `generation` finished with `outcome`: shown only if no
    /// request or clear came since. Gives whether it was shown.
    pub fn finish(&mut self, generation: u64, outcome: R) -> (applied: bool)
        ensures
            applied == (generation == old(self).current_generation()),
            applied ==> final(self).current_state() == LoadState::Done(outcome),
            !applied ==> final(self).current_state() == old(self).current_state(),
            final(self).current_generation() == old(self).current_generation(),
    {
        if generation != self.generation {
            return false;
        }
        self.state = LoadState::Done(outcome);
        true
    }

    /// Shows nothing, and outdates any render under way.
    pub fn clear(&mut self)
        ensures
            final(self).current_generation() == next_generation(old(self).current_generation()),
            final(self).current_state() is Empty,
    {
        self.generation = advance(self.generation);
        self.state = LoadState::Empty;
    }
}

/// `k` generations after `g` the counter stands at `g + k`, modulo 2^64.
pub proof fn lemma_generation_after(g: u64, k: nat)
    ensures
        generation_after(g, k) == (g + k) % 0x1_0000_0000_0000_0000,
    decreases k,
{
    if k > 0 {
        lemma_generation_after(g, (k - 1) as nat);
    }
}

/// A render started in generation `g` is outdated by any number of later requests or
/// clears, from one up to 2^64 - 1 of them: the generation it carries is then never the
/// current one, so it is never shown.
pub proof fn lemma_later_requests_outdate_a_render(g: u64, k: nat)
    requires
        1 <= k < 0x1_0000_0000_0000_0000,
    ensures
        generation_after(g, k) != g,
{
    lemma_generation_after(g, k);
}

/// While a render is under way the image on screen does not change.
pub proof fn lemma_rendering_keeps_the_image_on_screen<I>(s: PreviewState<I>)
    ensures
        shown(PreviewState::Rendering { previous: shown(s) }) == shown(s),
{
}

} // verus!
