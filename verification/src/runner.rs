//! The pass runner: an ordered queue of passes, the options they run under,
//! and the module they run on.
//!
//! A runner holds the exclusive borrow of one module from the moment it is
//! made. It is configured by adding passes and is used up by `run`, which
//! yields the request that the engine carries out on that module. Whether a
//! pass name is known is the engine's to say, and it says so when it runs the
//! request.
//!
//! The library never looks inside a module: `M` is whatever handle the caller
//! has for one.

use crate::options::PassOptions;
use vstd::prelude::*;

verus! {

/// One entry of a runner's queue.
#[derive(Debug, PartialEq, Eq)]
pub enum Pass {
    /// The pass of this name.
    Named(String),
    /// The engine's standard sequence of optimization passes.
    DefaultOptimization,
}

/// What a queue entry stands for.
pub enum PassView {
    Named(Seq<char>),
    DefaultOptimization,
}

impl View for Pass {
    type V = PassView;

    open spec fn view(&self) -> PassView {
        match self {
            Pass::Named(name) => PassView::Named(name@),
            Pass::DefaultOptimization => PassView::DefaultOptimization,
        }
    }
}

/// The entries of `passes`, each by what it stands for.
pub open spec fn queue_view(passes: Seq<Pass>) -> Seq<PassView> {
    passes.map_values(|pass: Pass| pass@)
}

/// What a runner stands for: its options and its queue, first entry first.
pub struct RunnerView {
    pub options: PassOptions,
    pub passes: Seq<PassView>,
}

impl RunnerView {
    /// A runner with `options` and nothing queued.
    pub open spec fn fresh(options: PassOptions) -> RunnerView {
        RunnerView { options, passes: Seq::empty() }
    }

    /// The runner with `entry` queued after all earlier entries.
    pub open spec fn queue(self, entry: PassView) -> RunnerView {
        RunnerView { passes: self.passes.push(entry), ..self }
    }

    /// The runner after `entries` have been queued one by one, first to
    /// last.
    pub open spec fn queue_all(self, entries: Seq<PassView>) -> RunnerView
        decreases entries.len(),
    {
        if entries.len() == 0 {
            self
        } else {
            self.queue(entries.first()).queue_all(entries.drop_first())
        }
    }
}

/// A configured runner that has not run yet, bound to the module it will
/// run on.
pub struct PassRunner<'wasm, M> {
    module: &'wasm mut M,
    options: PassOptions,
    passes: Vec<Pass>,
}

impl<'wasm, M> View for PassRunner<'wasm, M> {
    type V = RunnerView;

    closed spec fn view(&self) -> RunnerView {
        RunnerView { options: self.options, passes: queue_view(self.passes@) }
    }
}

/// The request to run a queue of passes on a module, in order and in place,
/// under the given options.
#[derive(Debug, PartialEq, Eq)]
pub struct RunRequest<'wasm, M> {
    pub module: &'wasm mut M,
    pub options: PassOptions,
    pub passes: Vec<Pass>,
}

impl<'wasm, M> View for RunRequest<'wasm, M> {
    type V = RunnerView;

    open spec fn view(&self) -> RunnerView {
        RunnerView { options: self.options, passes: queue_view(self.passes@) }
    }
}

impl<'wasm, M> PassRunner<'wasm, M> {
    /// The borrow of the module that the runner is bound to.
    pub closed spec fn module(&self) -> &'wasm mut M {
        self.module
    }

    /// A runner on `module` under the engine's default options, with nothing
    /// queued. It is the runner that `with_options` makes of fresh pass
    /// options. The runner holds `module` until it has run.
    pub fn new(module: &'wasm mut M) -> (r: PassRunner<'wasm, M>)
        ensures
            r@ == RunnerView::fresh(PassOptions::untouched()),
            *r.module() == *old(module),
            *final(r.module()) == *final(module),
    {
        let r = PassRunner { module, options: PassOptions::new(), passes: Vec::new() };
        assert(queue_view(r.passes@) =~= Seq::empty());
        r
    }

    /// A runner on `module` under `options`, with nothing queued. The options
    /// move into the runner: the caller keeps no handle to them. The runner
    /// holds `module` until it has run.
    pub fn with_options(module: &'wasm mut M, options: PassOptions) -> (r: PassRunner<'wasm, M>)
        ensures
            r@ == RunnerView::fresh(options),
            *r.module() == *old(module),
            *final(r.module()) == *final(module),
    {
        let r = PassRunner { module, options, passes: Vec::new() };
        assert(queue_view(r.passes@) =~= Seq::empty());
        r
    }

    /// Queues the pass called `pass_name` after all that is queued. The name
    /// is not looked up: any name is queued.
    pub fn add(&mut self, pass_name: &str)
        ensures
            final(self)@ == old(self)@.queue(PassView::Named(pass_name@)),
            final(self).module() == old(self).module(),
    {
        let pass = Pass::Named(pass_name.to_owned());
        self.passes.push(pass);
        assert(queue_view(self.passes@) =~= queue_view(old(self).passes@).push(pass@));
    }

    /// Queues the engine's standard sequence of optimization passes after
    /// all that is queued.
    pub fn add_default_optimization_passes(&mut self)
        ensures
            final(self)@ == old(self)@.queue(PassView::DefaultOptimization),
            final(self).module() == old(self).module(),
    {
        self.passes.push(Pass::DefaultOptimization);
        assert(queue_view(self.passes@) =~= queue_view(old(self).passes@).push(
            PassView::DefaultOptimization,
        ));
    }

    /// Uses the runner up and yields the request for the engine: the queued
    /// passes in the order in which they were added, under the runner's
    /// options, on the module that the runner was bound to. The engine may
    /// end the process while it carries the request out; no error value
    /// stands for that.
    pub fn run(self) -> (request: RunRequest<'wasm, M>)
        ensures
            request@ == self@,
            *request.module == *self.module(),
            *final(request.module) == *final(self.module()),
    {
        RunRequest { module: self.module, options: self.options, passes: self.passes }
    }
}

/// Queuing entries one by one puts them behind what was queued before, in the
/// order in which they were queued, and leaves the options as they were.
pub proof fn lemma_queue_keeps_order(runner: RunnerView, entries: Seq<PassView>)
    ensures
        runner.queue_all(entries).passes == runner.passes + entries,
        runner.queue_all(entries).options == runner.options,
    decreases entries.len(),
{
    if entries.len() > 0 {
        lemma_queue_keeps_order(runner.queue(entries.first()), entries.drop_first());
    }
}

} // verus!
