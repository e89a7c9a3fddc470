//! The way into the application: the queue on which every action arrives, and
//! the loop that takes the actions off it one at a time.

use crate::action::{AppAction, AppActionView, Credentials};
use crate::app::{notified, notified_all, App, Component, EventListener};
use crate::state::{apply, apply_all, credentials_saved_by, credentials_to_save, derived_events};
use std::collections::VecDeque;
use vstd::prelude::*;

verus! {

/// The actions that the outcome of a remote operation turns into: the actions
/// that it returned, in their order, or the single action `Error` where it failed.
pub open spec fn outcome_actions<E>(outcome: Result<Vec<AppAction>, E>) -> Seq<AppActionView> {
    match outcome {
        Ok(actions) => actions.deep_view(),
        Err(_) => seq![AppActionView::Error],
    }
}

/// The handle through which actions are submitted. It holds the actions that
/// were submitted and not yet processed, oldest first.
pub struct Dispatcher {
    pending: VecDeque<AppAction>,
}

impl View for Dispatcher {
    type V = Seq<AppActionView>;

    /// The pending actions, oldest first.
    closed spec fn view(&self) -> Seq<AppActionView> {
        self.pending.deep_view()
    }
}

impl Dispatcher {
    /// A dispatcher with nothing pending.
    pub fn new() -> (dispatcher: Self)
        ensures
            dispatcher@ == Seq::<AppActionView>::empty(),
    {
        let dispatcher = Dispatcher { pending: VecDeque::new() };
        assert(dispatcher@ =~= Seq::<AppActionView>::empty());
        dispatcher
    }

    /// The number of pending actions.
    pub fn len(&self) -> (len: usize)
        ensures
            len == self@.len(),
    {
        self.pending.len()
    }

    /// Submits one action: it is put behind everything that is pending.
    pub fn dispatch(&mut self, action: AppAction)
        ensures
            final(self)@ == old(self)@.push(action@),
    {
        self.pending.push_back(action);
        assert(self@ =~= old(self)@.push(action@));
    }

    /// Submits several actions at once: they are put behind everything that
    /// is pending, in the order of the vector.
    pub fn dispatch_many(&mut self, actions: Vec<AppAction>)
        ensures
            final(self)@ == old(self)@ + actions.deep_view(),
    {
        let ghost submitted = actions.deep_view();
        for action in iter: actions
            invariant
                iter.seq().len() == submitted.len(),
                forall|k: int| 0 <= k < submitted.len() ==> iter.seq()[k]@ == submitted[k],
                self@ == old(self)@ + submitted.take(iter.index() as int),
        {
            assert(submitted.take(iter.index() + 1) =~= submitted.take(iter.index() as int).push(
                action@,
            ));
            self.dispatch(action);
        }
        assert(submitted.take(submitted.len() as int) =~= submitted);
    }

    /// Submits the outcome of a remote operation: each action that it
    /// returned, in order, or the single action `Error` where it failed.
    pub fn complete<E>(&mut self, outcome: Result<Vec<AppAction>, E>)
        ensures
            final(self)@ == old(self)@ + outcome_actions(outcome),
    {
        match outcome {
            Ok(actions) => {
                self.dispatch_many(actions);
            },
            Err(_) => {
                self.dispatch(AppAction::Error);
                assert(old(self)@.push(AppActionView::Error) =~= old(self)@
                    + seq![AppActionView::Error]);
            },
        }
    }

    /// Runs `op` and submits what it comes to: the actions that it returned,
    /// in order, or the single action `Error` where it failed. Nothing but the
    /// pending actions is touched.
    pub fn call_spotify_and_dispatch_many<E, F: FnOnce() -> Result<Vec<AppAction>, E>>(
        &mut self,
        op: F,
    )
        requires
            op.requires(()),
        ensures
            exists|outcome: Result<Vec<AppAction>, E>|
                op.ensures((), outcome) && final(self)@ == old(self)@ + #[trigger] outcome_actions(
                    outcome,
                ),
    {
        let outcome = op();
        self.complete(outcome);
    }

    /// A copy of the pending actions, oldest first.
    pub fn pending(&self) -> (pending: Vec<AppAction>)
        ensures
            pending.deep_view() == self@,
    {
        let mut pending: Vec<AppAction> = Vec::new();
        let mut i: usize = 0;
        while i < self.pending.len()
            invariant
                i <= self.pending.len(),
                pending.len() == i,
                forall|k: int| 0 <= k < i ==> pending@[k]@ == self.pending@[k]@,
            decreases self.pending.len() - i,
        {
            pending.push(self.pending[i].clone());
            i += 1;
        }
        assert(pending.deep_view() =~= self@);
        pending
    }

    /// Takes the oldest pending action off the queue, if there is one. Only
    /// the dispatch loop does so.
    fn next(&mut self) -> (action: Option<AppAction>)
        ensures
            match action {
                Some(action) => {
                    &&& old(self)@.len() > 0
                    &&& action@ == old(self)@[0]
                    &&& final(self)@ == old(self)@.skip(1)
                },
                None => {
                    &&& old(self)@.len() == 0
                    &&& final(self)@ == old(self)@
                },
            },
    {
        let action = self.pending.pop_front();
        proof {
            if action is Some {
                assert(self@ =~= old(self)@.skip(1));
            }
        }
        action
    }
}

/// What one turn of the dispatch loop did.
#[derive(Debug, PartialEq, Eq)]
pub enum Step {
    /// Nothing was pending, and nothing happened.
    Idle,
    /// One action was processed. It asks the credential store to keep these
    /// credentials, if any.
    Processed(Option<Credentials>),
}

/// The single point through which every action passes: it takes the pending
/// actions off its dispatcher in the order in which they were submitted, and
/// has the application process each in full before it takes the next.
pub struct DispatchLoop {
    pub dispatcher: Dispatcher,
}

impl View for DispatchLoop {
    type V = Seq<AppActionView>;

    /// The pending actions, oldest first.
    open spec fn view(&self) -> Seq<AppActionView> {
        self.dispatcher@
    }
}

impl DispatchLoop {
    /// An idle loop: nothing is pending.
    pub fn new() -> (dispatch_loop: Self)
        ensures
            dispatch_loop@ == Seq::<AppActionView>::empty(),
    {
        DispatchLoop { dispatcher: Dispatcher::new() }
    }

    /// Whether nothing is pending.
    pub fn is_idle(&self) -> (idle: bool)
        ensures
            idle == (self@.len() == 0),
    {
        self.dispatcher.len() == 0
    }

    /// One turn of the loop: where an action is pending, takes the oldest one
    /// and has `app` process it; where none is, does nothing.
    pub fn process_next<C: Component + EventListener>(&mut self, app: &mut App<C>) -> (step: Step)
        ensures
            match step {
                Step::Idle => {
                    &&& old(self)@.len() == 0
                    &&& final(self)@ == old(self)@
                    &&& final(app)@ == old(app)@
                },
                Step::Processed(save) => {
                    &&& old(self)@.len() > 0
                    &&& final(self)@ == old(self)@.skip(1)
                    &&& final(app)@.model == apply(old(app)@.model, old(self)@[0])
                    &&& save.deep_view() == credentials_to_save(old(self)@[0])
                    &&& final(app)@.components.len() == old(app)@.components.len()
                    &&& forall|i: int|
                        0 <= i < old(app)@.components.len() ==> notified(
                            old(app)@.components[i],
                            old(self)@[0],
                            derived_events(old(app)@.model, old(self)@[0]),
                            apply(old(app)@.model, old(self)@[0]),
                            #[trigger] final(app)@.components[i],
                        )
                },
            },
    {
        match self.dispatcher.next() {
            Some(action) => Step::Processed(app.handle(action)),
            None => Step::Idle,
        }
    }

    /// Runs the loop until it is idle: every pending action is processed, in
    /// the order in which it was submitted, each in full before the next.
    ///
    /// Returns the credentials that the processed actions ask the credential
    /// store to keep, in the order of the actions.
    pub fn attach<C: Component + EventListener>(&mut self, app: &mut App<C>) -> (saved: Vec<
        Credentials,
    >)
        ensures
            final(self)@ == Seq::<AppActionView>::empty(),
            final(app)@.model == apply_all(old(app)@.model, old(self)@),
            saved.deep_view() == credentials_saved_by(old(self)@),
            final(app)@.components.len() == old(app)@.components.len(),
            forall|i: int|
                0 <= i < old(app)@.components.len() ==> notified_all(
                    old(app)@.components[i],
                    old(self)@,
                    old(app)@.model,
                    #[trigger] final(app)@.components[i],
                ),
    {
        let ghost actions = self@;
        let ghost start = app@;
        let ghost mut done: int = 0;
        let mut saved: Vec<Credentials> = Vec::new();
        assert(saved.deep_view() =~= credentials_saved_by(actions.take(0)));
        loop
            invariant
                0 <= done <= actions.len(),
                self@ == actions.skip(done),
                app@.model == apply_all(start.model, actions.take(done)),
                saved.deep_view() == credentials_saved_by(actions.take(done)),
                app@.components.len() == start.components.len(),
                forall|i: int|
                    0 <= i < start.components.len() ==> notified_all(
                        start.components[i],
                        actions.take(done),
                        start.model,
                        #[trigger] app@.components[i],
                    ),
            ensures
                done == actions.len(),
            decreases actions.len() - done,
        {
            let ghost kept = saved.deep_view();
            match self.process_next(app) {
                Step::Idle => {
                    break ;
                },
                Step::Processed(save) => {
                    proof {
                        assert(actions.take(done + 1).drop_last() =~= actions.take(done));
                        assert(actions.take(done + 1).last() == actions[done]);
                    }
                    match save {
                        Some(credentials) => {
                            saved.push(credentials);
                            assert(saved.deep_view() =~= kept.push(credentials@));
                        },
                        None => {},
                    }
                    proof {
                        assert(self@ =~= actions.skip(done + 1));
                        done = done + 1;
                    }
                },
            }
        }
        proof {
            assert(actions.take(actions.len() as int) =~= actions);
            assert(self@ =~= Seq::<AppActionView>::empty());
        }
        saved
    }
}

} // verus!
