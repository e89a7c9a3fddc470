//! The application: the one owner of the model, and the components that are
//! shown every action that was applied to it.

use crate::action::{AppAction, AppActionView, AppEvent, BrowserAction, BrowserEvent, Credentials};
use crate::state::{
    apply, apply_all, credentials_to_save, derived_events, AppModel, AppModelView,
};
use vstd::prelude::*;

verus! {

/// Something that is shown every action, after the action was applied.
///
/// A component owns its own presentation state and nothing of the model: it is
/// handed the model for reading, for the length of the call.
pub trait Component: Sized {
    /// Whether `after` is what handling `message`, with `model` to read, can
    /// make of this component. A component that does not say claims nothing:
    /// anything may become of it.
    open spec fn handled(self, message: AppActionView, model: AppModelView, after: Self) -> bool {
        true
    }

    /// Takes note of an action that has been applied to `model`.
    fn handle(&mut self, message: &AppAction, model: &AppModel)
        ensures
            old(self).handled(message@, model@, *final(self)),
    ;
}

/// Something that is told of every event that an applied action gave rise to.
pub trait EventListener: Sized {
    /// Whether `after` is what hearing of `event`, with `model` to read, can
    /// make of this listener. A listener that does not say claims nothing:
    /// anything may become of it.
    open spec fn observed(self, event: AppEvent, model: AppModelView, after: Self) -> bool {
        true
    }

    /// Takes note of a change that an applied action made to `model`.
    fn on_event(&mut self, event: &AppEvent, model: &AppModel)
        ensures
            old(self).observed(*event, model@, *final(self)),
    ;
}

/// Whether `after` is what hearing of each of `events` in turn, first to last,
/// can make of `before`.
pub open spec fn observed_all<C: EventListener>(
    before: C,
    events: Seq<AppEvent>,
    model: AppModelView,
    after: C,
) -> bool
    decreases events.len(),
{
    if events.len() == 0 {
        after == before
    } else {
        exists|between: C|
            observed_all(before, events.drop_last(), model, between)
                && #[trigger] between.observed(events.last(), model, after)
    }
}

/// Whether `after` is what one round of notification can make of `before`: the
/// component handles the action, then hears of each event in turn, and reads
/// the same model throughout.
pub open spec fn notified<C: Component + EventListener>(
    before: C,
    message: AppActionView,
    events: Seq<AppEvent>,
    model: AppModelView,
    after: C,
) -> bool {
    exists|seen: C| #[trigger]
        before.handled(message, model, seen) && observed_all(seen, events, model, after)
}

/// Whether `after` is what processing each of `actions` in turn, first to
/// last, starting from `model`, can make of `before`: one round of
/// notification for each action, each with the events of that action and with
/// the model as it is once that action and all before it were applied.
pub open spec fn notified_all<C: Component + EventListener>(
    before: C,
    actions: Seq<AppActionView>,
    model: AppModelView,
    after: C,
) -> bool
    decreases actions.len(),
{
    if actions.len() == 0 {
        after == before
    } else {
        let reached = apply_all(model, actions.drop_last());
        exists|between: C|
            notified_all(before, actions.drop_last(), model, between) && #[trigger] notified(
                between,
                actions.last(),
                derived_events(reached, actions.last()),
                apply(reached, actions.last()),
                after,
            )
    }
}

/// What applying an action asks of the rest of the program.
#[derive(Debug, PartialEq, Eq)]
pub struct Effects {
    /// The events to tell the components of, in order.
    pub events: Vec<AppEvent>,
    /// The credentials to hand to the credential store. Whether the store
    /// manages to keep them is of no consequence to the state.
    pub save: Option<Credentials>,
}

/// The application: the model and, in the order of their registration, the
/// components.
pub struct App<C: Component + EventListener> {
    components: Vec<C>,
    model: AppModel,
}

/// View of an [`App`].
pub struct AppView<C> {
    pub components: Seq<C>,
    pub model: AppModelView,
}

impl<C: Component + EventListener> View for App<C> {
    type V = AppView<C>;

    closed spec fn view(&self) -> AppView<C> {
        AppView { components: self.components@, model: self.model@ }
    }
}

impl<C: Component + EventListener> App<C> {
    /// An application around `model`, with `components` registered in the
    /// order of the vector.
    pub fn new(model: AppModel, components: Vec<C>) -> (app: Self)
        ensures
            app@.model == model@,
            app@.components == components@,
    {
        Self { model, components }
    }

    /// The model, for reading.
    pub fn model(&self) -> (model: &AppModel)
        ensures
            model@ == self@.model,
    {
        &self.model
    }

    /// The components, in the order of their registration.
    pub fn components(&self) -> (components: &Vec<C>)
        ensures
            components@ == self@.components,
    {
        &self.components
    }

    /// Applies the mutation rule of `message` to the model, and says what
    /// that asks of the rest of the program. The components are not touched.
    pub fn update_state(&mut self, message: AppAction) -> (effects: Effects)
        ensures
            final(self)@.model == apply(old(self)@.model, message@),
            final(self)@.components == old(self)@.components,
            effects.events@ == derived_events(old(self)@.model, message@),
            effects.save.deep_view() == credentials_to_save(message@),
    {
        let mut events: Vec<AppEvent> = Vec::new();
        let mut save: Option<Credentials> = None;
        match message {
            AppAction::Play => {
                self.model.state.is_playing = true;
            },
            AppAction::Pause => {
                self.model.state.is_playing = false;
            },
            AppAction::Load(uri) => {
                self.model.state.is_playing = true;
                self.model.state.current_song_uri = Some(uri);
            },
            AppAction::LoadPlaylist(tracks) => {
                self.model.state.playlist = tracks;
            },
            AppAction::LoginSuccess(credentials) => {
                self.model.api.token = Some(credentials.token.clone());
                save = Some(credentials);
            },
            AppAction::BrowserAction(BrowserAction::PrependPlaylistsContent(added)) => {
                match &mut self.model.state.browser.home {
                    Some(home) => {
                        home.prepend_playlists(&added);
                        events.push(AppEvent::BrowserEvent(BrowserEvent::SavedPlaylistsUpdated));
                    },
                    None => {},
                }
            },
            _ => {},
        }
        Effects { events, save }
    }

    /// Processes one action: applies it to the model, and then shows it, and
    /// each event that it gave rise to, to every component in the order of
    /// registration. Every component reads the model as it is after the
    /// action was applied in full.
    ///
    /// Returns the credentials that the action asks the credential store to
    /// keep, if any.
    pub fn handle(&mut self, message: AppAction) -> (save: Option<Credentials>)
        ensures
            final(self)@.model == apply(old(self)@.model, message@),
            save.deep_view() == credentials_to_save(message@),
            final(self)@.components.len() == old(self)@.components.len(),
            forall|i: int|
                0 <= i < old(self)@.components.len() ==> notified(
                    old(self)@.components[i],
                    message@,
                    derived_events(old(self)@.model, message@),
                    apply(old(self)@.model, message@),
                    #[trigger] final(self)@.components[i],
                ),
    {
        let shown = message.clone();
        let effects = self.update_state(message);
        let ghost model = self.model@;
        let ghost events = effects.events@;
        let mut i: usize = 0;
        while i < self.components.len()
            invariant
                i <= self.components.len(),
                self.model@ == model,
                effects.events@ == events,
                self.components.len() == old(self).components.len(),
                forall|k: int|
                    0 <= k < i ==> notified(
                        old(self).components@[k],
                        shown@,
                        events,
                        model,
                        #[trigger] self.components@[k],
                    ),
                forall|k: int|
                    i <= k < self.components.len() ==> #[trigger] self.components@[k] == old(
                        self,
                    ).components@[k],
            decreases self.components.len() - i,
        {
            let component = &mut self.components[i];
            component.handle(&shown, &self.model);
            let ghost seen = *component;
            let mut j: usize = 0;
            while j < effects.events.len()
                invariant
                    j <= effects.events.len(),
                    effects.events@ == events,
                    self.model@ == model,
                    observed_all(seen, events.take(j as int), model, *component),
                decreases effects.events.len() - j,
            {
                component.on_event(&effects.events[j], &self.model);
                proof {
                    assert(events.take(j + 1).drop_last() =~= events.take(j as int));
                    assert(events.take(j + 1).last() == events[j as int]);
                }
                j += 1;
            }
            proof {
                assert(events.take(events.len() as int) =~= events);
            }
            i += 1;
        }
        effects.save
    }
}

} // verus!
