//! What holds of the dispatch core as a whole, stated over the views that the
//! contracts of its functions use, and proved.

use crate::action::{AppAction, AppActionView, AppEvent, CredentialsView};
use crate::app::{notified, notified_all, Component, EventListener};
use crate::dispatch::outcome_actions;
use crate::state::{
    apply, apply_all, credentials_saved_by, credentials_to_save, derived_events,
    has_mutation_rule, AppModelView,
};
use vstd::prelude::*;

verus! {

/// Actions are processed in the order of their arrival: an action that is
/// submitted behind the pending ones is applied to the model that applying all
/// of the pending ones leaves, and what it asks the credential store to keep
/// comes after what they ask.
pub proof fn arrival_order(model: AppModelView, pending: Seq<AppActionView>, action: AppActionView)
    ensures
        apply_all(model, pending.push(action)) == apply(apply_all(model, pending), action),
        credentials_saved_by(pending.push(action)) == match credentials_to_save(action) {
            Some(credentials) => credentials_saved_by(pending).push(credentials),
            None => credentials_saved_by(pending),
        },
{
    assert(pending.push(action).drop_last() =~= pending);
}

/// A single action is folded as the mutation rule says.
pub proof fn single_action(model: AppModelView, action: AppActionView)
    ensures
        apply_all(model, seq![action]) == apply(model, action),
{
    assert(seq![action].drop_last() =~= Seq::<AppActionView>::empty());
    assert(apply_all(model, Seq::<AppActionView>::empty()) == model);
}

/// Processing a sequence of actions in two runs of the loop comes to the same
/// as processing it in one: the model is the fold of the mutation rule over
/// the whole sequence, and the credentials to keep are those of the first run
/// followed by those of the second.
pub proof fn runs_compose(model: AppModelView, first: Seq<AppActionView>, second: Seq<AppActionView>)
    ensures
        apply_all(model, first + second) == apply_all(apply_all(model, first), second),
        credentials_saved_by(first + second) == credentials_saved_by(first) + credentials_saved_by(
            second,
        ),
    decreases second.len(),
{
    if second.len() == 0 {
        assert(first + second =~= first);
        assert(credentials_saved_by(first) + credentials_saved_by(second) =~= credentials_saved_by(
            first,
        ));
    } else {
        runs_compose(model, first, second.drop_last());
        assert((first + second).drop_last() =~= first + second.drop_last());
        assert((first + second).last() == second.last());
        let earlier = credentials_saved_by(first) + credentials_saved_by(second.drop_last());
        match credentials_to_save(second.last()) {
            Some(credentials) => {
                assert(earlier.push(credentials) =~= credentials_saved_by(first)
                    + credentials_saved_by(second.drop_last()).push(credentials));
            },
            None => {},
        }
    }
}

/// What two runs of the loop make of a component, one run can make of it: the
/// second run starts from the model that the first one leaves.
pub proof fn notifications_compose<C: Component + EventListener>(
    before: C,
    first: Seq<AppActionView>,
    between: C,
    second: Seq<AppActionView>,
    after: C,
    model: AppModelView,
)
    requires
        notified_all(before, first, model, between),
        notified_all(between, second, apply_all(model, first), after),
    ensures
        notified_all(before, first + second, model, after),
    decreases second.len(),
{
    if second.len() == 0 {
        assert(first + second =~= first);
    } else {
        let reached = apply_all(apply_all(model, first), second.drop_last());
        let earlier = choose|earlier: C|
            notified_all(between, second.drop_last(), apply_all(model, first), earlier)
                && #[trigger] notified(
                earlier,
                second.last(),
                derived_events(reached, second.last()),
                apply(reached, second.last()),
                after,
            );
        notifications_compose(before, first, between, second.drop_last(), earlier, model);
        runs_compose(model, first, second.drop_last());
        assert((first + second).drop_last() =~= first + second.drop_last());
        assert((first + second).last() == second.last());
    }
}

/// An action without a mutation rule is a no-op: the model is unchanged, no
/// event is derived and the credential store is asked nothing.
pub proof fn no_rule_no_change(model: AppModelView, action: AppActionView)
    requires
        !has_mutation_rule(action),
    ensures
        apply(model, action) == model,
        derived_events(model, action) == Seq::<AppEvent>::empty(),
        credentials_to_save(action) is None,
{
}

/// Where a remote operation returns two actions, the first is processed in
/// full before the second: the second is applied to the model that the first
/// one left, and each component has finished with the first, having read the
/// model as the first left it, before it is shown the second.
pub proof fn batch_of_two_in_order<C: Component + EventListener, E>(
    actions: Vec<AppAction>,
    model: AppModelView,
    before: C,
    after: C,
)
    requires
        actions@.len() == 2,
        notified_all(before, outcome_actions(Ok::<Vec<AppAction>, E>(actions)), model, after),
    ensures
        outcome_actions(Ok::<Vec<AppAction>, E>(actions)) == seq![actions@[0]@, actions@[1]@],
        apply_all(model, outcome_actions(Ok::<Vec<AppAction>, E>(actions))) == apply(
            apply(model, actions@[0]@),
            actions@[1]@,
        ),
        exists|between: C|
            #[trigger] notified(
                before,
                actions@[0]@,
                derived_events(model, actions@[0]@),
                apply(model, actions@[0]@),
                between,
            ) && notified(
                between,
                actions@[1]@,
                derived_events(apply(model, actions@[0]@), actions@[1]@),
                apply(apply(model, actions@[0]@), actions@[1]@),
                after,
            ),
{
    let first = actions@[0]@;
    let second = actions@[1]@;
    let both = outcome_actions(Ok::<Vec<AppAction>, E>(actions));
    assert(both =~= seq![first, second]);
    assert(both.drop_last() =~= seq![first]);
    single_action(model, first);
    let between = choose|between: C|
        notified_all(before, both.drop_last(), model, between) && #[trigger] notified(
            between,
            both.last(),
            derived_events(apply_all(model, both.drop_last()), both.last()),
            apply(apply_all(model, both.drop_last()), both.last()),
            after,
        );
    assert(seq![first].drop_last() =~= Seq::<AppActionView>::empty());
    let start = choose|start: C|
        notified_all(before, seq![first].drop_last(), model, start) && #[trigger] notified(
            start,
            first,
            derived_events(apply_all(model, seq![first].drop_last()), first),
            apply(apply_all(model, seq![first].drop_last()), first),
            between,
        );
    assert(start == before);
    assert(notified(before, first, derived_events(model, first), apply(model, first), between));
}

/// A remote operation that fails comes to exactly one action, `Error`, and
/// processing it changes nothing: the model stays as the pending actions
/// leave it, no event is derived and the credential store is asked nothing.
pub proof fn failure_changes_nothing<E>(
    failure: E,
    model: AppModelView,
    pending: Seq<AppActionView>,
)
    ensures
        outcome_actions(Err::<Vec<AppAction>, E>(failure)) == seq![AppActionView::Error],
        apply_all(model, pending + outcome_actions(Err::<Vec<AppAction>, E>(failure))) == apply_all(
            model,
            pending,
        ),
        credentials_saved_by(pending + outcome_actions(Err::<Vec<AppAction>, E>(failure)))
            == credentials_saved_by(pending),
        derived_events(apply_all(model, pending), AppActionView::Error) == Seq::<AppEvent>::empty(),
{
    assert(pending + seq![AppActionView::Error] =~= pending.push(AppActionView::Error));
    arrival_order(model, pending, AppActionView::Error);
}

/// Pausing twice is pausing once: after either, nothing plays, and the models
/// are the same.
pub proof fn pause_is_idempotent(model: AppModelView)
    ensures
        !apply(model, AppActionView::Pause).state.is_playing,
        apply(apply(model, AppActionView::Pause), AppActionView::Pause) == apply(
            model,
            AppActionView::Pause,
        ),
        apply_all(model, seq![AppActionView::Pause, AppActionView::Pause]) == apply(
            model,
            AppActionView::Pause,
        ),
{
    let twice = seq![AppActionView::Pause, AppActionView::Pause];
    assert(twice.drop_last() =~= seq![AppActionView::Pause]);
    single_action(model, AppActionView::Pause);
}

/// The credentials of a successful login are what the credential store is
/// asked to keep, and their token is installed whatever the store makes of
/// them: the mutation rule does not depend on the store.
pub proof fn login_installs_token(model: AppModelView, credentials: CredentialsView)
    ensures
        apply(model, AppActionView::LoginSuccess(credentials)).token == Some(credentials.token),
        apply(model, AppActionView::LoginSuccess(credentials)).state == model.state,
        credentials_to_save(AppActionView::LoginSuccess(credentials)) == Some(credentials),
{
}

} // verus!
