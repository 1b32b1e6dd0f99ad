//! The interface between the orchestrator and the components it owns.

use std::sync::Arc;
use vstd::prelude::*;
use crate::action::Action;
use crate::app_context::AppContext;
use crate::app_error::AppError;
use crate::component_name::ComponentName;
use crate::event::Event;
use crate::geometry::Rect;
use ratatui::Frame;
use tokio::sync::mpsc::UnboundedSender;

verus! {

/// ratatui's `Frame`: the surface that one drawing pass paints on. The
/// library hands it to the components and has it hashed, and never looks
/// inside.
#[verifier::external_type_specification]
#[verifier::external_body]
pub struct ExFrame<'a>(Frame<'a>);

/// tokio's `UnboundedSender`: a sending end of an unbounded channel. The
/// library stores one and hands clones of it to the components, and never
/// sends on it.
#[verifier::external_type_specification]
#[verifier::external_body]
#[verifier::reject_recursive_types(T)]
pub struct ExUnboundedSender<T>(UnboundedSender<T>);

/// A unit of the user interface: it can be created from the application
/// context, be handed the sending end of the action channel, handle an
/// event, react to an action, and draw itself into an area of a frame.
///
/// What a component does in any of these is its own business. Each
/// operation comes with a relation that names its effect, so that the
/// orchestrator's contracts can say which operation reached which
/// component with which arguments. A component that says nothing more of
/// itself leaves every relation at `true`.
pub trait Component: Sized {
    /// Whether `made` may come out of `build` with these arguments.
    open spec fn built(
        app_context: AppContext,
        name: ComponentName,
        title: Seq<char>,
        made: Self,
    ) -> bool {
        true
    }

    /// Whether registering `tx` may lead from this state to `next` with
    /// `outcome`.
    open spec fn registered(
        &self,
        tx: UnboundedSender<Action>,
        next: Self,
        outcome: Result<(), AppError>,
    ) -> bool {
        true
    }

    /// Whether handling `event` may lead from this state to `next` with
    /// `outcome`.
    open spec fn handled(
        &self,
        event: Option<Event>,
        next: Self,
        outcome: Result<Option<Action>, AppError>,
    ) -> bool {
        true
    }

    /// Whether `action` may lead from this state to `next`.
    open spec fn updated(&self, action: Action, next: Self) -> bool {
        true
    }

    /// Whether being told that the area is small, or not, may lead from
    /// this state to `next`.
    open spec fn small_area_set(&self, small: bool, next: Self) -> bool {
        true
    }

    /// Whether drawing into `area` may lead from this state and the frame
    /// `before` to `next` and the frame `after` with `outcome`.
    open spec fn drawn(
        &self,
        before: Frame<'_>,
        area: Rect,
        next: Self,
        after: Frame<'_>,
        outcome: Result<(), AppError>,
    ) -> bool {
        true
    }

    /// Creates the component that is registered under `name`, with the
    /// given title, from the shared application context.
    fn build(app_context: Arc<AppContext>, name: ComponentName, title: &str) -> (made: Self)
        ensures
            Self::built(*app_context, name, title@, made),
    ;

    /// Hands the component a sending end of the action channel.
    fn register_action_handler(&mut self, tx: UnboundedSender<Action>) -> (outcome: Result<
        (),
        AppError,
    >)
        ensures
            old(self).registered(tx, *final(self), outcome),
    ;

    /// Lets the component handle an event; it may answer with an action.
    fn handle_events(&mut self, event: Option<Event>) -> (outcome: Result<Option<Action>, AppError>)
        ensures
            old(self).handled(event, *final(self), outcome),
    ;

    /// Lets the component react to an action.
    fn update(&mut self, action: Action)
        ensures
            old(self).updated(action, *final(self)),
    ;

    /// Tells the component whether the area is below the width of the
    /// compact rendering.
    fn with_small_area(&mut self, small: bool)
        ensures
            old(self).small_area_set(small, *final(self)),
    ;

    /// Lets the component draw itself into `area` of the frame.
    fn draw(&mut self, frame: &mut Frame<'_>, area: Rect) -> (outcome: Result<(), AppError>)
        ensures
            old(self).drawn(*old(frame), area, *final(self), *final(frame), outcome),
    ;
}

} // verus!
