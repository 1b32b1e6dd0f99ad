//! The orchestrator: it owns one component under each name, routes events
//! and actions to them, and drives the drawing pass.

use std::collections::hash_map::DefaultHasher;
use std::hash::{Hash, Hasher};
use std::sync::Arc;
use vstd::prelude::*;
use vstd::std_specs::hash::DefaultHasherAdditionalSpecFns;
use crate::action::Action;
use crate::app_context::AppContext;
use crate::app_error::AppError;
use crate::component::Component;
use crate::component_name::ComponentName;
use crate::event::Event;
use crate::geometry::Rect;
use crate::layout::{
    band_request, is_small_area, request_bands, small_area, spans_width, split_vertically,
    BandRequest,
};
use ratatui::Frame;
use tokio::sync::mpsc::UnboundedSender;

verus! {

/// The bytes that hashing a frame feeds to a hasher, as the writes that
/// the frame's `Hash` impl makes, in order.
pub uninterp spec fn frame_hash_input(frame: Frame<'_>) -> Seq<Seq<u8>>;

/// The digest of a frame's content: what a fresh `DefaultHasher` returns
/// once the frame has been hashed into it.
pub open spec fn frame_digest(frame: Frame<'_>) -> u64 {
    DefaultHasher::spec_finish(frame_hash_input(frame))
}

/// Hashes a frame into a hasher.
///
/// Trusted: this is `Hash::hash` as ratatui derives it for `Frame`. It
/// feeds the hasher the frame's cursor position, viewport area, buffer
/// and frame count, so what it writes depends on the frame alone, and it
/// comes after whatever the hasher was fed before.
#[verifier::external_body]
fn hash_frame_into(frame: &Frame<'_>, state: &mut DefaultHasher)
    ensures
        final(state)@ == old(state)@ + frame_hash_input(*frame),
{
    frame.hash(state)
}

/// Another sending end of the same channel.
///
/// Trusted: this is `UnboundedSender::clone` of tokio, which returns a
/// handle to the channel that `tx` sends to. The two handles are taken as
/// equal: nothing tells them apart but which of them is dropped first.
#[verifier::external_body]
fn clone_sender(tx: &UnboundedSender<Action>) -> (copy: UnboundedSender<Action>)
    ensures
        copy == *tx,
{
    tx.clone()
}

/// Another pointer to the same context.
///
/// Trusted: this is `Arc::clone` of the standard library, which returns
/// another pointer to the same allocation, and so to the same value.
#[verifier::external_body]
fn share_context(app_context: &Arc<AppContext>) -> (shared: Arc<AppContext>)
    ensures
        shared == *app_context,
{
    Arc::clone(app_context)
}

/// The digest of a frame's content.
pub fn digest_frame(frame: &Frame<'_>) -> (digest: u64)
    ensures
        digest == frame_digest(*frame),
{
    let mut state = DefaultHasher::new();
    hash_frame_into(frame, &mut state);
    state.finish()
}

/// A success that carries nothing is the one value `Ok(())`.
proof fn lemma_success_is_unit(outcome: Result<(), AppError>)
    requires
        outcome is Ok,
    ensures
        outcome == Ok::<(), AppError>(()),
{
    assert(outcome->Ok_0 == ());
}

/// The user interface as a whole: the components that make it up, one
/// under each name, and what the orchestrator remembers between calls.
pub struct Tui<C: Component> {
    app_context: Arc<AppContext>,
    action_tx: Option<UnboundedSender<Action>>,
    title_bar: C,
    core_window: C,
    status_bar: C,
    hash_frame: Option<u64>,
}

/// What an orchestrator is, to its contracts.
pub struct TuiView<C> {
    /// The shared application context.
    pub app_context: AppContext,
    /// The sending end of the action channel, once one was registered.
    pub action_tx: Option<UnboundedSender<Action>>,
    /// The component registered as `TitleBar`.
    pub title_bar: C,
    /// The component registered as `CoreWindow`; it alone sees events.
    pub core_window: C,
    /// The component registered as `StatusBar`.
    pub status_bar: C,
    /// The digest of the frame as the last completed drawing pass left it.
    pub hash_frame: Option<u64>,
}

impl<C: Component> View for Tui<C> {
    type V = TuiView<C>;

    closed spec fn view(&self) -> TuiView<C> {
        TuiView {
            app_context: *self.app_context,
            action_tx: self.action_tx,
            title_bar: self.title_bar,
            core_window: self.core_window,
            status_bar: self.status_bar,
            hash_frame: self.hash_frame,
        }
    }
}

impl<C: Component> TuiView<C> {
    /// The component registered under `name`.
    pub open spec fn component(self, name: ComponentName) -> C {
        match name {
            ComponentName::TitleBar => self.title_bar,
            ComponentName::CoreWindow => self.core_window,
            ComponentName::StatusBar => self.status_bar,
        }
    }

    /// This orchestrator with other components in place of its own.
    pub open spec fn with_components(self, title_bar: C, core_window: C, status_bar: C) -> Self {
        TuiView { title_bar, core_window, status_bar, ..self }
    }

    /// What `new` returns for a context: a component built under each
    /// name with that name's title, no sender, no digest.
    pub open spec fn is_new(self, app_context: AppContext) -> bool {
        &&& self.app_context == app_context
        &&& self.action_tx is None
        &&& self.hash_frame is None
        &&& C::built(
            app_context,
            ComponentName::TitleBar,
            crate::component_name::component_title(ComponentName::TitleBar),
            self.title_bar,
        )
        &&& C::built(
            app_context,
            ComponentName::CoreWindow,
            crate::component_name::component_title(ComponentName::CoreWindow),
            self.core_window,
        )
        &&& C::built(
            app_context,
            ComponentName::StatusBar,
            crate::component_name::component_title(ComponentName::StatusBar),
            self.status_bar,
        )
    }

    /// What `register_action_handler` does: the sender is stored, and the
    /// components are handed it in the order of registration until one of
    /// them fails, whose error is the outcome; the components after that
    /// one are left as they were.
    pub open spec fn registers(
        self,
        tx: UnboundedSender<Action>,
        next: Self,
        outcome: Result<(), AppError>,
    ) -> bool {
        &&& next.app_context == self.app_context
        &&& next.action_tx == Some(tx)
        &&& next.hash_frame == self.hash_frame
        &&& {
            ||| {
                &&& outcome is Err
                &&& self.title_bar.registered(tx, next.title_bar, outcome)
                &&& next.core_window == self.core_window
                &&& next.status_bar == self.status_bar
            }
            ||| {
                &&& outcome is Err
                &&& self.title_bar.registered(tx, next.title_bar, Ok(()))
                &&& self.core_window.registered(tx, next.core_window, outcome)
                &&& next.status_bar == self.status_bar
            }
            ||| {
                &&& self.title_bar.registered(tx, next.title_bar, Ok(()))
                &&& self.core_window.registered(tx, next.core_window, Ok(()))
                &&& self.status_bar.registered(tx, next.status_bar, outcome)
            }
        }
    }

    /// What `handle_events` does: the component registered as
    /// `CoreWindow` handles the event, and its outcome is the outcome;
    /// nothing else changes.
    pub open spec fn handles(
        self,
        event: Option<Event>,
        next: Self,
        outcome: Result<Option<Action>, AppError>,
    ) -> bool {
        &&& self.core_window.handled(event, next.core_window, outcome)
        &&& next == self.with_components(self.title_bar, next.core_window, self.status_bar)
    }

    /// What `update` does: each component reacts to the action, once;
    /// nothing else changes.
    pub open spec fn updates(self, action: Action, next: Self) -> bool {
        &&& self.title_bar.updated(action, next.title_bar)
        &&& self.core_window.updated(action, next.core_window)
        &&& self.status_bar.updated(action, next.status_bar)
        &&& next == self.with_components(next.title_bar, next.core_window, next.status_bar)
    }

    /// Whether a drawing pass on `frame` is skipped: the frame's digest is
    /// the one that the last completed pass left.
    pub open spec fn skips(self, frame: Frame<'_>) -> bool {
        self.hash_frame == Some(frame_digest(frame))
    }

    /// What opens a drawing pass that is not skipped: the component
    /// registered as `StatusBar` reacts to `UpdateArea` with the area, and
    /// the one registered as `CoreWindow` is told whether the area is
    /// small; nothing else changes.
    pub open spec fn announces(self, area: Rect, next: Self) -> bool {
        &&& self.status_bar.updated(Action::UpdateArea(area), next.status_bar)
        &&& self.core_window.small_area_set(is_small_area(area), next.core_window)
        &&& next == self.with_components(self.title_bar, next.core_window, next.status_bar)
    }

    /// How the bands of a pass are drawn: the components draw themselves in the
    /// order of registration, the first into `header`, the second into
    /// `body`, the third into `footer`, each on the frame as the one
    /// before left it, until one of them fails, whose error is the
    /// outcome; the components after that one are left as they were.
    pub open spec fn draws_bands<'a>(
        self,
        before: Frame<'a>,
        header: Rect,
        body: Rect,
        footer: Rect,
        next: Self,
        after: Frame<'a>,
        outcome: Result<(), AppError>,
    ) -> bool {
        &&& next == self.with_components(next.title_bar, next.core_window, next.status_bar)
        &&& {
            ||| {
                &&& outcome is Err
                &&& self.title_bar.drawn(before, header, next.title_bar, after, outcome)
                &&& next.core_window == self.core_window
                &&& next.status_bar == self.status_bar
            }
            ||| {
                &&& outcome is Err
                &&& next.status_bar == self.status_bar
                &&& exists|second: Frame<'a>|
                    {
                        &&& #[trigger] self.title_bar.drawn(
                            before,
                            header,
                            next.title_bar,
                            second,
                            Ok(()),
                        )
                        &&& self.core_window.drawn(second, body, next.core_window, after, outcome)
                    }
            }
            ||| exists|second: Frame<'a>, third: Frame<'a>|
                {
                    &&& #[trigger] self.title_bar.drawn(
                        before,
                        header,
                        next.title_bar,
                        second,
                        Ok(()),
                    )
                    &&& #[trigger] self.core_window.drawn(
                        second,
                        body,
                        next.core_window,
                        third,
                        Ok(()),
                    )
                    &&& self.status_bar.drawn(third, footer, next.status_bar, after, outcome)
                }
        }
    }

    /// What `render` does: the pass is announced, the bands are drawn,
    /// and where that succeeds the digest of the frame as it is then is
    /// stored.
    pub open spec fn renders<'a>(
        self,
        before: Frame<'a>,
        area: Rect,
        header: Rect,
        body: Rect,
        footer: Rect,
        next: Self,
        after: Frame<'a>,
        outcome: Result<(), AppError>,
    ) -> bool {
        exists|announced: Self, drawn: Self|
            {
                &&& #[trigger] self.announces(area, announced)
                &&& #[trigger] announced.draws_bands(
                    before,
                    header,
                    body,
                    footer,
                    drawn,
                    after,
                    outcome,
                )
                &&& next == if outcome is Ok {
                    TuiView { hash_frame: Some(frame_digest(after)), ..drawn }
                } else {
                    drawn
                }
            }
    }

    /// What `draw` does. Where the frame's digest is the one that the last
    /// completed pass left, nothing at all happens and the outcome is
    /// success. Otherwise the pass renders into three bands that span the
    /// width of the area: those that the layout solver returned for it.
    pub open spec fn draws<'a>(
        self,
        before: Frame<'a>,
        area: Rect,
        next: Self,
        after: Frame<'a>,
        outcome: Result<(), AppError>,
    ) -> bool {
        if self.skips(before) {
            outcome is Ok && next == self && after == before
        } else {
            exists|bands: Seq<Rect>|
                {
                    &&& #[trigger] spans_width(area, bands)
                    &&& self.renders(
                        before,
                        area,
                        bands[0],
                        bands[1],
                        bands[2],
                        next,
                        after,
                        outcome,
                    )
                }
        }
    }
}

impl<C: Component> Tui<C> {
    /// Creates the orchestrator and its three components from the shared
    /// application context.
    pub fn new(app_context: Arc<AppContext>) -> (tui: Self)
        ensures
            tui@.is_new(*app_context),
    {
        let title_bar = C::build(
            share_context(&app_context),
            ComponentName::TitleBar,
            ComponentName::TitleBar.title(),
        );
        let core_window = C::build(
            share_context(&app_context),
            ComponentName::CoreWindow,
            ComponentName::CoreWindow.title(),
        );
        let status_bar = C::build(
            share_context(&app_context),
            ComponentName::StatusBar,
            ComponentName::StatusBar.title(),
        );
        Tui { app_context, action_tx: None, title_bar, core_window, status_bar, hash_frame: None }
    }

    /// The component registered under `name`.
    pub fn component(&self, name: ComponentName) -> (component: &C)
        ensures
            *component == self@.component(name),
    {
        match name {
            ComponentName::TitleBar => &self.title_bar,
            ComponentName::CoreWindow => &self.core_window,
            ComponentName::StatusBar => &self.status_bar,
        }
    }

    /// The digest of the frame as the last completed drawing pass left it.
    pub fn hash_frame(&self) -> (digest: Option<u64>)
        ensures
            digest == self@.hash_frame,
    {
        self.hash_frame
    }

    /// What the layout pass asks of the solver for `area`, under the two
    /// visibility flags of the application context.
    pub fn band_request(&self, area: Rect) -> (request: BandRequest)
        ensures
            request == band_request(
                self@.app_context.config().show_title_bar,
                self@.app_context.config().show_status_bar,
                area,
            ),
    {
        let config = self.app_context.app_config();
        request_bands(config.show_title_bar, config.show_status_bar, area)
    }

    /// Stores the sending end of the action channel and hands a clone of
    /// it to each component, in the order of registration. The first
    /// failure ends the call and is returned.
    pub fn register_action_handler(&mut self, tx: UnboundedSender<Action>) -> (outcome: Result<
        (),
        AppError,
    >)
        ensures
            old(self)@.registers(tx, final(self)@, outcome),
    {
        self.action_tx = Some(clone_sender(&tx));
        let first = self.title_bar.register_action_handler(clone_sender(&tx));
        if first.is_err() {
            return first;
        }
        proof {
            lemma_success_is_unit(first);
        }
        let second = self.core_window.register_action_handler(clone_sender(&tx));
        if second.is_err() {
            return second;
        }
        proof {
            lemma_success_is_unit(second);
        }
        self.status_bar.register_action_handler(tx)
    }

    /// Routes an event to the component registered as `CoreWindow`, and to
    /// no other, and returns what that component returns.
    pub fn handle_events(&mut self, event: Option<Event>) -> (outcome: Result<
        Option<Action>,
        AppError,
    >)
        ensures
            old(self)@.handles(event, final(self)@, outcome),
    {
        self.core_window.handle_events(event)
    }

    /// Broadcasts an action to every component, in the order of
    /// registration.
    pub fn update(&mut self, action: Action)
        ensures
            old(self)@.updates(action, final(self)@),
    {
        self.title_bar.update(action.clone());
        self.core_window.update(action.clone());
        self.status_bar.update(action);
    }

    /// Draws the three components into the three bands, in the order of
    /// registration. The first failure ends the call and is returned.
    fn draw_bands(
        &mut self,
        frame: &mut Frame<'_>,
        header: Rect,
        body: Rect,
        footer: Rect,
    ) -> (outcome: Result<(), AppError>)
        ensures
            old(self)@.draws_bands(
                *old(frame),
                header,
                body,
                footer,
                final(self)@,
                *final(frame),
                outcome,
            ),
    {
        let first = self.title_bar.draw(frame, header);
        if first.is_err() {
            return first;
        }
        proof {
            lemma_success_is_unit(first);
        }
        let ghost after_header = *frame;
        let second = self.core_window.draw(frame, body);
        if second.is_err() {
            return second;
        }
        proof {
            lemma_success_is_unit(second);
        }
        let ghost after_body = *frame;
        let third = self.status_bar.draw(frame, footer);
        proof {
            let before = old(self)@;
            let next = self@;
            assert(before.title_bar.drawn(
                *old(frame),
                header,
                next.title_bar,
                after_header,
                Ok(()),
            ));
            assert(before.core_window.drawn(
                after_header,
                body,
                next.core_window,
                after_body,
                Ok(()),
            ));
        }
        third
    }

    /// One drawing pass into three given bands of `area`, whatever the
    /// frame holds. The component registered as `StatusBar` is told the
    /// area and the one registered as `CoreWindow` whether it is small;
    /// then the components draw themselves, in the order of registration,
    /// into `header`, `body` and `footer`. The first failure ends the pass
    /// and is returned; a pass that succeeds stores the frame's digest.
    pub fn render(
        &mut self,
        frame: &mut Frame<'_>,
        area: Rect,
        header: Rect,
        body: Rect,
        footer: Rect,
    ) -> (outcome: Result<(), AppError>)
        ensures
            old(self)@.renders(
                *old(frame),
                area,
                header,
                body,
                footer,
                final(self)@,
                *final(frame),
                outcome,
            ),
    {
        self.status_bar.update(Action::UpdateArea(area));
        self.core_window.with_small_area(small_area(area));
        let ghost announced = self@;
        let outcome = self.draw_bands(frame, header, body, footer);
        let ghost drawn = self@;
        if outcome.is_ok() {
            self.hash_frame = Some(digest_frame(frame));
        }
        proof {
            assert(old(self)@.announces(area, announced));
            assert(announced.draws_bands(
                *old(frame),
                header,
                body,
                footer,
                drawn,
                *frame,
                outcome,
            ));
        }
        outcome
    }

    /// Renders the user interface into `area` of the frame, unless the
    /// frame is as the last completed pass left it. The area is split top
    /// to bottom into a header, a body and a footer band by the layout
    /// solver, under the request that `band_request` gives for it.
    pub fn draw(&mut self, frame: &mut Frame<'_>, area: Rect) -> (outcome: Result<(), AppError>)
        ensures
            old(self)@.draws(*old(frame), area, final(self)@, *final(frame), outcome),
    {
        if let Some(current_hash) = self.hash_frame {
            if current_hash == digest_frame(frame) {
                return Ok(());
            }
        }
        let bands = split_vertically(area, self.band_request(area));
        self.render(frame, area, bands[0], bands[1], bands[2])
    }
}

/// Two drawing passes in a row on the same frame content: where the first
/// succeeds and the frame it left is handed to the second unchanged, the
/// second succeeds and changes neither a component nor the frame.
pub proof fn law_unchanged_frame_is_skipped<'a, C: Component>(
    first: TuiView<C>,
    before: Frame<'a>,
    area: Rect,
    second: TuiView<C>,
    between: Frame<'a>,
    again: Rect,
    third: TuiView<C>,
    after: Frame<'a>,
    outcome: Result<(), AppError>,
)
    requires
        first.draws(before, area, second, between, Ok(())),
        second.draws(between, again, third, after, outcome),
    ensures
        outcome is Ok,
        third == second,
        after == between,
{
}

} // verus!
