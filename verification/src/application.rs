//! The overarching application driver.
//!
//! The application owns the ordered scene set and the active-scene selector,
//! and decides what happens on every platform event and after every render
//! attempt. The platform window, the event loop and the render backend are
//! external collaborators: the loop hands their events in as plain values and
//! carries the decisions made here back out.

pub mod config;

use vstd::prelude::*;

use crate::application::config::AppConfig;
use crate::ecs::component::ComponentId;
use crate::ecs::component::ComponentType;
use crate::ecs::scene::Scene;

verus! {

/// The closed set of platform events the application reacts to.
#[derive(Clone, Copy, Debug, PartialEq, Eq, Structural)]
pub enum PlatformEvent {
    /// The user asked to close the window.
    CloseRequested,
    /// The escape key was pressed.
    EscapePressed,
    /// The window was resized to a new physical size.
    Resized(u32, u32),
    /// The display scale factor changed, with the new physical size.
    ScaleFactorChanged(u32, u32),
    /// The platform asked for a redraw.
    RedrawRequested,
    /// All pending platform events have been handled.
    MainEventsCleared,
    /// Any event the application does not react to.
    Other,
}

/// What the event loop must do in reaction to one platform event.
#[derive(Clone, Copy, Debug, PartialEq, Eq, Structural)]
pub enum LoopAction {
    /// Terminate the application loop.
    Exit,
    /// Resize the render surface to the given physical size.
    Resize(u32, u32),
    /// Run one frame: the update pass, then the render pass.
    RunFrame,
    /// Ask the platform for another redraw.
    RequestRedraw,
    /// Do nothing.
    Ignore,
}

/// How one render attempt ended, as reported by the render backend.
#[derive(Clone, Copy, Debug, PartialEq, Eq, Structural)]
pub enum RenderOutcome {
    /// The frame was presented.
    Completed,
    /// The output surface was lost and must be reconfigured.
    SurfaceLost,
    /// The output surface is outdated; the next frame resolves it.
    SurfaceOutdated,
    /// The frame timed out; the next frame resolves it.
    Timeout,
    /// The backend ran out of memory.
    OutOfMemory,
}

/// What the frame driver must do after one render attempt.
#[derive(Clone, Copy, Debug, PartialEq, Eq, Structural)]
pub enum FrameDirective {
    /// Keep looping; nothing to mend.
    Continue,
    /// Reconfigure the render surface at its current size, then keep looping.
    Reconfigure,
    /// Terminate the application loop.
    Exit,
}

/// The reaction owed to each platform event: close requests and the escape
/// key terminate the loop, size changes resize the surface, a redraw request
/// runs a frame, and the end of an event batch requests the next redraw.
pub open spec fn spec_dispatch_event(event: PlatformEvent) -> LoopAction {
    match event {
        PlatformEvent::CloseRequested => LoopAction::Exit,
        PlatformEvent::EscapePressed => LoopAction::Exit,
        PlatformEvent::Resized(w, h) => LoopAction::Resize(w, h),
        PlatformEvent::ScaleFactorChanged(w, h) => LoopAction::Resize(w, h),
        PlatformEvent::RedrawRequested => LoopAction::RunFrame,
        PlatformEvent::MainEventsCleared => LoopAction::RequestRedraw,
        PlatformEvent::Other => LoopAction::Ignore,
    }
}

/// Decides what the event loop does with one platform event.
pub fn dispatch_event(event: &PlatformEvent) -> (a: LoopAction)
    ensures
        a == spec_dispatch_event(*event),
{
    match event {
        PlatformEvent::CloseRequested => LoopAction::Exit,
        PlatformEvent::EscapePressed => LoopAction::Exit,
        PlatformEvent::Resized(w, h) => LoopAction::Resize(*w, *h),
        PlatformEvent::ScaleFactorChanged(w, h) => LoopAction::Resize(*w, *h),
        PlatformEvent::RedrawRequested => LoopAction::RunFrame,
        PlatformEvent::MainEventsCleared => LoopAction::RequestRedraw,
        PlatformEvent::Other => LoopAction::Ignore,
    }
}

/// The reaction owed to each render outcome: a lost surface is reconfigured
/// and the loop continues; memory exhaustion terminates the loop in an
/// orderly way; an outdated surface or a timeout is left to resolve itself by
/// the next frame.
pub open spec fn spec_handle_render_outcome(outcome: RenderOutcome) -> FrameDirective {
    match outcome {
        RenderOutcome::Completed => FrameDirective::Continue,
        RenderOutcome::SurfaceLost => FrameDirective::Reconfigure,
        RenderOutcome::SurfaceOutdated => FrameDirective::Continue,
        RenderOutcome::Timeout => FrameDirective::Continue,
        RenderOutcome::OutOfMemory => FrameDirective::Exit,
    }
}

/// Decides what the frame driver does after one render attempt. A recoverable
/// backend condition is mended and the loop continues; a non-recoverable one
/// terminates the loop.
pub fn handle_render_outcome(outcome: &RenderOutcome) -> (d: FrameDirective)
    ensures
        d == spec_handle_render_outcome(*outcome),
{
    match outcome {
        RenderOutcome::Completed => FrameDirective::Continue,
        RenderOutcome::SurfaceLost => FrameDirective::Reconfigure,
        RenderOutcome::SurfaceOutdated => FrameDirective::Continue,
        RenderOutcome::Timeout => FrameDirective::Continue,
        RenderOutcome::OutOfMemory => FrameDirective::Exit,
    }
}

/// The application core: the ordered, owning scene set and the active-scene
/// selector. The window, the event loop and the render backend live outside.
pub struct Application {
    /// The configuration the application was built with.
    config: AppConfig,
    /// The index of the active scene. Must always index a valid element:
    /// an out-of-range value can only arise from an internal bookkeeping
    /// defect and is detected fatally by active-scene resolution, never
    /// clamped and never reported as a recoverable error.
    active_scene_index: usize,
    /// We will always have scenes in our application: construction creates
    /// the default scene before the application exists.
    scenes: Vec<Scene>,
}

impl Application {
    /// The configuration the application was built with.
    pub closed spec fn spec_config(&self) -> AppConfig {
        self.config
    }

    /// The index of the active scene.
    pub closed spec fn spec_active_index(&self) -> usize {
        self.active_scene_index
    }

    /// The owned scene set, in order.
    pub closed spec fn spec_scenes(&self) -> Seq<Scene> {
        self.scenes@
    }

    /// Whether the active-scene selector indexes a valid element.
    pub open spec fn spec_index_in_range(&self) -> bool {
        self.spec_active_index() < self.spec_scenes().len()
    }

    /// Creates a new application with a config. One default scene named
    /// "main" is created up front and selected, so the scene set is never
    /// empty.
    pub fn new(config: AppConfig) -> (app: Self)
        ensures
            app.spec_config() == config,
            app.spec_active_index() == 0,
            app.spec_scenes().len() == 1,
            app.spec_index_in_range(),
            app.spec_scenes()[0].wf(),
            app.spec_scenes()[0].spec_name() == "main"@,
            app.spec_scenes()[0].spec_entities() == Seq::<Option<
                crate::ecs::entity::Entity,
            >>::empty(),
            app.spec_scenes()[0].spec_components() == Seq::<Option<
                crate::ecs::component::AnyComponent,
            >>::empty(),
    {
        let mut scenes: Vec<Scene> = Vec::new();
        scenes.push(Scene::new("main"));
        Self { config, active_scene_index: 0, scenes }
    }

    /// Gets the configuration the application was built with.
    pub fn get_config(&self) -> (c: &AppConfig)
        ensures
            *c == self.spec_config(),
    {
        &self.config
    }

    /// Gets the index of the active scene.
    pub fn get_active_scene_index(&self) -> (i: usize)
        ensures
            i == self.spec_active_index(),
    {
        self.active_scene_index
    }

    /// Selects another scene by index. The index is stored exactly as given,
    /// never clamped: switching to an out-of-range index is an internal
    /// defect that active-scene resolution detects fatally.
    pub fn set_active_scene_index(&mut self, index: usize)
        ensures
            final(self).spec_config() == old(self).spec_config(),
            final(self).spec_scenes() == old(self).spec_scenes(),
            final(self).spec_active_index() == index,
    {
        self.active_scene_index = index;
    }

    /// Whether the active-scene selector currently resolves. A `false` here
    /// means internal bookkeeping went wrong; callers must treat it as
    /// fatal.
    pub fn active_index_in_range(&self) -> (r: bool)
        ensures
            r == self.spec_index_in_range(),
    {
        self.active_scene_index < self.scenes.len()
    }

    /// Get a reference to the active scene. Resolving an out-of-range
    /// selector is an unrecoverable internal defect, so validity is demanded
    /// up front.
    pub fn get_active_scene(&self) -> (s: &Scene)
        requires
            self.spec_index_in_range(),
        ensures
            *s == self.spec_scenes()[self.spec_active_index() as int],
    {
        &self.scenes[self.active_scene_index]
    }

    /// Checked active-scene resolution: returns the active scene, or `None`
    /// exactly when the selector is out of range. The `None` case is the
    /// detection point for a fatal bookkeeping defect; it is never a
    /// recoverable condition, and the index is never clamped to mask it.
    pub fn try_get_active_scene(&self) -> (r: Option<&Scene>)
        ensures
            match r {
                Some(s) => self.spec_index_in_range() && *s == self.spec_scenes()[
                    self.spec_active_index() as int
                ],
                None => !self.spec_index_in_range(),
            },
    {
        if self.active_scene_index < self.scenes.len() {
            Some(&self.scenes[self.active_scene_index])
        } else {
            None
        }
    }

    /// Gets a mutable reference to the active scene.
    pub fn get_mut_active_scene(&mut self) -> (s: &mut Scene)
        requires
            old(self).spec_index_in_range(),
        ensures
            *s == old(self).spec_scenes()[old(self).spec_active_index() as int],
            final(self).spec_config() == old(self).spec_config(),
            final(self).spec_active_index() == old(self).spec_active_index(),
            final(self).spec_scenes() == old(self).spec_scenes().update(
                old(self).spec_active_index() as int,
                *final(s),
            ),
    {
        &mut self.scenes[self.active_scene_index]
    }

    /// Handle an input event. No input is consumed by the core yet, so the
    /// application is left unchanged and the event is reported unhandled.
    pub fn input(&mut self, _event: &PlatformEvent) -> (consumed: bool)
        ensures
            *final(self) == *old(self),
            !consumed,
    {
        false
    }

    /// Runs the per-frame update pass over the active scene: every live
    /// component's `on_update` hook runs once, in insertion order. Returns
    /// the component handles in the order they were visited.
    pub fn update(&mut self) -> (order: Vec<ComponentId>)
        requires
            old(self).spec_index_in_range(),
        ensures
            final(self).spec_config() == old(self).spec_config(),
            final(self).spec_active_index() == old(self).spec_active_index(),
            final(self).spec_scenes().len() == old(self).spec_scenes().len(),
            forall|j: int|
                0 <= j < old(self).spec_scenes().len() && j != old(self).spec_active_index()
                    ==> final(self).spec_scenes()[j] == old(self).spec_scenes()[j],
            ({
                let idx = old(self).spec_active_index() as int;
                let s_old = old(self).spec_scenes()[idx];
                let s_new = final(self).spec_scenes()[idx];
                &&& s_new.spec_id() == s_old.spec_id()
                &&& s_new.spec_name() == s_old.spec_name()
                &&& s_new.spec_entities() == s_old.spec_entities()
                &&& s_new.spec_components() == s_old.spec_components()
                &&& s_new.wf() == s_old.wf()
                &&& order@ == s_old.spec_update_order()
            }),
    {
        let scene = &mut self.scenes[self.active_scene_index];
        scene.update()
    }

    /// Runs one frame tick, as driven by a platform redraw event: first the
    /// update pass over the active scene, in insertion order, then the
    /// selection of the render pass's working set. Returns the update order
    /// and the handles of the mesh components the render pass must draw, in
    /// insertion order. The render pass observes the component arena exactly
    /// as the update pass left it.
    pub fn frame_tick(&mut self) -> (r: (Vec<ComponentId>, Vec<ComponentId>))
        requires
            old(self).spec_index_in_range(),
        ensures
            final(self).spec_config() == old(self).spec_config(),
            final(self).spec_active_index() == old(self).spec_active_index(),
            final(self).spec_scenes().len() == old(self).spec_scenes().len(),
            forall|j: int|
                0 <= j < old(self).spec_scenes().len() && j != old(self).spec_active_index()
                    ==> final(self).spec_scenes()[j] == old(self).spec_scenes()[j],
            ({
                let idx = old(self).spec_active_index() as int;
                let s_old = old(self).spec_scenes()[idx];
                let s_new = final(self).spec_scenes()[idx];
                &&& s_new.spec_id() == s_old.spec_id()
                &&& s_new.spec_name() == s_old.spec_name()
                &&& s_new.spec_entities() == s_old.spec_entities()
                &&& s_new.spec_components() == s_old.spec_components()
                &&& s_new.wf() == s_old.wf()
                &&& r.0@ == s_old.spec_update_order()
                &&& r.1@ == s_old.spec_components_of_type(ComponentType::Mesh)
            }),
    {
        let order = self.update();
        let meshes = self.get_active_scene().components_of_type(ComponentType::Mesh);
        (order, meshes)
    }
}

} // verus!
