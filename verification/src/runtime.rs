use crate::input::{buttons_at_next_frame, keys_at_next_frame, InputManager, InputMap, KeyCode, KeyboardKeyState};
use crate::render_pipeline::{BatchView, RenderBatchItem, RenderPipeline};
use crate::resources::{hands_back, holds_resources, ResourceManager};
use crate::scene_loader::{LoadedScene, PreviousScene};
use crate::scenes::SceneInstance;
use crate::templates::SceneTemplate;
use vstd::prelude::*;

verus! {

/// A render step with nothing to configure yet.
pub struct TestRenderStep {}

/// What a game sees each frame: the active scene, its resources and the input.
pub struct RuntimeContext<C> {
    pub active_scene: SceneInstance<C>,
    resource_manager: ResourceManager,
    pub input_manager: InputManager,
}

/// Something the window system reported, reduced to what the runtime reads of it.
pub enum RuntimeEvent {
    /// A key went down (`pressed`) or up; `key` is `None` for a key the
    /// platform could not identify.
    KeyboardInput { key: Option<KeyCode>, pressed: bool },
    CloseRequested,
    /// Every pending event was handled: time to run a frame.
    AboutToWait,
    /// Any other event; the runtime ignores it.
    Other,
}

/// What the event loop does next.
#[derive(Clone, Copy, PartialEq, Eq, Structural, Debug)]
pub enum RuntimeAction {
    Continue,
    Exit,
    /// Update the game, render the active scene, swap the buffers and end the frame.
    RunFrame,
}

/// The keys after `key` went down (`pressed`) or up: a tracked key takes the
/// event, an untracked one is ignored.
pub open spec fn keys_after(keys: Map<KeyCode, KeyboardKeyState>, key: KeyCode, pressed: bool) -> Map<
    KeyCode,
    KeyboardKeyState,
> {
    if keys.contains_key(key) {
        keys.insert(key, keys[key].after_event(pressed))
    } else {
        keys
    }
}

/// The batches of a frame that is over: each kept, with no items.
pub open spec fn emptied(batches: Map<u32, BatchView>) -> Map<u32, BatchView> {
    batches.map_values(|b: BatchView| (b.0, Seq::<RenderBatchItem>::empty()))
}

/// A key pressed (or released) through the event loop reads as held (or up)
/// for the rest of the frame with that edge recorded, and once the frame has
/// ended it is still held (or up) with no edge; other keys are untouched, and
/// a key that is not tracked changes nothing.
pub proof fn law_key_event_through_frame(
    keys: Map<KeyCode, KeyboardKeyState>,
    key: KeyCode,
    pressed: bool,
)
    ensures
        !keys.contains_key(key) ==> keys_after(keys, key, pressed) == keys,
        keys.contains_key(key) ==> {
            &&& keys_after(keys, key, pressed)[key].is_down == pressed
            &&& pressed ==> keys_after(keys, key, pressed)[key].down_this_frame
            &&& !pressed ==> keys_after(keys, key, pressed)[key].up_this_frame
            &&& keys_at_next_frame(keys_after(keys, key, pressed))[key] == (KeyboardKeyState {
                key_code: keys[key].key_code,
                is_down: pressed,
                down_this_frame: false,
                up_this_frame: false,
            })
        },
        forall|other: KeyCode|
            other != key ==> (#[trigger] keys_after(keys, key, pressed).contains_key(other)
                == keys.contains_key(other)) && (keys.contains_key(other) ==> keys_after(
                keys,
                key,
                pressed,
            )[other] == keys[other]),
{
    if keys.contains_key(key) {
        assert(keys_after(keys, key, pressed).contains_key(key));
    }
}

impl<C> RuntimeContext<C> {
    pub closed spec fn spec_resource_manager(&self) -> ResourceManager {
        self.resource_manager
    }

    pub closed spec fn spec_active_scene(&self) -> SceneInstance<C> {
        self.active_scene
    }

    pub closed spec fn spec_input_manager(&self) -> InputManager {
        self.input_manager
    }

    /// A context on `active_scene` with no resources loaded.
    pub fn create(active_scene: SceneInstance<C>, input_manager: InputManager) -> (r: Self)
        ensures
            r.spec_active_scene() == active_scene,
            r.spec_input_manager() == input_manager,
            r.spec_resource_manager().spec_renderable_objects().len() == 0,
            r.spec_resource_manager().spec_shaders().len() == 0,
            r.spec_resource_manager().spec_textures().len() == 0,
            r.spec_resource_manager().spec_materials().len() == 0,
            r.spec_resource_manager().spec_models().len() == 0,
            r.spec_resource_manager().spec_meshes().len() == 0,
            r.spec_resource_manager().spec_primitives().len() == 0,
            r.spec_resource_manager().spec_resource_map().materials_map@.is_empty(),
            r.spec_resource_manager().spec_resource_map().textures_map@.is_empty(),
            r.spec_resource_manager().spec_resource_map().shaders_map@.is_empty(),
            r.spec_resource_manager().spec_resource_map().models_map@.is_empty(),
            r.spec_resource_manager().spec_resource_map().meshes_map@.is_empty(),
            r.spec_resource_manager().spec_resource_map().mesh_primitives_map@.is_empty(),
            r.spec_resource_manager().spec_resource_map().renderable_objects_map@.is_empty(),
    {
        RuntimeContext { active_scene, resource_manager: ResourceManager::new(), input_manager }
    }

    /// The resources of the active scene.
    pub fn resource_manager(&self) -> (r: &ResourceManager)
        ensures
            *r == self.spec_resource_manager(),
    {
        &self.resource_manager
    }

    /// Makes `scene` the active scene, with its resources, and hands back the
    /// scene it replaces with that scene's resources, which still have to be freed.
    pub fn swap_scene(&mut self, scene: LoadedScene<C>) -> (r: PreviousScene<C>)
        ensures
            final(self).spec_active_scene() == scene.scene_instance,
            r.scene_instance == old(self).spec_active_scene(),
            final(self).spec_input_manager() == old(self).spec_input_manager(),
            holds_resources(final(self).spec_resource_manager(), scene.resources),
            hands_back(r.resources, old(self).spec_resource_manager()),
    {
        let LoadedScene { scene_instance, resources } = scene;
        let mut previous_instance = scene_instance;
        std::mem::swap(&mut self.active_scene, &mut previous_instance);
        let previous_resources = self.resource_manager.swap_resources(resources);
        PreviousScene { scene_instance: previous_instance, resources: previous_resources }
    }

    /// Takes one event of the window system: a key event updates the input
    /// state, a close request ends the loop, the end of the pending events
    /// runs a frame; anything else is ignored.
    pub fn handle_event(&mut self, event: RuntimeEvent) -> (r: RuntimeAction)
        ensures
            final(self).spec_active_scene() == old(self).spec_active_scene(),
            final(self).spec_resource_manager() == old(self).spec_resource_manager(),
            final(self).spec_input_manager().buttons() == old(self).spec_input_manager().buttons(),
            final(self).spec_input_manager().cursor() == old(self).spec_input_manager().cursor(),
            final(self).spec_input_manager().keys() == match event {
                RuntimeEvent::KeyboardInput { key: Some(k), pressed } => keys_after(
                    old(self).spec_input_manager().keys(),
                    k,
                    pressed,
                ),
                _ => old(self).spec_input_manager().keys(),
            },
            r == match event {
                RuntimeEvent::CloseRequested => RuntimeAction::Exit,
                RuntimeEvent::AboutToWait => RuntimeAction::RunFrame,
                _ => RuntimeAction::Continue,
            },
    {
        match event {
            RuntimeEvent::KeyboardInput { key, pressed } => {
                match key {
                    Some(k) => {
                        self.input_manager.update_keyboard_key_state(&k, pressed);
                    },
                    None => {},
                }
                RuntimeAction::Continue
            },
            RuntimeEvent::CloseRequested => RuntimeAction::Exit,
            RuntimeEvent::AboutToWait => RuntimeAction::RunFrame,
            RuntimeEvent::Other => RuntimeAction::Continue,
        }
    }

    /// Ends a frame once the buffers were swapped: the pipeline's batches are
    /// emptied and the input forgets what went down or up this frame.
    pub fn end_frame(&mut self, render_pipeline: &mut RenderPipeline)
        ensures
            final(self).spec_active_scene() == old(self).spec_active_scene(),
            final(self).spec_resource_manager() == old(self).spec_resource_manager(),
            final(self).spec_input_manager().keys() == keys_at_next_frame(old(self).spec_input_manager().keys()),
            final(self).spec_input_manager().buttons() == buttons_at_next_frame(
                old(self).spec_input_manager().buttons(),
            ),
            final(self).spec_input_manager().cursor() == old(self).spec_input_manager().cursor(),
            final(render_pipeline).spec_config() == old(render_pipeline).spec_config(),
            final(render_pipeline).spec_context().opaque_batches() == emptied(
                old(render_pipeline).spec_context().opaque_batches(),
            ),
            final(render_pipeline).spec_context().transparent_batches() == emptied(
                old(render_pipeline).spec_context().transparent_batches(),
            ),
    {
        render_pipeline.reset_context();
        self.input_manager.reset_frame_states();
        proof {
            assert(render_pipeline.spec_context().opaque_batches() =~= emptied(
                old(render_pipeline).spec_context().opaque_batches(),
            ));
            assert(render_pipeline.spec_context().transparent_batches() =~= emptied(
                old(render_pipeline).spec_context().transparent_batches(),
            ));
        }
    }
}

/// What the runtime is started with: the scene to load first, the game and
/// the input map.
pub struct RuntimeConfiguration<G> {
    main_scene: SceneTemplate,
    game: G,
    input_map: InputMap,
}

impl<G> RuntimeConfiguration<G> {
    pub closed spec fn spec_main_scene(&self) -> SceneTemplate {
        self.main_scene
    }

    pub closed spec fn spec_game(&self) -> G {
        self.game
    }

    pub closed spec fn spec_input_map(&self) -> InputMap {
        self.input_map
    }

    /// The scene template, the game and the input map, for the runtime to start with.
    pub fn into_parts(self) -> (r: (SceneTemplate, G, InputMap))
        ensures
            r.0 == self.spec_main_scene(),
            r.1 == self.spec_game(),
            r.2 == self.spec_input_map(),
    {
        (self.main_scene, self.game, self.input_map)
    }
}

/// Collects the parts of a runtime configuration; each must be given before `build`.
pub struct RuntimeConfigurationBuilder<G> {
    main_scene: Option<SceneTemplate>,
    game: Option<G>,
    input_map: Option<InputMap>,
}

impl<G> RuntimeConfigurationBuilder<G> {
    pub closed spec fn spec_main_scene(&self) -> Option<SceneTemplate> {
        self.main_scene
    }

    pub closed spec fn spec_game(&self) -> Option<G> {
        self.game
    }

    pub closed spec fn spec_input_map(&self) -> Option<InputMap> {
        self.input_map
    }

    /// Nothing given yet.
    pub fn new() -> (r: Self)
        ensures
            r.spec_main_scene() is None,
            r.spec_game() is None,
            r.spec_input_map() is None,
    {
        RuntimeConfigurationBuilder { main_scene: None, game: None, input_map: None }
    }

    pub fn with_main_scene(self, default_scene: SceneTemplate) -> (r: Self)
        ensures
            r.spec_main_scene() == Some(default_scene),
            r.spec_game() == self.spec_game(),
            r.spec_input_map() == self.spec_input_map(),
    {
        let mut s = self;
        s.main_scene = Some(default_scene);
        s
    }

    pub fn with_game(self, game: G) -> (r: Self)
        ensures
            r.spec_game() == Some(game),
            r.spec_main_scene() == self.spec_main_scene(),
            r.spec_input_map() == self.spec_input_map(),
    {
        let mut s = self;
        s.game = Some(game);
        s
    }

    pub fn with_input_map(self, input_map: InputMap) -> (r: Self)
        ensures
            r.spec_input_map() == Some(input_map),
            r.spec_main_scene() == self.spec_main_scene(),
            r.spec_game() == self.spec_game(),
    {
        let mut s = self;
        s.input_map = Some(input_map);
        s
    }

    /// The configuration made of the parts given; every part must have been given.
    pub fn build(self) -> (r: RuntimeConfiguration<G>)
        requires
            self.spec_main_scene() is Some,
            self.spec_game() is Some,
            self.spec_input_map() is Some,
        ensures
            Some(r.spec_main_scene()) == self.spec_main_scene(),
            Some(r.spec_game()) == self.spec_game(),
            Some(r.spec_input_map()) == self.spec_input_map(),
    {
        RuntimeConfiguration {
            main_scene: self.main_scene.unwrap(),
            game: self.game.unwrap(),
            input_map: self.input_map.unwrap(),
        }
    }
}

} // verus!
