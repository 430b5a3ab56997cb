use psionic::input::{InputManager, InputMap, KeyboardKeyMapping};
use psionic::render_pipeline::{RenderPipeline, RenderPipelineConfiguration};
use psionic::runtime::{RuntimeAction, RuntimeConfigurationBuilder, RuntimeContext, RuntimeEvent};
use psionic::scenes::SceneInstance;
use psionic::templates::{MainCameraSettings, SceneGraphNodeTemplate, SceneGraphNodeTemplateType, SceneGraphTemplate, SceneTemplate};
use psionic::maths::{Float3, Transform};

fn empty_template() -> SceneTemplate {
    SceneTemplate {
        shaders: vec![],
        textures: vec![],
        materials: vec![],
        models: vec![],
        main_camera_settings: MainCameraSettings::new(Float3::new(0, 0, 0), 0, 0),
        scene_graph_template: SceneGraphTemplate {
            root_node: SceneGraphNodeTemplate {
                id: 1,
                transform: Transform::default(),
                children: vec![],
                template_type: SceneGraphNodeTemplateType::Model(2),
            },
        },
    }
}

fn one_key_map() -> InputMap {
    InputMap {
        keyboard_key_mappings: vec![KeyboardKeyMapping { name: "W".to_string(), key_code: 10 }],
        mouse_button_mappings: vec![],
    }
}

#[test]
fn builder_collects_every_part() {
    let cfg = RuntimeConfigurationBuilder::new()
        .with_main_scene(empty_template())
        .with_game(42u32)
        .with_input_map(one_key_map())
        .build();
    let (scene, game, input_map) = cfg.into_parts();
    assert_eq!(game, 42);
    assert_eq!(scene.models.len(), 0);
    assert_eq!(input_map.keyboard_key_mappings.len(), 1);
}

#[test]
fn events_drive_the_loop() {
    let mut input = InputManager::new();
    input.load_input_map(&one_key_map());
    let mut ctx = RuntimeContext::create(SceneInstance::blank(()), input);
    assert_eq!(ctx.handle_event(RuntimeEvent::Other), RuntimeAction::Continue);
    assert_eq!(
        ctx.handle_event(RuntimeEvent::KeyboardInput { key: Some(10), pressed: true }),
        RuntimeAction::Continue
    );
    assert!(ctx.input_manager.get_keyboard_key_state(10).unwrap().is_down);
    assert!(ctx.input_manager.get_keyboard_key_state(10).unwrap().down_this_frame);
    assert_eq!(
        ctx.handle_event(RuntimeEvent::KeyboardInput { key: None, pressed: false }),
        RuntimeAction::Continue
    );
    assert!(ctx.input_manager.get_keyboard_key_state(10).unwrap().is_down);
    assert_eq!(ctx.handle_event(RuntimeEvent::AboutToWait), RuntimeAction::RunFrame);
    let mut pipeline = RenderPipeline::create(RenderPipelineConfiguration { shadows_enabled: true });
    let passes = pipeline.render_scene(&ctx.active_scene, ctx.resource_manager());
    assert!(passes.is_empty());
    ctx.end_frame(&mut pipeline);
    let w = *ctx.input_manager.get_keyboard_key_state(10).unwrap();
    assert!(w.is_down && !w.down_this_frame && !w.up_this_frame);
    assert_eq!(ctx.handle_event(RuntimeEvent::CloseRequested), RuntimeAction::Exit);
}
