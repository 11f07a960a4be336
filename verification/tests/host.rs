use bevy::app::App;
use bevy::time::Time;
use bevy_godot4::app::ConfigError;
use bevy_godot4::app::PassFault;
use bevy_godot4::app::Plugin;
use bevy_godot4::app::Readiness;
use bevy_godot4::app::TickAction;
use bevy_godot4::timing::components::CTime;
use bevy_godot4::timing::TimingPlugin;
use bevy_godot4::utils::GodotFixedUpdate;
use bevy_godot4::utils::GodotUpdate;
use bevy_godot4::utils::Markers;
use bevy_godot4::utils::TickKind;
use bevy_godot4::BevyApp;
use std::cell::Cell;
use std::cell::RefCell;

const MS: u64 = 1_000_000;

const ABSENT: Markers = Markers { update: None, fixed_update: None };
const VISUAL: Markers = Markers { update: Some(GodotUpdate), fixed_update: None };
const PHYSICS: Markers = Markers { update: None, fixed_update: Some(GodotFixedUpdate) };

fn app_with_clock() -> App {
    let mut app = App::empty();
    TimingPlugin.build(&mut app);
    app
}

fn context_of(host: &mut BevyApp) -> CTime {
    host.with_bevy_app(|app: &mut App| *app.world().resource::<Time<CTime>>().context())
        .unwrap()
}

#[test]
fn init_has_no_instance_and_no_marker() {
    let host = BevyApp::init();
    assert!(!host.has_instance());
    assert!(!host.is_faulted());
    assert_eq!(host.current_markers(), ABSENT);
}

#[test]
fn call_before_the_instance_exists_is_dropped() {
    let mut host = BevyApp::init();
    let called = Cell::new(0u32);
    let result = host.with_bevy_app(|_app: &mut App| {
        called.set(called.get() + 1);
        5u8
    });
    assert_eq!(result, None);
    assert_eq!(called.get(), 0);

    host.set_bevy_app(App::empty());
    assert_eq!(called.get(), 0);
    assert!(host.has_instance());
}

#[test]
fn call_on_the_instance_runs_at_once() {
    let mut host = BevyApp::init();
    host.set_bevy_app(App::empty());
    let called = Cell::new(0u32);
    let result = host.with_bevy_app(|app: &mut App| {
        called.set(called.get() + 1);
        app.insert_resource(Time::<CTime>::default());
        5u8
    });
    assert_eq!(result, Some(5));
    assert_eq!(called.get(), 1);
    let kept = host.with_bevy_app(|app: &mut App| app.world().get_resource::<Time<CTime>>().is_some());
    assert_eq!(kept, Some(true));
    assert_eq!(host.current_markers(), ABSENT);
}

#[test]
fn set_bevy_app_replaces_the_instance() {
    let mut host = BevyApp::init();
    host.set_bevy_app(app_with_clock());
    host.set_bevy_app(App::empty());
    let has_clock = host.with_bevy_app(|app: &mut App| app.world().get_resource::<Time<CTime>>().is_some());
    assert_eq!(has_clock, Some(false));
}

#[test]
fn plugins_come_in_the_fixed_order() {
    assert_eq!(
        BevyApp::plugins(false),
        vec![
            Plugin::TaskPool,
            Plugin::Log,
            Plugin::TypeRegistration,
            Plugin::FrameCount,
            Plugin::Diagnostics,
            Plugin::GenericTime,
            Plugin::Timing,
            Plugin::Hierarchy,
            Plugin::PackedScene,
            Plugin::SceneTree,
        ]
    );
}

#[test]
fn asset_bridge_comes_last() {
    let order = BevyApp::plugins(true);
    assert_eq!(order.len(), 11);
    assert_eq!(order[..10], BevyApp::plugins(false)[..]);
    assert_eq!(order[10], Plugin::Assets);
}

#[test]
fn ready_in_the_editor_builds_nothing() {
    let mut host = BevyApp::init();
    let calls = Cell::new(0u32);
    let result = host.ready(
        true,
        Some(|_app: &mut App| calls.set(calls.get() + 1)),
        false,
        |_app: &mut App, _plugin: Plugin| calls.set(calls.get() + 1),
    );
    assert_eq!(result, Ok(Readiness::SkippedInEditor));
    assert_eq!(calls.get(), 0);
    assert!(!host.has_instance());
}

#[test]
fn ready_in_the_editor_needs_no_builder() {
    let mut host = BevyApp::init();
    let builder: Option<Box<dyn FnOnce(&mut App)>> = None;
    let result = host.ready(true, builder, false, |_app: &mut App, _plugin: Plugin| {});
    assert_eq!(result, Ok(Readiness::SkippedInEditor));
}

#[test]
fn ready_without_a_builder_fails() {
    let mut host = BevyApp::init();
    let calls = Cell::new(0u32);
    let builder: Option<Box<dyn FnOnce(&mut App)>> = None;
    let result = host.ready(false, builder, false, |_app: &mut App, _plugin: Plugin| {
        calls.set(calls.get() + 1)
    });
    assert_eq!(result, Err(ConfigError::MissingBuilder));
    assert_eq!(calls.get(), 0);
    assert!(!host.has_instance());
    assert_eq!(
        ConfigError::MissingBuilder.message(),
        "no app builder function was registered before the host got ready"
    );
}

#[test]
fn ready_applies_the_builder_then_the_plugins_in_order() {
    let mut host = BevyApp::init();
    let log: RefCell<Vec<Option<Plugin>>> = RefCell::new(Vec::new());
    let result = host.ready(
        false,
        Some(|_app: &mut App| log.borrow_mut().push(None)),
        true,
        |_app: &mut App, plugin: Plugin| log.borrow_mut().push(Some(plugin)),
    );
    assert_eq!(result, Ok(Readiness::Built));
    assert!(host.has_instance());
    assert_eq!(host.current_markers(), ABSENT);
    let mut expected: Vec<Option<Plugin>> = vec![None];
    for plugin in BevyApp::plugins(true) {
        expected.push(Some(plugin));
    }
    assert_eq!(*log.borrow(), expected);
    assert_eq!(expected.len(), 12);
}

#[test]
fn ready_stores_what_builder_and_plugins_made() {
    let mut host = BevyApp::init();
    let result = host.ready(
        false,
        Some(|app: &mut App| {
            app.insert_resource(Time::<CTime>::default());
        }),
        false,
        |app: &mut App, plugin: Plugin| {
            let mut clock = app.world_mut().resource_mut::<Time<CTime>>();
            clock.context_mut().frame_count += 1;
            if plugin == Plugin::Timing {
                clock.context_mut().godot_dt = 16 * MS;
            }
        },
    );
    assert_eq!(result, Ok(Readiness::Built));
    assert_eq!(
        context_of(&mut host),
        CTime { frame_count: 10, is_paused: false, godot_dt: 16 * MS, godot_physics_dt: 0 }
    );
}

#[test]
fn tick_in_the_editor_is_skipped() {
    let mut host = BevyApp::init();
    host.set_bevy_app(app_with_clock());
    assert_eq!(host.process(16 * MS, true), TickAction::Skip);
    assert_eq!(host.physics_process(20 * MS, true), TickAction::Skip);
    assert_eq!(host.current_markers(), ABSENT);
    assert_eq!(context_of(&mut host), CTime::default());
}

#[test]
fn tick_without_an_instance_is_skipped() {
    let mut host = BevyApp::init();
    assert_eq!(host.process(16 * MS, false), TickAction::Skip);
    assert_eq!(host.physics_process(20 * MS, false), TickAction::Skip);
    assert_eq!(host.current_markers(), ABSENT);
    assert!(!host.has_instance());
}

#[test]
fn visual_tick_records_its_delta_and_sets_its_marker() {
    let mut host = BevyApp::init();
    host.set_bevy_app(app_with_clock());
    assert_eq!(host.process(16 * MS, false), TickAction::RunPass);
    assert_eq!(host.current_markers(), VISUAL);
    assert_eq!(
        context_of(&mut host),
        CTime { frame_count: 0, is_paused: false, godot_dt: 16 * MS, godot_physics_dt: 0 }
    );
    assert_eq!(host.finish_pass(true), Ok(()));
    assert_eq!(host.current_markers(), ABSENT);
    assert!(!host.is_faulted());
}

#[test]
fn physics_tick_records_its_delta_and_sets_its_marker() {
    let mut host = BevyApp::init();
    host.set_bevy_app(app_with_clock());
    assert_eq!(host.process(16 * MS, false), TickAction::RunPass);
    assert_eq!(host.finish_pass(true), Ok(()));
    assert_eq!(host.physics_process(20 * MS, false), TickAction::RunPass);
    assert_eq!(host.current_markers(), PHYSICS);
    assert_eq!(
        context_of(&mut host),
        CTime { frame_count: 0, is_paused: false, godot_dt: 16 * MS, godot_physics_dt: 20 * MS }
    );
    assert_eq!(host.finish_pass(true), Ok(()));
    assert_eq!(host.current_markers(), ABSENT);
}

#[test]
fn tick_runs_a_pass_without_a_clock_too() {
    let mut host = BevyApp::init();
    host.set_bevy_app(App::empty());
    assert_eq!(host.process(16 * MS, false), TickAction::RunPass);
    assert_eq!(host.current_markers(), VISUAL);
    let has_clock = host.with_bevy_app(|app: &mut App| app.world().get_resource::<Time<CTime>>().is_some());
    assert_eq!(has_clock, Some(false));
    assert_eq!(host.finish_pass(true), Ok(()));
}

#[test]
fn markers_are_never_present_together() {
    let mut host = BevyApp::init();
    host.set_bevy_app(app_with_clock());
    let mut seen: Vec<Markers> = vec![host.current_markers()];
    for round in 0..6u64 {
        let action = if round % 2 == 0 {
            host.process(round * MS, false)
        } else {
            host.physics_process(round * MS, false)
        };
        assert_eq!(action, TickAction::RunPass);
        seen.push(host.current_markers());
        assert_eq!(host.physics_process(99 * MS, false), TickAction::Skip);
        assert_eq!(host.process(99 * MS, false), TickAction::Skip);
        seen.push(host.current_markers());
        assert_eq!(host.finish_pass(true), Ok(()));
        seen.push(host.current_markers());
    }
    assert_eq!(
        seen[..7],
        [ABSENT, VISUAL, VISUAL, ABSENT, PHYSICS, PHYSICS, ABSENT]
    );
    for markers in seen {
        assert!(!(markers.update.is_some() && markers.fixed_update.is_some()));
    }
    assert_eq!(
        context_of(&mut host),
        CTime { frame_count: 0, is_paused: false, godot_dt: 4 * MS, godot_physics_dt: 5 * MS }
    );
}

#[test]
fn tick_during_a_pass_is_skipped_and_changes_nothing() {
    let mut host = BevyApp::init();
    host.set_bevy_app(app_with_clock());
    assert_eq!(host.process(16 * MS, false), TickAction::RunPass);
    assert_eq!(host.physics_process(20 * MS, false), TickAction::Skip);
    assert_eq!(host.process(17 * MS, false), TickAction::Skip);
    assert_eq!(host.current_markers(), VISUAL);
    assert_eq!(
        context_of(&mut host),
        CTime { frame_count: 0, is_paused: false, godot_dt: 16 * MS, godot_physics_dt: 0 }
    );
}

#[test]
fn finish_outside_a_pass_does_nothing() {
    let mut host = BevyApp::init();
    assert_eq!(host.finish_pass(true), Ok(()));
    assert_eq!(host.finish_pass(false), Ok(()));
    assert!(!host.is_faulted());
    assert_eq!(host.current_markers(), ABSENT);
    host.set_bevy_app(App::empty());
    assert_eq!(host.finish_pass(false), Ok(()));
    assert_eq!(host.process(16 * MS, false), TickAction::RunPass);
}

#[test]
fn failed_physics_pass_is_reported_with_its_kind() {
    let mut host = BevyApp::init();
    host.set_bevy_app(app_with_clock());
    assert_eq!(host.physics_process(20 * MS, false), TickAction::RunPass);
    let result = host.finish_pass(false);
    assert_eq!(result, Err(PassFault { kind: TickKind::Physics }));
    let fault = result.unwrap_err();
    assert_eq!(fault.message(), "bevy app update panicked during the physics tick");
    assert!(fault.message().contains("physics"));
    assert!(!fault.message().contains("visual"));
    assert!(host.is_faulted());
    assert_eq!(host.current_markers(), PHYSICS);
}

#[test]
fn failed_visual_pass_is_reported_with_its_kind() {
    let mut host = BevyApp::init();
    host.set_bevy_app(app_with_clock());
    assert_eq!(host.process(16 * MS, false), TickAction::RunPass);
    let result = host.finish_pass(false);
    assert_eq!(result, Err(PassFault { kind: TickKind::Visual }));
    assert_eq!(
        PassFault { kind: TickKind::Visual }.message(),
        "bevy app update panicked during the visual tick"
    );
    assert!(host.is_faulted());
    assert_eq!(host.current_markers(), VISUAL);
}

#[test]
fn host_runs_no_pass_after_a_failed_one() {
    let mut host = BevyApp::init();
    host.set_bevy_app(app_with_clock());
    assert_eq!(host.physics_process(20 * MS, false), TickAction::RunPass);
    assert!(host.finish_pass(false).is_err());
    assert_eq!(host.process(16 * MS, false), TickAction::Skip);
    assert_eq!(host.physics_process(21 * MS, false), TickAction::Skip);
    assert_eq!(host.finish_pass(true), Ok(()));
    assert_eq!(host.finish_pass(false), Ok(()));
    assert!(host.is_faulted());
    assert_eq!(host.current_markers(), PHYSICS);
    assert_eq!(
        context_of(&mut host),
        CTime { frame_count: 0, is_paused: false, godot_dt: 0, godot_physics_dt: 20 * MS }
    );
}
