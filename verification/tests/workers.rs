use bevy_pieces::workers::{
    plan_app_worker, plan_compute_workers, plan_workers, plan_engine_worker, plan_render_worker, CallArg,
    WorkerConfig,
};

fn config(render_setup: Option<&str>, compute_threads: u32) -> WorkerConfig {
    WorkerConfig {
        engine_entry: "run_game".to_string(),
        render_setup: render_setup.map(|s| s.to_string()),
        compute_threads,
        render_stack_size: Some(1 << 20),
        compute_stack_size: None,
        engine_stack_size: Some(2 << 20),
    }
}

#[test]
fn render_worker_calls_setup_then_render() {
    let r = plan_render_worker(&config(Some("patch_webgpu"), 0));
    assert_eq!(r.tag, "render");
    assert!(r.transfers_canvas);
    assert_eq!(r.stack_size, Some(1 << 20));
    let entries: Vec<&str> = r.calls.iter().map(|c| c.entry.as_str()).collect();
    assert_eq!(entries, vec!["patch_webgpu", "__bevy_render_worker_main"]);
    assert!(r.calls.iter().all(|c| c.args == vec![CallArg::Canvas]));
    let plain = plan_render_worker(&config(None, 0));
    assert_eq!(plain.calls.len(), 1);
    assert_eq!(plain.calls[0].entry, "__bevy_render_worker_main");
}

#[test]
fn compute_workers_are_numbered() {
    let c = plan_compute_workers(&config(None, 12));
    assert_eq!(c.len(), 12);
    assert_eq!(c[0].tag, "compute-0");
    assert_eq!(c[9].tag, "compute-9");
    assert_eq!(c[11].tag, "compute-11");
    assert!(c.iter().all(|w| w.calls.len() == 1
        && w.calls[0].entry == "__bevy_compute_worker_main"
        && w.calls[0].args.is_empty()
        && !w.transfers_canvas
        && w.stack_size.is_none()));
    assert!(plan_compute_workers(&config(None, 0)).is_empty());
}

#[test]
fn engine_worker_attaches_then_runs_the_app() {
    let e = plan_engine_worker(&config(None, 3));
    assert_eq!(e.tag, "engine");
    assert_eq!(e.stack_size, Some(2 << 20));
    assert_eq!(e.calls[0].entry, "__bevy_attach_engine_worker");
    assert_eq!(e.calls[0].args, vec![CallArg::WorkerId, CallArg::ComputeThreads]);
    assert_eq!(e.calls[1].entry, "run_game");
    assert_eq!(e.calls[1].args, vec![CallArg::EngineArgs]);
}

#[test]
fn app_worker_calls_its_one_export() {
    let w = plan_app_worker(&"audio".to_string(), vec![CallArg::EngineArgs], &"sound".to_string(), Some(64));
    assert_eq!(w.tag, "sound");
    assert_eq!(w.calls.len(), 1);
    assert_eq!(w.calls[0].entry, "audio");
    assert_eq!(w.stack_size, Some(64));
}

#[test]
fn workers_start_render_first_and_engine_last() {
    let all = plan_workers(&config(None, 2));
    let tags: Vec<&str> = all.iter().map(|w| w.tag.as_str()).collect();
    assert_eq!(tags, vec!["render", "compute-0", "compute-1", "engine"]);
}
