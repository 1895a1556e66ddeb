//! The plan of the web workers the engine runs on when it starts from a page: a render
//! worker that owns the canvas, a number of compute workers, and the engine worker that runs
//! the app world. Each worker calls exports of the wasm module in order once it is up.
//!
//! The page spawns the workers from this plan; the values handed to the exports (the
//! canvas, the engine's arguments) stay on the page and are named here by [`CallArg`].
use vstd::prelude::*;
use vstd::string::StringExecFns;

use crate::page_exports::push_char;

verus! {

/// The export a render worker calls to host the render world.
pub open spec fn render_entry() -> Seq<char> {
    "__bevy_render_worker_main"@
}

/// The export a compute worker calls to join the compute task pool.
pub open spec fn compute_entry() -> Seq<char> {
    "__bevy_compute_worker_main"@
}

/// The export the engine worker calls first, to attach to the page's canvas.
pub open spec fn attach_entry() -> Seq<char> {
    "__bevy_attach_engine_worker"@
}

/// An argument handed to an export, which the page supplies when it spawns the worker.
#[derive(Clone, Copy, Debug, PartialEq, Eq, Structural)]
pub enum CallArg {
    /// The canvas, transferred to the render worker.
    Canvas,
    /// The id of the page's canvas window.
    WorkerId,
    /// How many compute workers are spawned.
    ComputeThreads,
    /// The argument of the app's engine export.
    EngineArgs,
}

/// One export to call, with its arguments.
#[derive(Clone, Debug)]
pub struct EntryCall {
    /// The export's name.
    pub entry: String,
    /// Its arguments.
    pub args: Vec<CallArg>,
}

/// The export and arguments of a call, as values.
pub open spec fn call_view(c: EntryCall) -> (Seq<char>, Seq<CallArg>) {
    (c.entry@, c.args@)
}

/// One worker to spawn.
#[derive(Clone, Debug)]
pub struct WorkerLaunch {
    /// Names the worker in the page's console.
    pub tag: String,
    /// The exports the worker calls, in order.
    pub calls: Vec<EntryCall>,
    /// The worker's wasm stack size in bytes; `None` takes the module's default.
    pub stack_size: Option<u32>,
    /// Whether the canvas is transferred to the worker rather than cloned.
    pub transfers_canvas: bool,
}

/// The launch has this tag, these calls, this stack size and this transfer.
pub open spec fn launch_is(
    l: WorkerLaunch,
    tag: Seq<char>,
    calls: Seq<(Seq<char>, Seq<CallArg>)>,
    stack_size: Option<u32>,
    transfers_canvas: bool,
) -> bool {
    &&& l.tag@ == tag
    &&& l.calls@.map_values(|c: EntryCall| call_view(c)) == calls
    &&& l.stack_size == stack_size
    &&& l.transfers_canvas == transfers_canvas
}

/// What the plan depends on of the page's configuration.
#[derive(Clone, Debug)]
pub struct WorkerConfig {
    /// The app's engine worker export.
    pub engine_entry: String,
    /// The app's render worker setup export, if any, called with the canvas before the
    /// render world is created there.
    pub render_setup: Option<String>,
    /// How many compute workers to spawn.
    pub compute_threads: u32,
    /// The render worker's wasm stack size in bytes.
    pub render_stack_size: Option<u32>,
    /// The compute workers' wasm stack size in bytes.
    pub compute_stack_size: Option<u32>,
    /// The engine worker's wasm stack size in bytes.
    pub engine_stack_size: Option<u32>,
}

/// The decimal digits of `n`, most significant first, without leading zeros.
pub open spec fn decimal(n: nat) -> Seq<char>
    decreases n,
{
    if n < 10 {
        seq![(48 + n) as char]
    } else {
        decimal(n / 10).push((48 + n % 10) as char)
    }
}

/// The number that a string of decimal digits spells, most significant digit first.
pub open spec fn decimal_value(digits: Seq<char>) -> int
    decreases digits.len(),
{
    if digits.len() == 0 {
        0
    } else {
        decimal_value(digits.drop_last()) * 10 + (digits.last() as int - 48)
    }
}

/// The character is one of the ASCII digits `0` to `9`.
pub open spec fn is_decimal_digit(c: char) -> bool {
    48 <= c as int && c as int <= 57
}

/// `decimal(n)` is the usual decimal numeral of `n`: a nonempty string of ASCII digits
/// that reads back as `n`, most significant digit first, whose first digit is not `0`
/// unless `n` is zero.
pub proof fn lemma_decimal_reads_back(n: nat)
    ensures
        decimal(n).len() >= 1,
        forall|i: int| 0 <= i < decimal(n).len() ==> is_decimal_digit(#[trigger] decimal(n)[i]),
        decimal_value(decimal(n)) == n,
        n > 0 ==> decimal(n)[0] != '0',
    decreases n,
{
    if n < 10 {
        let c = (48 + n) as char;
        assert(c as int == 48 + n);
        assert(decimal(n).drop_last() =~= Seq::<char>::empty());
        assert(decimal_value(decimal(n).drop_last()) == 0);
    } else {
        lemma_decimal_reads_back(n / 10);
        let c = (48 + n % 10) as char;
        assert(c as int == 48 + n % 10);
        let d = decimal(n);
        assert(d.drop_last() =~= decimal(n / 10));
        assert(d.last() == c);
        assert(decimal_value(d) == decimal_value(decimal(n / 10)) * 10 + (n % 10));
        assert(d[0] == decimal(n / 10)[0]);
        assert forall|i: int| 0 <= i < d.len() implies is_decimal_digit(#[trigger] d[i]) by {
            if i < d.len() - 1 {
                assert(d[i] == decimal(n / 10)[i]);
            }
        }
    }
}

/// Appends the decimal digits of `n`.
fn push_decimal(out: &mut String, n: u32)
    ensures
        final(out)@ == old(out)@ + decimal(n as nat),
    decreases n,
{
    if n >= 10 {
        push_decimal(out, n / 10);
    }
    let c = ((48 + n % 10) as u8) as char;
    push_char(out, c);
    proof {
        if n < 10 {
            assert(decimal(n as nat) =~= seq![c]);
        } else {
            assert(decimal(n as nat) =~= decimal((n / 10) as nat).push(c));
        }
    }
}

/// The tag of the `i`-th compute worker: `compute-{i}`.
pub open spec fn compute_tag(i: nat) -> Seq<char> {
    "compute-"@ + decimal(i)
}

fn call(entry: String, args: Vec<CallArg>) -> (r: EntryCall)
    ensures
        call_view(r) == (entry@, args@),
{
    EntryCall { entry, args }
}

/// The render worker: the app's setup export, if any, then the render export, both
/// handed the canvas, which is transferred to it.
pub fn plan_render_worker(config: &WorkerConfig) -> (r: WorkerLaunch)
    ensures
        launch_is(
            r,
            "render"@,
            match config.render_setup {
                Some(setup) => seq![(setup@, seq![CallArg::Canvas]), (render_entry(), seq![CallArg::Canvas])],
                None => seq![(render_entry(), seq![CallArg::Canvas])],
            },
            config.render_stack_size,
            true,
        ),
{
    let mut calls: Vec<EntryCall> = Vec::new();
    match &config.render_setup {
        Some(setup) => {
            calls.push(call(setup.clone(), vec![CallArg::Canvas]));
        },
        None => {},
    }
    calls.push(call(String::from_str("__bevy_render_worker_main"), vec![CallArg::Canvas]));
    let r = WorkerLaunch {
        tag: String::from_str("render"),
        calls,
        stack_size: config.render_stack_size,
        transfers_canvas: true,
    };
    assert(r.calls@.map_values(|c: EntryCall| call_view(c)) =~~= match config.render_setup {
        Some(setup) => seq![(setup@, seq![CallArg::Canvas]), (render_entry(), seq![CallArg::Canvas])],
        None => seq![(render_entry(), seq![CallArg::Canvas])],
    });
    r
}

/// The compute workers, `compute-0` to `compute-{n - 1}` for `n` compute threads, each
/// calling the compute export with no arguments.
pub fn plan_compute_workers(config: &WorkerConfig) -> (r: Vec<WorkerLaunch>)
    ensures
        r@.len() == config.compute_threads,
        forall|i: int|
            0 <= i < r@.len() ==> launch_is(
                #[trigger] r@[i],
                compute_tag(i as nat),
                seq![(compute_entry(), Seq::<CallArg>::empty())],
                config.compute_stack_size,
                false,
            ),
{
    let n = config.compute_threads;
    let mut out: Vec<WorkerLaunch> = Vec::new();
    let mut i: u32 = 0;
    while i < n
        invariant
            n == config.compute_threads,
            i <= n,
            out@.len() == i,
            forall|j: int|
                0 <= j < i ==> launch_is(
                    #[trigger] out@[j],
                    compute_tag(j as nat),
                    seq![(compute_entry(), Seq::<CallArg>::empty())],
                    config.compute_stack_size,
                    false,
                ),
        decreases n - i,
    {
        let mut tag = String::from_str("compute-");
        push_decimal(&mut tag, i);
        let calls = vec![call(String::from_str("__bevy_compute_worker_main"), Vec::new())];
        let launch = WorkerLaunch {
            tag,
            calls,
            stack_size: config.compute_stack_size,
            transfers_canvas: false,
        };
        assert(launch.calls@.map_values(|c: EntryCall| call_view(c)) =~= seq![
            (compute_entry(), Seq::<CallArg>::empty()),
        ]);
        out.push(launch);
        i = i + 1;
    }
    out
}

/// The engine worker: the attach export, handed the canvas window's id and the count of
/// compute workers, then the app's engine export, handed the app's argument.
pub fn plan_engine_worker(config: &WorkerConfig) -> (r: WorkerLaunch)
    ensures
        launch_is(
            r,
            "engine"@,
            seq![
                (attach_entry(), seq![CallArg::WorkerId, CallArg::ComputeThreads]),
                (config.engine_entry@, seq![CallArg::EngineArgs]),
            ],
            config.engine_stack_size,
            false,
        ),
{
    let calls = vec![
        call(
            String::from_str("__bevy_attach_engine_worker"),
            vec![CallArg::WorkerId, CallArg::ComputeThreads],
        ),
        call(config.engine_entry.clone(), vec![CallArg::EngineArgs]),
    ];
    let r = WorkerLaunch {
        tag: String::from_str("engine"),
        calls,
        stack_size: config.engine_stack_size,
        transfers_canvas: false,
    };
    assert(r.calls@.map_values(|c: EntryCall| call_view(c)) =~~= seq![
        (attach_entry(), seq![CallArg::WorkerId, CallArg::ComputeThreads]),
        (config.engine_entry@, seq![CallArg::EngineArgs]),
    ]);
    r
}

/// The engine's workers in the order they are spawned: the render worker, then the
/// compute workers `compute-0` upwards, then the engine worker, which is told the count of
/// compute workers and so comes last.
pub fn plan_workers(config: &WorkerConfig) -> (r: Vec<WorkerLaunch>)
    ensures
        r@.len() == config.compute_threads + 2,
        launch_is(
            r@[0],
            "render"@,
            match config.render_setup {
                Some(setup) => seq![(setup@, seq![CallArg::Canvas]), (render_entry(), seq![CallArg::Canvas])],
                None => seq![(render_entry(), seq![CallArg::Canvas])],
            },
            config.render_stack_size,
            true,
        ),
        forall|i: int|
            1 <= i <= config.compute_threads ==> launch_is(
                #[trigger] r@[i],
                compute_tag((i - 1) as nat),
                seq![(compute_entry(), Seq::<CallArg>::empty())],
                config.compute_stack_size,
                false,
            ),
        launch_is(
            r@[config.compute_threads + 1],
            "engine"@,
            seq![
                (attach_entry(), seq![CallArg::WorkerId, CallArg::ComputeThreads]),
                (config.engine_entry@, seq![CallArg::EngineArgs]),
            ],
            config.engine_stack_size,
            false,
        ),
{
    let render = plan_render_worker(config);
    let compute = plan_compute_workers(config);
    let engine = plan_engine_worker(config);
    let mut out: Vec<WorkerLaunch> = Vec::new();
    out.push(render);
    let ghost first = out@;
    let mut compute = compute;
    let ghost cs = compute@;
    let n = compute.len();
    let mut k: usize = 0;
    while k < n
        invariant
            n == cs.len(),
            k <= n,
            compute@ == cs.subrange(k as int, n as int),
            out@ == first + cs.subrange(0, k as int),
        decreases n - k,
    {
        let w = compute.remove(0);
        proof {
            assert(w == cs[k as int]);
            assert(compute@ =~= cs.subrange(k + 1, n as int));
        }
        out.push(w);
        proof {
            assert(out@ =~= first + cs.subrange(0, k + 1));
        }
        k = k + 1;
    }
    out.push(engine);
    proof {
        assert(cs.subrange(0, n as int) =~= cs);
        assert forall|i: int| 1 <= i <= config.compute_threads implies #[trigger] out@[i] == cs[i - 1] by {
        }
    }
    out
}

/// A worker of the app's own: one export with its arguments, under the app's tag and
/// stack size.
pub fn plan_app_worker(entry: &String, args: Vec<CallArg>, tag: &String, stack_size: Option<u32>) -> (r: WorkerLaunch)
    ensures
        launch_is(r, tag@, seq![(entry@, args@)], stack_size, false),
{
    let ghost a = args@;
    let calls = vec![call(entry.clone(), args)];
    let r = WorkerLaunch { tag: tag.clone(), calls, stack_size, transfers_canvas: false };
    assert(r.calls@.map_values(|c: EntryCall| call_view(c)) =~= seq![(entry@, a)]);
    r
}

} // verus!
