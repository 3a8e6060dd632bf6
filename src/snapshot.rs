use vstd::prelude::*;

verus! {

/// One platform operation of a one-shot capture.
#[derive(Clone, Copy, Debug, PartialEq, Eq, Structural)]
pub enum SnapshotStep {
    /// Obtain the native device behind the capture device handle.
    ResolveDevice,
    /// Create the frame pool: fixed pixel format, depth one, the item's size.
    CreatePool,
    /// Create the capture session bound to the item, with its arrival handler.
    CreateSession,
    /// Turn off cursor rendering; only effective before capture starts.
    DisableCursor,
    StartCapture,
    /// Run the caller's hook, once capture is known to be active.
    InvokeStarted,
    /// Block until exactly one frame arrives.
    WaitForFrame,
    /// Allocate the destination texture from the planned description.
    CreateTexture,
    CopyWhole,
    CopyRegion,
    CloseFrame,
    CloseSession,
    ClosePool,
}

/// The steps of one capture, in order.
pub open spec fn snapshot_plan(cursor_enabled: bool, cropped: bool) -> Seq<SnapshotStep> {
    seq![SnapshotStep::ResolveDevice, SnapshotStep::CreatePool, SnapshotStep::CreateSession] + (
    if cursor_enabled {
        Seq::empty()
    } else {
        seq![SnapshotStep::DisableCursor]
    }) + seq![
        SnapshotStep::StartCapture,
        SnapshotStep::InvokeStarted,
        SnapshotStep::WaitForFrame,
        SnapshotStep::CreateTexture,
        if cropped {
            SnapshotStep::CopyRegion
        } else {
            SnapshotStep::CopyWhole
        },
        SnapshotStep::CloseFrame,
        SnapshotStep::CloseSession,
        SnapshotStep::ClosePool,
    ]
}

/// `acquire` has run among the `done` steps and `release` has not been tried.
pub open spec fn outstanding(
    acquired_by: Seq<SnapshotStep>,
    tried: Seq<SnapshotStep>,
    acquire: SnapshotStep,
    release: SnapshotStep,
) -> bool {
    acquired_by.contains(acquire) && !tried.contains(release)
}

/// The close of `release` when it is still owed, else nothing.
pub open spec fn owed_close(
    before: Seq<SnapshotStep>,
    tried: Seq<SnapshotStep>,
    acquire: SnapshotStep,
    release: SnapshotStep,
) -> Seq<SnapshotStep> {
    if outstanding(before, tried, acquire, release) {
        seq![release]
    } else {
        Seq::empty()
    }
}

/// When step `failed_at` of the plan fails, the closing steps still owed: the
/// frame, the session and the pool, each if it was obtained by an earlier step
/// and its close has not been tried (a failed close is not tried again).
pub open spec fn cleanup_plan(cursor_enabled: bool, cropped: bool, failed_at: nat) -> Seq<SnapshotStep> {
    let plan = snapshot_plan(cursor_enabled, cropped);
    let before = plan.take(failed_at as int);
    let tried = plan.take(failed_at + 1int);
    owed_close(before, tried, SnapshotStep::WaitForFrame, SnapshotStep::CloseFrame) + owed_close(
        before,
        tried,
        SnapshotStep::CreateSession,
        SnapshotStep::CloseSession,
    ) + owed_close(before, tried, SnapshotStep::CreatePool, SnapshotStep::ClosePool)
}

/// The steps of one capture: the cursor is disabled before capture starts, the
/// caller's hook runs once capture has started, exactly one frame is taken,
/// copied whole or by region, and then the frame, the session and the pool are
/// closed in that order.
pub fn snapshot_steps(cursor_enabled: bool, cropped: bool) -> (r: Vec<SnapshotStep>)
    ensures
        r@ == snapshot_plan(cursor_enabled, cropped),
{
    let mut steps: Vec<SnapshotStep> = vec![
        SnapshotStep::ResolveDevice,
        SnapshotStep::CreatePool,
        SnapshotStep::CreateSession,
    ];
    if !cursor_enabled {
        steps.push(SnapshotStep::DisableCursor);
    }
    steps.push(SnapshotStep::StartCapture);
    steps.push(SnapshotStep::InvokeStarted);
    steps.push(SnapshotStep::WaitForFrame);
    steps.push(SnapshotStep::CreateTexture);
    if cropped {
        steps.push(SnapshotStep::CopyRegion);
    } else {
        steps.push(SnapshotStep::CopyWhole);
    }
    steps.push(SnapshotStep::CloseFrame);
    steps.push(SnapshotStep::CloseSession);
    steps.push(SnapshotStep::ClosePool);
    assert(steps@ =~= snapshot_plan(cursor_enabled, cropped));
    steps
}

/// Whether `step` is among the first `n` steps.
fn prefix_contains(steps: &Vec<SnapshotStep>, n: usize, step: SnapshotStep) -> (r: bool)
    requires
        n <= steps@.len(),
    ensures
        r == steps@.take(n as int).contains(step),
{
    let mut i: usize = 0;
    while i < n
        invariant
            n <= steps@.len(),
            i <= n,
            !steps@.take(i as int).contains(step),
        decreases n - i,
    {
        if steps[i] == step {
            assert(steps@.take(n as int)[i as int] == step);
            return true;
        }
        assert(steps@.take(i as int + 1) =~= steps@.take(i as int).push(steps@[i as int]));
        i = i + 1;
    }
    assert(steps@.take(n as int) =~= steps@.take(i as int));
    false
}

/// The closing steps to run when step `failed_at` of the plan has failed.
pub fn cleanup_steps(cursor_enabled: bool, cropped: bool, failed_at: usize) -> (r: Vec<SnapshotStep>)
    requires
        failed_at < snapshot_plan(cursor_enabled, cropped).len(),
    ensures
        r@ == cleanup_plan(cursor_enabled, cropped, failed_at as nat),
{
    let plan = snapshot_steps(cursor_enabled, cropped);
    let mut steps: Vec<SnapshotStep> = Vec::new();
    if prefix_contains(&plan, failed_at, SnapshotStep::WaitForFrame) && !prefix_contains(
        &plan,
        failed_at + 1,
        SnapshotStep::CloseFrame,
    ) {
        steps.push(SnapshotStep::CloseFrame);
    }
    if prefix_contains(&plan, failed_at, SnapshotStep::CreateSession) && !prefix_contains(
        &plan,
        failed_at + 1,
        SnapshotStep::CloseSession,
    ) {
        steps.push(SnapshotStep::CloseSession);
    }
    if prefix_contains(&plan, failed_at, SnapshotStep::CreatePool) && !prefix_contains(
        &plan,
        failed_at + 1,
        SnapshotStep::ClosePool,
    ) {
        steps.push(SnapshotStep::ClosePool);
    }
    assert(steps@ =~= cleanup_plan(cursor_enabled, cropped, failed_at as nat));
    steps
}

/// How many times `x` occurs in `s`.
pub open spec fn occurrences(s: Seq<SnapshotStep>, x: SnapshotStep) -> nat
    decreases s.len(),
{
    if s.len() == 0 {
        0
    } else {
        occurrences(s.drop_last(), x) + if s.last() == x {
            1nat
        } else {
            0nat
        }
    }
}

/// What runs when step `failed_at` fails: the steps tried so far, the failed
/// one included, then the cleanup.
pub open spec fn failed_run(cursor_enabled: bool, cropped: bool, failed_at: nat) -> Seq<SnapshotStep> {
    snapshot_plan(cursor_enabled, cropped).take(failed_at + 1int) + cleanup_plan(
        cursor_enabled,
        cropped,
        failed_at,
    )
}

/// `release` occurs in `run` once if `acquire` occurs in `done`, and not at all otherwise.
pub open spec fn released_once(
    run: Seq<SnapshotStep>,
    done: Seq<SnapshotStep>,
    acquire: SnapshotStep,
    release: SnapshotStep,
) -> bool {
    occurrences(run, release) == if done.contains(acquire) {
        1nat
    } else {
        0nat
    }
}

proof fn lemma_occurrences_concat(a: Seq<SnapshotStep>, b: Seq<SnapshotStep>, x: SnapshotStep)
    ensures
        occurrences(a + b, x) == occurrences(a, x) + occurrences(b, x),
    decreases b.len(),
{
    if b.len() == 0 {
        assert(a + b =~= a);
    } else {
        assert((a + b).drop_last() =~= a + b.drop_last());
        lemma_occurrences_concat(a, b.drop_last(), x);
    }
}

proof fn lemma_occurrences_single(y: SnapshotStep, x: SnapshotStep)
    ensures
        occurrences(seq![y], x) == if y == x {
            1nat
        } else {
            0nat
        },
{
    assert(seq![y].drop_last() =~= Seq::<SnapshotStep>::empty());
    assert(occurrences(Seq::<SnapshotStep>::empty(), x) == 0);
    assert(seq![y].last() == y);
}

/// `x` sits at `p` of `s` and nowhere else: a prefix of length `k` holds it
/// once if `p < k`, else not at all.
proof fn lemma_unique_in_prefix(s: Seq<SnapshotStep>, x: SnapshotStep, p: int, k: int)
    requires
        0 <= p < s.len(),
        0 <= k <= s.len(),
        s[p] == x,
        forall|j: int| 0 <= j < s.len() && j != p ==> s[j] != x,
    ensures
        occurrences(s.take(k), x) == if p < k {
            1nat
        } else {
            0nat
        },
        s.take(k).contains(x) <==> p < k,
    decreases k,
{
    if p < k {
        assert(s.take(k)[p] == x);
    }
    if k > 0 {
        assert(s.take(k).drop_last() =~= s.take(k - 1));
        lemma_unique_in_prefix(s, x, p, k - 1);
    }
}

/// Positions of the steps that obtain and release resources.
proof fn lemma_plan_positions(cursor_enabled: bool, cropped: bool)
    ensures
        ({
            let plan = snapshot_plan(cursor_enabled, cropped);
            let d: int = if cursor_enabled {
                0
            } else {
                1
            };
            &&& plan.len() == 11 + d
            &&& plan[1] == SnapshotStep::CreatePool
            &&& plan[2] == SnapshotStep::CreateSession
            &&& plan[5 + d] == SnapshotStep::WaitForFrame
            &&& plan[8 + d] == SnapshotStep::CloseFrame
            &&& plan[9 + d] == SnapshotStep::CloseSession
            &&& plan[10 + d] == SnapshotStep::ClosePool
            &&& forall|j: int| 0 <= j < plan.len() && j != 1 ==> plan[j] != SnapshotStep::CreatePool
            &&& forall|j: int|
                0 <= j < plan.len() && j != 2 ==> plan[j] != SnapshotStep::CreateSession
            &&& forall|j: int|
                0 <= j < plan.len() && j != 5 + d ==> plan[j] != SnapshotStep::WaitForFrame
            &&& forall|j: int|
                0 <= j < plan.len() && j != 8 + d ==> plan[j] != SnapshotStep::CloseFrame
            &&& forall|j: int|
                0 <= j < plan.len() && j != 9 + d ==> plan[j] != SnapshotStep::CloseSession
            &&& forall|j: int| 0 <= j < plan.len() && j != 10 + d ==> plan[j] != SnapshotStep::ClosePool
        }),
{
    let plan = snapshot_plan(cursor_enabled, cropped);
    let copy = if cropped {
        SnapshotStep::CopyRegion
    } else {
        SnapshotStep::CopyWhole
    };
    if cursor_enabled {
        assert(plan =~= seq![
            SnapshotStep::ResolveDevice,
            SnapshotStep::CreatePool,
            SnapshotStep::CreateSession,
            SnapshotStep::StartCapture,
            SnapshotStep::InvokeStarted,
            SnapshotStep::WaitForFrame,
            SnapshotStep::CreateTexture,
            copy,
            SnapshotStep::CloseFrame,
            SnapshotStep::CloseSession,
            SnapshotStep::ClosePool,
        ]);
    } else {
        assert(plan =~= seq![
            SnapshotStep::ResolveDevice,
            SnapshotStep::CreatePool,
            SnapshotStep::CreateSession,
            SnapshotStep::DisableCursor,
            SnapshotStep::StartCapture,
            SnapshotStep::InvokeStarted,
            SnapshotStep::WaitForFrame,
            SnapshotStep::CreateTexture,
            copy,
            SnapshotStep::CloseFrame,
            SnapshotStep::CloseSession,
            SnapshotStep::ClosePool,
        ]);
    }
}

proof fn lemma_owed_close_occurrences(
    before: Seq<SnapshotStep>,
    tried: Seq<SnapshotStep>,
    acquire: SnapshotStep,
    release: SnapshotStep,
    x: SnapshotStep,
)
    ensures
        occurrences(owed_close(before, tried, acquire, release), x) == if outstanding(
            before,
            tried,
            acquire,
            release,
        ) && release == x {
            1nat
        } else {
            0nat
        },
{
    if outstanding(before, tried, acquire, release) {
        lemma_occurrences_single(release, x);
    } else {
        assert(occurrences(Seq::<SnapshotStep>::empty(), x) == 0);
    }
}

proof fn lemma_cleanup_occurrences(cursor_enabled: bool, cropped: bool, failed_at: nat, x: SnapshotStep)
    ensures
        ({
            let plan = snapshot_plan(cursor_enabled, cropped);
            let before = plan.take(failed_at as int);
            let tried = plan.take(failed_at + 1int);
            occurrences(cleanup_plan(cursor_enabled, cropped, failed_at), x) == (if outstanding(
                before,
                tried,
                SnapshotStep::WaitForFrame,
                SnapshotStep::CloseFrame,
            ) && x == SnapshotStep::CloseFrame {
                1nat
            } else {
                0nat
            }) + (if outstanding(
                before,
                tried,
                SnapshotStep::CreateSession,
                SnapshotStep::CloseSession,
            ) && x == SnapshotStep::CloseSession {
                1nat
            } else {
                0nat
            }) + (if outstanding(before, tried, SnapshotStep::CreatePool, SnapshotStep::ClosePool)
                && x == SnapshotStep::ClosePool {
                1nat
            } else {
                0nat
            })
        }),
{
    let plan = snapshot_plan(cursor_enabled, cropped);
    let before = plan.take(failed_at as int);
    let tried = plan.take(failed_at + 1int);
    let a = owed_close(before, tried, SnapshotStep::WaitForFrame, SnapshotStep::CloseFrame);
    let b = owed_close(before, tried, SnapshotStep::CreateSession, SnapshotStep::CloseSession);
    let c = owed_close(before, tried, SnapshotStep::CreatePool, SnapshotStep::ClosePool);
    lemma_occurrences_concat(a + b, c, x);
    lemma_occurrences_concat(a, b, x);
    lemma_owed_close_occurrences(before, tried, SnapshotStep::WaitForFrame, SnapshotStep::CloseFrame, x);
    lemma_owed_close_occurrences(
        before,
        tried,
        SnapshotStep::CreateSession,
        SnapshotStep::CloseSession,
        x,
    );
    lemma_owed_close_occurrences(before, tried, SnapshotStep::CreatePool, SnapshotStep::ClosePool, x);
}

/// One resource, obtained at `pa` and closed at `pr > pa`, is closed exactly
/// once by a failed run if it was obtained before the failure, else never.
proof fn lemma_pair_released_once(
    cursor_enabled: bool,
    cropped: bool,
    failed_at: nat,
    acquire: SnapshotStep,
    release: SnapshotStep,
    pa: int,
    pr: int,
)
    requires
        ({
            let plan = snapshot_plan(cursor_enabled, cropped);
            &&& failed_at < plan.len()
            &&& 0 <= pa < pr < plan.len()
            &&& plan[pa] == acquire
            &&& plan[pr] == release
            &&& forall|j: int| 0 <= j < plan.len() && j != pa ==> plan[j] != acquire
            &&& forall|j: int| 0 <= j < plan.len() && j != pr ==> plan[j] != release
        }),
        (acquire == SnapshotStep::WaitForFrame && release == SnapshotStep::CloseFrame) || (acquire
            == SnapshotStep::CreateSession && release == SnapshotStep::CloseSession) || (acquire
            == SnapshotStep::CreatePool && release == SnapshotStep::ClosePool),
    ensures
        released_once(
            failed_run(cursor_enabled, cropped, failed_at),
            snapshot_plan(cursor_enabled, cropped).take(failed_at as int),
            acquire,
            release,
        ),
{
    let plan = snapshot_plan(cursor_enabled, cropped);
    let i = failed_at as int;
    lemma_unique_in_prefix(plan, acquire, pa, i);
    lemma_unique_in_prefix(plan, release, pr, i + 1);
    lemma_occurrences_concat(plan.take(i + 1), cleanup_plan(cursor_enabled, cropped, failed_at), release);
    lemma_cleanup_occurrences(cursor_enabled, cropped, failed_at, release);
}

/// Whichever step of a capture fails, the steps tried so far and the cleanup
/// that follows close the frame, the session and the frame pool exactly once
/// each if an earlier step obtained it, and never close one that was not
/// obtained.
pub proof fn lemma_failed_capture_releases_once(cursor_enabled: bool, cropped: bool, failed_at: nat)
    requires
        failed_at < snapshot_plan(cursor_enabled, cropped).len(),
    ensures
        ({
            let run = failed_run(cursor_enabled, cropped, failed_at);
            let done = snapshot_plan(cursor_enabled, cropped).take(failed_at as int);
            &&& released_once(run, done, SnapshotStep::WaitForFrame, SnapshotStep::CloseFrame)
            &&& released_once(run, done, SnapshotStep::CreateSession, SnapshotStep::CloseSession)
            &&& released_once(run, done, SnapshotStep::CreatePool, SnapshotStep::ClosePool)
        }),
{
    lemma_plan_positions(cursor_enabled, cropped);
    let d: int = if cursor_enabled {
        0
    } else {
        1
    };
    lemma_pair_released_once(
        cursor_enabled,
        cropped,
        failed_at,
        SnapshotStep::WaitForFrame,
        SnapshotStep::CloseFrame,
        5 + d,
        8 + d,
    );
    lemma_pair_released_once(
        cursor_enabled,
        cropped,
        failed_at,
        SnapshotStep::CreateSession,
        SnapshotStep::CloseSession,
        2,
        9 + d,
    );
    lemma_pair_released_once(
        cursor_enabled,
        cropped,
        failed_at,
        SnapshotStep::CreatePool,
        SnapshotStep::ClosePool,
        1,
        10 + d,
    );
}

/// A capture that runs to completion closes the frame, the session and the
/// frame pool exactly once each, each after the step that obtained it.
pub proof fn lemma_capture_releases_once(cursor_enabled: bool, cropped: bool)
    ensures
        ({
            let plan = snapshot_plan(cursor_enabled, cropped);
            &&& released_once(plan, plan, SnapshotStep::WaitForFrame, SnapshotStep::CloseFrame)
            &&& released_once(plan, plan, SnapshotStep::CreateSession, SnapshotStep::CloseSession)
            &&& released_once(plan, plan, SnapshotStep::CreatePool, SnapshotStep::ClosePool)
            &&& plan.index_of(SnapshotStep::WaitForFrame) < plan.index_of(SnapshotStep::CloseFrame)
            &&& plan.index_of(SnapshotStep::CreateSession) < plan.index_of(SnapshotStep::CloseSession)
            &&& plan.index_of(SnapshotStep::CreatePool) < plan.index_of(SnapshotStep::ClosePool)
        }),
{
    let plan = snapshot_plan(cursor_enabled, cropped);
    let n = plan.len() as int;
    lemma_plan_positions(cursor_enabled, cropped);
    let d: int = if cursor_enabled {
        0
    } else {
        1
    };
    assert(plan.take(n) =~= plan);
    lemma_unique_in_prefix(plan, SnapshotStep::WaitForFrame, 5 + d, n);
    lemma_unique_in_prefix(plan, SnapshotStep::CloseFrame, 8 + d, n);
    lemma_unique_in_prefix(plan, SnapshotStep::CreateSession, 2, n);
    lemma_unique_in_prefix(plan, SnapshotStep::CloseSession, 9 + d, n);
    lemma_unique_in_prefix(plan, SnapshotStep::CreatePool, 1, n);
    lemma_unique_in_prefix(plan, SnapshotStep::ClosePool, 10 + d, n);
}

} // verus!
