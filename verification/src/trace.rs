//! Run-level laws of the orchestrator.
//!
//! [`trace`] interprets the state machine over a whole sequence of outside
//! answers and collects the actions it requests, in order.  The lemmas here
//! state the ordering and idempotence guarantees of the pipeline: a missing
//! identity CLI aborts before any side effect, a present marker file means
//! no download or extraction is ever requested again, a metadata write
//! replaces the previous file content outright, and a successful signing
//! phase signs exactly the eligible files, in input order.

use vstd::prelude::*;

verus! {

use crate::classify::spec_is_supported;
use crate::invocation::{spec_sign_args, spec_sign_template};
use crate::metadata::metadata_json;
use crate::orchestrator::{
    first_unskipped,
    sign_step,
    spec_init,
    spec_step,
    ActionV,
    ConfigV,
    ErrorV,
    EventV,
    StageV,
    StateV,
};
use crate::workspace::{marker_path_of, metadata_path_of};

/// The sequence of actions a run emits from state `s` when the outside
/// world answers with `events`, in order.  The trace ends when the machine
/// stops, or early when an answer of the wrong kind arrives.
pub open spec fn trace(s: StateV, events: Seq<EventV>) -> Seq<ActionV>
    decreases events.len(),
{
    if events.len() == 0 {
        Seq::empty()
    } else {
        match spec_step(s, events[0]) {
            None => Seq::empty(),
            Some((s2, a)) => seq![a] + trace(s2, events.drop_first()),
        }
    }
}

/// An action that mutates the world outside the process.
pub open spec fn is_side_effect(a: ActionV) -> bool {
    ||| a is CreateDir
    ||| a is Download
    ||| a is Extract
    ||| a is WriteFile
    ||| a is Run
}

/// A stopped machine emits nothing more.
pub proof fn lemma_trace_done(s: StateV, events: Seq<EventV>)
    requires
        s.stage is Done,
    ensures
        trace(s, events) == Seq::<ActionV>::empty(),
{
}

/// A missing identity CLI aborts the run before any side effect occurs:
/// when the very first probe reports that the CLI path does not exist, the
/// whole trace is the single failure report.  No directory is created,
/// nothing is downloaded or extracted, no file — the metadata file included
/// — is written, and no process is run.
pub proof fn lemma_missing_cli_aborts_first(cfg: ConfigV, events: Seq<EventV>)
    requires
        events.len() > 0,
        events[0] == EventV::Exists(false),
    ensures
        trace(spec_init(cfg).0, events) =~= seq![
            ActionV::Finish {
                outcome: Err(ErrorV::AzureCliMissing { path: cfg.azure_cli_path }),
            },
        ],
        forall|i: int|
            0 <= i < trace(spec_init(cfg).0, events).len() ==> !is_side_effect(
                #[trigger] trace(spec_init(cfg).0, events)[i],
            ),
{
    let s = spec_init(cfg).0;
    let stepped = spec_step(s, events[0]);
    assert(stepped is Some);
    let (s2, a) = stepped->Some_0;
    assert(s2.stage is Done);
    lemma_trace_done(s2, events.drop_first());
    assert(trace(s, events) =~= seq![a]);
}

/// Stages in which the library is known provisioned (or the run is over).
pub open spec fn past_provisioning(s: StateV) -> bool {
    ||| s.stage is AwaitMetadataWrite
    ||| s.stage is AwaitLogin
    ||| s.stage is AwaitSign
    ||| s.stage is Done
}

/// One step from a past-provisioning state requests neither a download nor
/// an extraction, and lands in a past-provisioning state again.
pub proof fn lemma_step_past_provisioning(s: StateV, ev: EventV)
    requires
        past_provisioning(s),
        spec_step(s, ev) is Some,
    ensures
        past_provisioning(spec_step(s, ev)->Some_0.0),
        !(spec_step(s, ev)->Some_0.1 is Download),
        !(spec_step(s, ev)->Some_0.1 is Extract),
{
}

/// From a past-provisioning state, the whole remaining trace holds no
/// download and no extraction, whatever the outside answers are.
pub proof fn lemma_trace_past_provisioning(s: StateV, events: Seq<EventV>)
    requires
        past_provisioning(s),
    ensures
        forall|i: int|
            0 <= i < trace(s, events).len() ==> !(#[trigger] trace(s, events)[i] is Download) && !(
            trace(s, events)[i] is Extract),
    decreases events.len(),
{
    if events.len() > 0 {
        let stepped = spec_step(s, events[0]);
        match stepped {
            None => {},
            Some(r) => {
                let (s2, a) = r;
                lemma_step_past_provisioning(s, events[0]);
                lemma_trace_past_provisioning(s2, events.drop_first());
                let t = trace(s, events);
                let tail = trace(s2, events.drop_first());
                assert(t =~= seq![a] + tail);
                assert forall|i: int| 0 <= i < t.len() implies !(#[trigger] t[i] is Download) && !(
                t[i] is Extract) by {
                    if i > 0 {
                        assert(t[i] == tail[i - 1]);
                    }
                }
            },
        }
    }
}

/// Provisioning is idempotent.  When the marker probe reports the library
/// present, the machine asks for the metadata write at once, and neither
/// this step nor any later one requests a download or an extraction — a
/// second run over an already provisioned workspace performs no network or
/// archive work.
pub proof fn lemma_marker_present_no_download(s: StateV, config_dir: Seq<char>, events: Seq<EventV>)
    requires
        s.stage == (StageV::AwaitMarkerProbe { config_dir }),
        events.len() > 0,
        events[0] == EventV::Exists(true),
    ensures
        trace(s, events)[0] == (ActionV::WriteFile {
            path: metadata_path_of(config_dir),
            contents: metadata_json(s.cfg.endpoint, s.cfg.account, s.cfg.certificate),
        }),
        forall|i: int|
            0 <= i < trace(s, events).len() ==> !(#[trigger] trace(s, events)[i] is Download) && !(
            trace(s, events)[i] is Extract),
{
    let stepped = spec_step(s, events[0]);
    assert(stepped is Some);
    let (s2, a) = stepped->Some_0;
    lemma_trace_past_provisioning(s2, events.drop_first());
    let t = trace(s, events);
    let tail = trace(s2, events.drop_first());
    assert(t =~= seq![a] + tail);
    assert forall|i: int| 0 <= i < t.len() implies !(#[trigger] t[i] is Download) && !(t[i]
        is Extract) by {
        if i > 0 {
            assert(t[i] == tail[i - 1]);
        }
    }
}

/// The files eligible for signing from index `i` on, in input order: every
/// file, unless the skip policy is on and its extension is unsupported.
pub open spec fn eligible_from(cfg: ConfigV, i: int) -> Seq<Seq<char>>
    decreases cfg.files.len() - i,
{
    if i >= cfg.files.len() {
        Seq::empty()
    } else if cfg.ignore_unsupported && !spec_is_supported(cfg.files[i]) {
        eligible_from(cfg, i + 1)
    } else {
        seq![cfg.files[i]] + eligible_from(cfg, i + 1)
    }
}

/// The sign invocation of one file: the signing tool, the unchanged
/// template, and that file as the sole trailing argument.
pub open spec fn sign_run_action(cfg: ConfigV, config_dir: Seq<char>, file: Seq<char>) -> ActionV {
    ActionV::Run {
        program: cfg.sign_tool_path,
        args: spec_sign_args(
            spec_sign_template(
                cfg.fd,
                cfg.tr,
                cfg.td,
                marker_path_of(config_dir),
                metadata_path_of(config_dir),
                cfg.description,
            ),
            file,
        ),
    }
}

/// When every sign invocation succeeds, the signing phase signs exactly the
/// eligible files, one invocation each, in input order, and then ends the
/// run successfully: entering the phase at index `i` emits the sign
/// invocations of `eligible_from(cfg, i)` followed by the successful
/// finish, and nothing else.
pub proof fn lemma_successful_phase_signs_eligible_in_order(
    cfg: ConfigV,
    config_dir: Seq<char>,
    i: int,
    evs: Seq<EventV>,
)
    requires
        0 <= i <= cfg.files.len(),
        forall|k: int| 0 <= k < evs.len() ==> evs[k] == (EventV::Completed(Ok(()))),
        evs.len() >= eligible_from(cfg, i).len(),
    ensures
        ({
            let (s0, a0) = sign_step(cfg, config_dir, i);
            seq![a0] + trace(s0, evs) =~= eligible_from(cfg, i).map_values(
                |f: Seq<char>| sign_run_action(cfg, config_dir, f),
            ) + seq![ActionV::Finish { outcome: Ok(()) }]
        }),
    decreases cfg.files.len() - i,
{
    let (s0, a0) = sign_step(cfg, config_dir, i);
    let goal = eligible_from(cfg, i).map_values(|f: Seq<char>| sign_run_action(cfg, config_dir, f))
        + seq![ActionV::Finish { outcome: Ok(()) }];
    if i == cfg.files.len() {
        assert(first_unskipped(cfg, i) == i);
        assert(s0.stage is Done);
        lemma_trace_done(s0, evs);
        assert(eligible_from(cfg, i) =~= Seq::<Seq<char>>::empty());
        assert(seq![a0] + trace(s0, evs) =~= goal);
    } else if cfg.ignore_unsupported && !spec_is_supported(cfg.files[i]) {
        assert(first_unskipped(cfg, i) == first_unskipped(cfg, i + 1));
        assert(eligible_from(cfg, i) == eligible_from(cfg, i + 1));
        lemma_successful_phase_signs_eligible_in_order(cfg, config_dir, i + 1, evs);
    } else {
        assert(first_unskipped(cfg, i) == i);
        assert(a0 == sign_run_action(cfg, config_dir, cfg.files[i]));
        assert(s0.stage == (StageV::AwaitSign { config_dir, index: i }));
        assert(eligible_from(cfg, i) =~= seq![cfg.files[i]] + eligible_from(cfg, i + 1));
        assert(evs.len() >= 1);
        assert(evs[0] == (EventV::Completed(Ok(()))));
        let (s1, a1) = sign_step(cfg, config_dir, i + 1);
        assert(spec_step(s0, evs[0]) == Some(sign_step(cfg, config_dir, i + 1)));
        assert(trace(s0, evs) =~= seq![a1] + trace(s1, evs.drop_first()));
        let rest = evs.drop_first();
        assert forall|k: int| 0 <= k < rest.len() implies rest[k] == (EventV::Completed(
            Ok(()),
        )) by {
            assert(rest[k] == evs[k + 1]);
        }
        assert(rest.len() >= eligible_from(cfg, i + 1).len());
        lemma_successful_phase_signs_eligible_in_order(cfg, config_dir, i + 1, rest);
        let m1 = eligible_from(cfg, i + 1).map_values(
            |f: Seq<char>| sign_run_action(cfg, config_dir, f),
        );
        assert(seq![a1] + trace(s1, rest) =~= m1 + seq![ActionV::Finish { outcome: Ok(()) }]);
        assert(eligible_from(cfg, i).map_values(|f: Seq<char>| sign_run_action(cfg, config_dir, f))
            =~= seq![sign_run_action(cfg, config_dir, cfg.files[i])] + m1);
        assert(seq![a0] + trace(s0, evs) =~= goal);
    }
}

/// Applying a [`crate::orchestrator::Action::WriteFile`] action to a file
/// store binds its path to exactly the new contents.
pub open spec fn apply_write(
    store: Map<Seq<char>, Seq<char>>,
    path: Seq<char>,
    contents: Seq<char>,
) -> Map<Seq<char>, Seq<char>> {
    store.insert(path, contents)
}

/// Metadata writes always overwrite: after writing the serialisation of
/// record A and then of record B to the same workspace, the metadata file
/// holds exactly B's serialisation — nothing of A survives and nothing is
/// merged, whatever the store held before.
pub proof fn lemma_metadata_write_overwrites(
    store: Map<Seq<char>, Seq<char>>,
    config_dir: Seq<char>,
    a_endpoint: Seq<char>,
    a_account: Seq<char>,
    a_profile: Seq<char>,
    b_endpoint: Seq<char>,
    b_account: Seq<char>,
    b_profile: Seq<char>,
)
    ensures
        ({
            let p = metadata_path_of(config_dir);
            let s1 = apply_write(store, p, metadata_json(a_endpoint, a_account, a_profile));
            let s2 = apply_write(s1, p, metadata_json(b_endpoint, b_account, b_profile));
            &&& s2.contains_key(p)
            &&& s2[p] == metadata_json(b_endpoint, b_account, b_profile)
        }),
{
}

} // verus!
