//! What holds of the installation of every environment, whatever its caller
//! answers.

use crate::environment::{
    has_own_directory, rollback_target, with_target, EnvAction, EnvActionView, EnvEvent,
    EnvEventView, EnvRunView, EnvStageView,
};
use crate::model::{EnvDoneView, PayloadView, ProgressView, ScriptView, SoftwareView, StepView};
use crate::places::{install_of, software_goes_to_its_own_folder, LocationView, RootView};
use crate::text::decimal;
use vstd::prelude::*;

verus! {

/// What has come of the actions that were answered so far.
pub struct EnvLedger {
    /// The software whose installation was tried.
    pub tried: Seq<SoftwareView>,
    /// How many of these installations succeeded.
    pub succeeded: nat,
    /// The software that was put in its place, with the directory that it was to
    /// be installed in.
    pub placed: Seq<(SoftwareView, LocationView)>,
    /// The user was found to have stopped the installation.
    pub stopped: bool,
    /// The directories that the caller was told to remove, and answered.
    pub removed: Set<LocationView>,
    /// The scripts that were run.
    pub scripts: Seq<ScriptView>,
    /// What the user was told became of the environment.
    pub news: Seq<EnvDoneView>,
}

impl EnvLedger {
    /// Nothing has happened.
    pub open spec fn empty() -> EnvLedger {
        EnvLedger {
            tried: Seq::empty(),
            succeeded: 0,
            placed: Seq::empty(),
            stopped: false,
            removed: Set::empty(),
            scripts: Seq::empty(),
            news: Seq::empty(),
        }
    }

    /// The ledger once `action` has been answered with `event`.
    pub open spec fn record(self, action: EnvActionView, event: EnvEventView) -> EnvLedger {
        match (action, event) {
            (EnvActionView::ReadCancel, EnvEventView::Cancelled(yes)) => EnvLedger {
                stopped: self.stopped || yes,
                ..self
            },
            (
                EnvActionView::Install { software, directory, .. },
                EnvEventView::Installed { result, placed },
            ) => EnvLedger {
                tried: self.tried.push(software),
                succeeded: if result.success {
                    self.succeeded + 1
                } else {
                    self.succeeded
                },
                placed: if placed {
                    self.placed.push((software, directory))
                } else {
                    self.placed
                },
                ..self
            },
            (EnvActionView::Remove(directories), EnvEventView::Done) => EnvLedger {
                removed: self.removed.union(directories.to_set()),
                ..self
            },
            (EnvActionView::RunScript(script), EnvEventView::Completed(_)) => EnvLedger {
                scripts: self.scripts.push(script),
                ..self
            },
            (EnvActionView::Announce(news), EnvEventView::Done) => EnvLedger {
                news: self.news.push(news),
                ..self
            },
            _ => self,
        }
    }
}

/// The installation of `payload`, with this home directory, once its caller has
/// answered with `events` in turn.
pub open spec fn run_after(
    payload: PayloadView,
    home: Option<Seq<char>>,
    events: Seq<EnvEventView>,
) -> EnvRunView
    decreases events.len(),
{
    if events.len() == 0 {
        EnvRunView::start(payload, home)
    } else {
        run_after(payload, home, events.drop_last()).next(events.last())
    }
}

/// What has come of the actions by then.
pub open spec fn env_ledger_after(
    payload: PayloadView,
    home: Option<Seq<char>>,
    events: Seq<EnvEventView>,
) -> EnvLedger
    decreases events.len(),
{
    if events.len() == 0 {
        EnvLedger::empty()
    } else {
        let before = events.drop_last();
        env_ledger_after(payload, home, before).record(
            run_after(payload, home, before).action(),
            events.last(),
        )
    }
}

/// Whether the items of an environment can be counted.
pub open spec fn countable(payload: PayloadView) -> bool {
    payload.software.len() + payload.scripts.len() <= usize::MAX
}

/// The directories of the software that was put in its place and has a directory
/// of its own.
spec fn targets_of(placed: Seq<(SoftwareView, LocationView)>) -> Seq<LocationView>
    decreases placed.len(),
{
    if placed.len() == 0 {
        Seq::empty()
    } else if has_own_directory(placed.last().0) {
        targets_of(placed.drop_last()).push(placed.last().1)
    } else {
        targets_of(placed.drop_last())
    }
}

/// Whether `directory` is that of a piece of software which was put in its place
/// and has a directory of its own.
pub open spec fn was_filled(
    placed: Seq<(SoftwareView, LocationView)>,
    directory: LocationView,
) -> bool {
    exists|k: int|
        0 <= k < placed.len() && has_own_directory((#[trigger] placed[k]).0) && placed[k].1
            == directory
}

/// [`targets_of`] holds just the directories that were filled.
proof fn targets_are_filled(
    placed: Seq<(SoftwareView, LocationView)>,
    directory: LocationView,
)
    ensures
        targets_of(placed).contains(directory) <==> was_filled(placed, directory),
    decreases placed.len(),
{
    if placed.len() > 0 {
        let rest = placed.drop_last();
        let last = placed.len() - 1;
        targets_are_filled(rest, directory);
        if was_filled(rest, directory) {
            let k = choose|k: int|
                0 <= k < rest.len() && has_own_directory((#[trigger] rest[k]).0) && rest[k].1
                    == directory;
            assert(placed[k] == rest[k]);
        }
        if was_filled(placed, directory) {
            let k = choose|k: int|
                0 <= k < placed.len() && has_own_directory((#[trigger] placed[k]).0)
                    && placed[k].1 == directory;
            if k < last {
                assert(rest[k] == placed[k]);
            }
        }
        if has_own_directory(placed.last().0) {
            let before = targets_of(rest);
            let after = targets_of(placed);
            assert(after[before.len() as int] == placed[last].1);
            if before.contains(directory) {
                let x = choose|x: int| 0 <= x < before.len() && before[x] == directory;
                assert(after[x] == directory);
            }
            if after.contains(directory) {
                let x = choose|x: int| 0 <= x < after.len() && after[x] == directory;
                if x < before.len() {
                    assert(before[x] == directory);
                } else {
                    assert(placed[last].1 == directory);
                }
            }
        }
    }
}

/// Whether the first `i` pieces of software were installed and nothing else
/// happened.
spec fn software_until(s: EnvRunView, l: EnvLedger, i: int) -> bool {
    &&& 0 <= i <= s.payload.software.len()
    &&& l.tried == s.payload.software.take(i)
    &&& l.succeeded == i
    &&& l.scripts.len() == 0
}

/// Whether all software was installed and the first `j` scripts were run.
spec fn software_done(s: EnvRunView, l: EnvLedger, j: int) -> bool {
    &&& 0 <= j <= s.payload.scripts.len()
    &&& l.tried == s.payload.software
    &&& l.succeeded == s.payload.software.len()
    &&& l.scripts == s.payload.scripts.take(j)
}

/// Whether the environment was given up, with this news, because the user stopped
/// it or because a piece of software failed.
spec fn given_up(s: EnvRunView, l: EnvLedger, news: EnvDoneView) -> bool {
    if l.stopped {
        &&& news == s.stopped()
        &&& software_until(s, l, l.tried.len() as int) || software_done(
            s,
            l,
            l.scripts.len() as int,
        )
    } else {
        &&& news.id == s.payload.id
        &&& news.status == "failed"@
        &&& l.tried.len() <= s.payload.software.len()
        &&& l.tried == s.payload.software.take(l.tried.len() as int)
        &&& l.succeeded < s.payload.software.len()
        &&& l.scripts.len() == 0
    }
}

/// Whether `news` tells what became of the environment.
spec fn news_is_right(s: EnvRunView, l: EnvLedger, news: EnvDoneView) -> bool {
    ||| given_up(s, l, news) && l.removed == s.installed.to_set()
    ||| news == s.all_done() && !l.stopped && software_done(
        s,
        l,
        s.payload.scripts.len() as int,
    ) && l.removed == Set::<LocationView>::empty()
}

/// What ties a run to its ledger at every moment.
spec fn in_step(s: EnvRunView, l: EnvLedger) -> bool {
    &&& countable(s.payload)
    &&& s.installed == targets_of(l.placed)
    &&& forall|k: int|
        0 <= k < l.placed.len() ==> (#[trigger] l.placed[k]).1 == install_of(l.placed[k].0, s.home)
    &&& !(s.stage is Finished) ==> l.news.len() == 0
    &&& !(s.stage is RollBack || s.stage is Announce || s.stage is Finished) ==> !l.stopped
    &&& !(s.stage is Announce || s.stage is Finished) ==> l.removed == Set::<LocationView>::empty()
    &&& match s.stage {
        EnvStageView::Log => software_until(s, l, 0),
        EnvStageView::CheckSoftware(i) | EnvStageView::Install(i) => i < s.payload.software.len()
            && software_until(s, l, i as int),
        EnvStageView::RollBack(news) => given_up(s, l, news),
        EnvStageView::CheckScript(j)
        | EnvStageView::AnnounceScript(j)
        | EnvStageView::RunScript(j) => j < s.payload.scripts.len() && software_done(
            s,
            l,
            j as int,
        ),
        EnvStageView::ReportScript(j, _) => j < s.payload.scripts.len() && software_done(
            s,
            l,
            j + 1,
        ),
        EnvStageView::Announce(news) => news_is_right(s, l, news),
        EnvStageView::Finished => l.news.len() == 1 && news_is_right(s, l, l.news[0]),
    }
}

/// [`in_step`] is kept by every answer.
proof fn answer_keeps_step(s: EnvRunView, l: EnvLedger, event: EnvEventView)
    requires
        in_step(s, l),
    ensures
        in_step(s.next(event), l.record(s.action(), event)),
{
    let l2 = l.record(s.action(), event);
    let software = s.payload.software;
    let scripts = s.payload.scripts;
    assert(software.take(software.len() as int) =~= software);
    assert(scripts.take(scripts.len() as int) =~= scripts);
    assert(l.scripts.len() == 0 ==> l.scripts =~= scripts.take(0));
    match (s.stage, event) {
        (EnvStageView::CheckSoftware(i), EnvEventView::Cancelled(_)) => {
            assert(l.tried.len() == i);
        },
        (EnvStageView::Install(i), EnvEventView::Installed { placed, .. }) => {
            let k = i as int;
            assert(software.take(k + 1) =~= software.take(k).push(software[k]));
            if placed {
                assert(l2.placed.drop_last() =~= l.placed);
            }
        },
        (EnvStageView::RollBack(_), EnvEventView::Done) => {
            assert(l2.removed =~= s.installed.to_set());
        },
        (EnvStageView::CheckScript(j), EnvEventView::Cancelled(_)) => {
            assert(l.scripts.len() == j);
        },
        (EnvStageView::RunScript(j), EnvEventView::Completed(_)) => {
            let k = j as int;
            assert(scripts.take(k + 1) =~= scripts.take(k).push(scripts[k]));
        },
        _ => {},
    }
}

proof fn always_in_step(payload: PayloadView, home: Option<Seq<char>>, events: Seq<EnvEventView>)
    requires
        countable(payload),
    ensures
        in_step(run_after(payload, home, events), env_ledger_after(payload, home, events)),
        run_after(payload, home, events).payload == payload,
        run_after(payload, home, events).home == home,
    decreases events.len(),
{
    if events.len() == 0 {
        assert(payload.software.take(0) =~= Seq::<SoftwareView>::empty());
    } else {
        let before = events.drop_last();
        always_in_step(payload, home, before);
        answer_keeps_step(
            run_after(payload, home, before),
            env_ledger_after(payload, home, before),
            events.last(),
        );
    }
}

/// The software of an environment is installed in the order of its list, each
/// piece once, and so are its scripts run. No script runs before all software was
/// installed successfully.
pub proof fn items_come_in_order(
    payload: PayloadView,
    home: Option<Seq<char>>,
    events: Seq<EnvEventView>,
)
    requires
        countable(payload),
    ensures
        ({
            let l = env_ledger_after(payload, home, events);
            &&& l.tried.is_prefix_of(payload.software)
            &&& l.scripts.is_prefix_of(payload.scripts)
            &&& l.scripts.len() > 0 ==> l.tried == payload.software && l.succeeded
                == payload.software.len()
        }),
{
    always_in_step(payload, home, events);
    let l = env_ledger_after(payload, home, events);
    assert(l.tried =~= payload.software.take(l.tried.len() as int));
    assert(l.scripts =~= payload.scripts.take(l.scripts.len() as int));
}

/// A finished environment was announced exactly once: as cancelled where the user
/// was found to have stopped it, else as failed where not all its software was
/// installed, else as installed, and then all its scripts were run.
pub proof fn news_tells_what_happened(
    payload: PayloadView,
    home: Option<Seq<char>>,
    events: Seq<EnvEventView>,
)
    requires
        countable(payload),
        run_after(payload, home, events).stage is Finished,
    ensures
        ({
            let l = env_ledger_after(payload, home, events);
            let status = l.news[0].status;
            &&& l.news.len() == 1
            &&& l.news[0].id == payload.id
            &&& l.stopped <==> status == "cancelled"@
            &&& l.stopped ==> l.news[0].message == "Rolled back"@
            &&& !l.stopped && l.succeeded < payload.software.len() <==> status == "failed"@
            &&& !l.stopped && l.succeeded == payload.software.len() <==> status == "installed"@
            &&& status == "installed"@ ==> l.news[0].message == "Done"@ && l.scripts
                == payload.scripts
        }),
{
    always_in_step(payload, home, events);
    reveal_strlit("installed");
    reveal_strlit("cancelled");
    reveal_strlit("failed");
    assert("installed"@[0] == 'i' && "cancelled"@[0] == 'c' && "failed"@[0] == 'f');
    assert(payload.scripts.take(payload.scripts.len() as int) =~= payload.scripts);
}

/// Rollback is complete and removes nothing else. Where an environment was
/// announced as cancelled or failed, its caller was told to remove the directories
/// of all software that was put in its place and has a directory of its own, also
/// of software whose installation the user stopped right after that, and no other
/// directory. Where it was announced as installed, nothing was removed.
pub proof fn rollback_is_complete(
    payload: PayloadView,
    home: Option<Seq<char>>,
    events: Seq<EnvEventView>,
)
    requires
        countable(payload),
        run_after(payload, home, events).stage is Finished,
    ensures
        ({
            let l = env_ledger_after(payload, home, events);
            &&& l.news[0].status == "installed"@ ==> l.removed == Set::<LocationView>::empty()
            &&& l.news[0].status != "installed"@ ==> forall|directory: LocationView| #[trigger]
                l.removed.contains(directory) <==> was_filled(l.placed, directory)
            &&& l.news[0].status != "installed"@ ==> forall|k: int|
                0 <= k < l.placed.len() && (#[trigger] l.placed[k]).0.url.len() > 0
                    && l.placed[k].0.folder.len() > 0 ==> l.removed.contains(l.placed[k].1)
            &&& forall|directory: LocationView| #[trigger]
                l.removed.contains(directory) ==> exists|k: int|
                    0 <= k < l.placed.len() && (#[trigger] l.placed[k]).0.url.len() > 0
                        && l.placed[k].0.folder.len() > 0 && l.placed[k].1 == directory
        }),
{
    always_in_step(payload, home, events);
    news_tells_what_happened(payload, home, events);
    reveal_strlit("installed");
    reveal_strlit("cancelled");
    reveal_strlit("failed");
    assert("installed"@[0] == 'i' && "cancelled"@[0] == 'c' && "failed"@[0] == 'f');
    let l = env_ledger_after(payload, home, events);
    let s = run_after(payload, home, events);
    if l.news[0].status != "installed"@ {
        assert forall|directory: LocationView| #[trigger]
            l.removed.contains(directory) <==> was_filled(l.placed, directory) by {
            targets_are_filled(l.placed, directory);
            assert(s.installed.to_set().contains(directory) <==> s.installed.contains(directory));
        }
        assert forall|k: int|
            0 <= k < l.placed.len() && (#[trigger] l.placed[k]).0.url.len() > 0
                && l.placed[k].0.folder.len() > 0 implies l.removed.contains(l.placed[k].1) by {
            assert(was_filled(l.placed, l.placed[k].1));
        }
    }
}

/// Software is put in the directory that belongs to it, below the home directory
/// where it names no other. Software without anything to download has no directory
/// of its own, so that none that it names is ever removed for its sake.
pub proof fn directories_belong_to_their_software(
    payload: PayloadView,
    home: Option<Seq<char>>,
    events: Seq<EnvEventView>,
    directory: LocationView,
)
    requires
        countable(payload),
    ensures
        ({
            let l = env_ledger_after(payload, home, events);
            &&& forall|k: int|
                0 <= k < l.placed.len() ==> (#[trigger] l.placed[k]).1 == install_of(
                    l.placed[k].0,
                    home,
                )
            &&& was_filled(l.placed, directory) ==> exists|k: int|
                0 <= k < l.placed.len() && directory == install_of(
                    (#[trigger] l.placed[k]).0,
                    home,
                ) && l.placed[k].0.url.len() > 0 && l.placed[k].0.folder.len() > 0
        }),
{
    always_in_step(payload, home, events);
    let l = env_ledger_after(payload, home, events);
    if was_filled(l.placed, directory) {
        let k = choose|k: int|
            0 <= k < l.placed.len() && has_own_directory((#[trigger] l.placed[k]).0)
                && l.placed[k].1 == directory;
        assert(directory == install_of(l.placed[k].0, home));
    }
}

/// A stop that is noticed before a piece of software or before a script is
/// answered with the removal of what was installed and with the news that the
/// environment was rolled back, and that is the end: nothing after it is installed
/// or run.
pub proof fn stop_rolls_back(s: EnvRunView)
    requires
        s.stage is CheckSoftware || s.stage is CheckScript,
    ensures
        ({
            let removing = s.next(EnvEventView::Cancelled(true));
            let telling = removing.next(EnvEventView::Done);
            &&& removing.action() == EnvActionView::Remove(s.installed)
            &&& telling.action() == EnvActionView::Announce(
                EnvDoneView {
                    id: s.payload.id,
                    status: "cancelled"@,
                    message: "Rolled back"@,
                },
            )
            &&& telling.next(EnvEventView::Done).stage is Finished
        }),
{
}

/// A piece of software that fails, or in whose midst the user stops, is answered
/// with the removal of what was installed, of this piece too where it was put in
/// its place, and with the news of its failure, in its own words, and that is the
/// end.
pub proof fn failure_rolls_back(s: EnvRunView, i: usize, result: StepView, placed: bool)
    requires
        s.stage == EnvStageView::Install(i),
        !result.success,
    ensures
        ({
            let software = s.payload.software[i as int];
            let removing = s.next(EnvEventView::Installed { result, placed });
            let telling = removing.next(EnvEventView::Done);
            &&& removing.action() == EnvActionView::Remove(
                with_target(s.installed, software, s.home, placed),
            )
            &&& placed && has_own_directory(software) ==> removing.action()
                == EnvActionView::Remove(s.installed.push(install_of(software, s.home)))
            &&& telling.action() == EnvActionView::Announce(
                EnvDoneView { id: s.payload.id, status: "failed"@, message: result.message },
            )
            &&& telling.next(EnvEventView::Done).stage is Finished
        }),
{
}

/// Whether `event` is an answer to what the run asks for.
pub open spec fn env_answers(s: EnvRunView, event: EnvEventView) -> bool {
    match s.action() {
        EnvActionView::ReadCancel => event is Cancelled,
        EnvActionView::Install { .. } => event is Installed,
        EnvActionView::RunScript(_) => event is Completed,
        EnvActionView::Stop => false,
        _ => event is Done,
    }
}

/// A bound on the answers that a run still needs.
pub open spec fn env_answers_left(s: EnvRunView) -> int {
    let software = s.payload.software.len() as int;
    let scripts = s.payload.scripts.len() as int;
    match s.stage {
        EnvStageView::Log => 2 * software + 4 * scripts + 3,
        EnvStageView::CheckSoftware(i) => 2 * (software - i) + 4 * scripts + 2,
        EnvStageView::Install(i) => 2 * (software - i) + 4 * scripts + 1,
        EnvStageView::RollBack(_) => 2,
        EnvStageView::CheckScript(j) => 4 * (scripts - j) + 1,
        EnvStageView::AnnounceScript(j) => 4 * (scripts - j),
        EnvStageView::RunScript(j) => 4 * (scripts - j) - 1,
        EnvStageView::ReportScript(j, _) => 4 * (scripts - j) - 2,
        EnvStageView::Announce(_) => 1,
        EnvStageView::Finished => 0,
    }
}

/// Every answer brings a run closer to its end, so a number of them that the
/// length of the lists bounds finishes it; an event that is no answer changes
/// nothing.
pub proof fn every_answer_advances_the_run(
    payload: PayloadView,
    home: Option<Seq<char>>,
    events: Seq<EnvEventView>,
    event: EnvEventView,
)
    requires
        countable(payload),
    ensures
        ({
            let s = run_after(payload, home, events);
            &&& env_answers(s, event) ==> 0 <= env_answers_left(s.next(event))
                < env_answers_left(s)
            &&& !env_answers(s, event) ==> s.next(event) == s
            &&& env_answers_left(s) == 0 <==> s.stage is Finished
        }),
        env_answers_left(run_after(payload, home, Seq::empty())) == 2 * payload.software.len() + 4
            * payload.scripts.len() + 3,
{
    always_in_step(payload, home, events);
    answer_keeps_step(run_after(payload, home, events), env_ledger_after(payload, home, events), event);
}

/// The run once the beginning was logged and the first pieces of software were
/// installed, the user not having stopped it, with these outcomes.
pub open spec fn after_software(
    payload: PayloadView,
    home: Option<Seq<char>>,
    done: Seq<(StepView, bool)>,
) -> EnvRunView
    decreases done.len(),
{
    if done.len() == 0 {
        EnvRunView::start(payload, home).next(EnvEventView::Done)
    } else {
        after_software(payload, home, done.drop_last()).next(EnvEventView::Cancelled(false)).next(
            EnvEventView::Installed { result: done.last().0, placed: done.last().1 },
        )
    }
}

/// The run once the first scripts were run as well, with these outcomes.
pub open spec fn after_scripts(
    payload: PayloadView,
    home: Option<Seq<char>>,
    done: Seq<(StepView, bool)>,
    ran: Seq<StepView>,
) -> EnvRunView
    decreases ran.len(),
{
    if ran.len() == 0 {
        after_software(payload, home, done)
    } else {
        after_scripts(payload, home, done, ran.drop_last()).next(
            EnvEventView::Cancelled(false),
        ).next(EnvEventView::Done).next(EnvEventView::Completed(ran.last())).next(
            EnvEventView::Done,
        )
    }
}

/// Whether all outcomes are successes.
spec fn all_succeeded(done: Seq<(StepView, bool)>) -> bool {
    forall|j: int| 0 <= j < done.len() ==> (#[trigger] done[j]).0.success
}

/// Whether `directory` is where one of the first pieces of software was put: one
/// that has something to download and a folder.
spec fn holds_software(
    payload: PayloadView,
    home: Option<Seq<char>>,
    done: Seq<(StepView, bool)>,
    directory: LocationView,
) -> bool {
    exists|j: int|
        0 <= j < done.len() && j < payload.software.len() && (#[trigger] done[j]).1
            && payload.software[j].url.len() > 0 && payload.software[j].folder.len() > 0
            && directory == install_of(payload.software[j], home)
}

/// Where the run stands after the first pieces of software.
proof fn software_brings_the_run_here(
    payload: PayloadView,
    home: Option<Seq<char>>,
    done: Seq<(StepView, bool)>,
)
    requires
        countable(payload),
        done.len() <= payload.software.len(),
        all_succeeded(done),
    ensures
        ({
            let s = after_software(payload, home, done);
            &&& s.payload == payload && s.home == home
            &&& s.stage == s.at_software(done.len() as int)
            &&& forall|directory: LocationView| #[trigger]
                s.installed.contains(directory) <==> holds_software(payload, home, done, directory)
        }),
    decreases done.len(),
{
    let s = after_software(payload, home, done);
    if done.len() == 0 {
        assert(s.installed =~= Seq::<LocationView>::empty());
    } else {
        let rest = done.drop_last();
        let n = rest.len() as int;
        assert(all_succeeded(rest)) by {
            assert forall|j: int| 0 <= j < rest.len() implies (#[trigger] rest[j]).0.success by {
                assert(rest[j] == done[j]);
            }
        }
        software_brings_the_run_here(payload, home, rest);
        let before = after_software(payload, home, rest);
        assert(done[n].0.success);
        let item = payload.software[n];
        let kept = done[n].1 && item.url.len() > 0 && item.folder.len() > 0;
        assert forall|directory: LocationView| #[trigger]
            s.installed.contains(directory) <==> holds_software(
            payload,
            home,
            done,
            directory,
        ) by {
            if holds_software(payload, home, rest, directory) {
                let j = choose|j: int|
                    0 <= j < rest.len() && j < payload.software.len() && (#[trigger] rest[j]).1
                        && payload.software[j].url.len() > 0 && payload.software[j].folder.len() > 0
                        && directory == install_of(payload.software[j], home);
                assert(done[j] == rest[j]);
            }
            if holds_software(payload, home, done, directory) {
                let j = choose|j: int|
                    0 <= j < done.len() && j < payload.software.len() && (#[trigger] done[j]).1
                        && payload.software[j].url.len() > 0 && payload.software[j].folder.len() > 0
                        && directory == install_of(payload.software[j], home);
                if j < n {
                    assert(rest[j] == done[j]);
                }
            }
            contains_after_push(before.installed, install_of(item, home), directory);
        }
    }
}

proof fn contains_after_push(list: Seq<LocationView>, one: LocationView, directory: LocationView)
    ensures
        list.push(one).contains(directory) <==> list.contains(directory) || directory == one,
{
    let more = list.push(one);
    assert(more[list.len() as int] == one);
    if list.contains(directory) {
        let x = choose|x: int| 0 <= x < list.len() && list[x] == directory;
        assert(more[x] == directory);
    }
    if more.contains(directory) {
        let x = choose|x: int| 0 <= x < more.len() && more[x] == directory;
        if x < list.len() {
            assert(list[x] == directory);
        }
    }
}

/// Where the run stands after the first scripts.
proof fn scripts_bring_the_run_here(
    payload: PayloadView,
    home: Option<Seq<char>>,
    done: Seq<(StepView, bool)>,
    ran: Seq<StepView>,
)
    requires
        countable(payload),
        done.len() == payload.software.len(),
        all_succeeded(done),
        ran.len() <= payload.scripts.len(),
    ensures
        ({
            let s = after_scripts(payload, home, done, ran);
            &&& s.payload == payload && s.home == home
            &&& s.stage == s.at_script(ran.len() as int)
            &&& s.installed == after_software(payload, home, done).installed
        }),
    decreases ran.len(),
{
    software_brings_the_run_here(payload, home, done);
    if ran.len() > 0 {
        scripts_bring_the_run_here(payload, home, done, ran.drop_last());
    }
}

/// The first that is done is to log that the environment begins.
pub proof fn beginning_is_logged(payload: PayloadView, home: Option<Seq<char>>)
    ensures
        EnvRunView::start(payload, home).action() == EnvActionView::Log(
            "=== Start: id="@ + decimal(payload.id as nat) + " ==="@,
        ),
{
}

/// After the first pieces of software the next one of the list is due. First it is
/// seen whether the user has stopped. If not, this piece is installed, in its own
/// folder below its parent directory, else below the home directory, else below
/// the current one. If the user has stopped, just the directories of the software
/// that was put in its place are removed, the environment is announced as
/// cancelled, and that is the end.
pub proof fn next_software_is_due(
    payload: PayloadView,
    home: Option<Seq<char>>,
    done: Seq<(StepView, bool)>,
)
    requires
        payload.software.len() + payload.scripts.len() <= usize::MAX,
        done.len() < payload.software.len(),
        forall|j: int| 0 <= j < done.len() ==> (#[trigger] done[j]).0.success,
    ensures
        ({
            let n = done.len() as int;
            let item = payload.software[n];
            let s = after_software(payload, home, done);
            let stopped = s.next(EnvEventView::Cancelled(true));
            let told = stopped.next(EnvEventView::Done);
            &&& s.action() == EnvActionView::ReadCancel
            &&& s.next(EnvEventView::Cancelled(false)).action() matches EnvActionView::Install {
                software,
                index,
                directory,
            } && {
                &&& software == item
                &&& index == n
                &&& directory.segments == seq![item.folder]
                &&& item.dir.len() > 0 ==> directory.root == RootView::Text(item.dir)
                &&& item.dir.len() == 0 && home is Some ==> directory.root == RootView::Text(
                    home->0,
                )
                &&& item.dir.len() == 0 && home is None ==> directory.root == RootView::Text("."@)
            }
            &&& stopped.action() matches EnvActionView::Remove(list) && (forall|
                directory: LocationView,
            | #[trigger]
                list.contains(directory) <==> exists|j: int|
                    0 <= j < done.len() && j < payload.software.len() && (#[trigger] done[j]).1
                        && payload.software[j].url.len() > 0 && payload.software[j].folder.len()
                        > 0 && directory == install_of(payload.software[j], home))
            &&& told.action() == EnvActionView::Announce(
                EnvDoneView { id: payload.id, status: "cancelled"@, message: "Rolled back"@ },
            )
            &&& told.next(EnvEventView::Done).action() == EnvActionView::Stop
        }),
{
    software_brings_the_run_here(payload, home, done);
    software_goes_to_its_own_folder(payload.software[done.len() as int], home);
}

/// A piece of software that fails, or in whose midst the user stops, ends the
/// environment: just the directories of the software that was put in its place are
/// removed, that of this piece among them where it was; the environment is
/// announced as failed, in the words of this piece; nothing else is installed or
/// run.
pub proof fn failing_software_ends_the_run(
    payload: PayloadView,
    home: Option<Seq<char>>,
    done: Seq<(StepView, bool)>,
    result: StepView,
    placed: bool,
)
    requires
        payload.software.len() + payload.scripts.len() <= usize::MAX,
        done.len() < payload.software.len(),
        forall|j: int| 0 <= j < done.len() ==> (#[trigger] done[j]).0.success,
        !result.success,
    ensures
        ({
            let removing = after_software(payload, home, done).next(
                EnvEventView::Cancelled(false),
            ).next(EnvEventView::Installed { result, placed });
            let told = removing.next(EnvEventView::Done);
            &&& removing.action() matches EnvActionView::Remove(list) && (forall|
                directory: LocationView,
            | #[trigger]
                list.contains(directory) <==> (exists|j: int|
                    0 <= j < done.len() && (#[trigger] done[j]).1 && payload.software[j].url.len()
                        > 0 && payload.software[j].folder.len() > 0 && directory == install_of(
                        payload.software[j],
                        home,
                    )) || (placed && payload.software[done.len() as int].url.len() > 0
                    && payload.software[done.len() as int].folder.len() > 0 && directory
                    == install_of(payload.software[done.len() as int], home)))
            &&& told.action() == EnvActionView::Announce(
                EnvDoneView { id: payload.id, status: "failed"@, message: result.message },
            )
            &&& told.next(EnvEventView::Done).action() == EnvActionView::Stop
        }),
{
    software_brings_the_run_here(payload, home, done);
    let n = done.len() as int;
    let item = payload.software[n];
    let before = after_software(payload, home, done);
    let removing = before.next(EnvEventView::Cancelled(false)).next(
        EnvEventView::Installed { result, placed },
    );
    assert forall|directory: LocationView| #[trigger]
        removing.installed.contains(directory) <==> holds_software(
        payload,
        home,
        done,
        directory,
    ) || (placed && item.url.len() > 0 && item.folder.len() > 0 && directory == install_of(
        item,
        home,
    )) by {
        contains_after_push(before.installed, install_of(item, home), directory);
        assert(before.installed.contains(directory) <==> holds_software(
            payload,
            home,
            done,
            directory,
        ));
    }
}

/// Once all software is installed, the scripts are due one after the other. First
/// it is seen whether the user has stopped. If not, the user is told, this script
/// is run, and the user is told what came of it; a failure does not end the run.
/// If the user has stopped, just the directories of the software that was put in
/// its place are removed, the environment is announced as cancelled, and that is
/// the end.
pub proof fn next_script_is_due(
    payload: PayloadView,
    home: Option<Seq<char>>,
    done: Seq<(StepView, bool)>,
    ran: Seq<StepView>,
    result: StepView,
)
    requires
        payload.software.len() + payload.scripts.len() <= usize::MAX,
        done.len() == payload.software.len(),
        forall|j: int| 0 <= j < done.len() ==> (#[trigger] done[j]).0.success,
        ran.len() < payload.scripts.len(),
    ensures
        ({
            let m = ran.len() as int;
            let s = after_scripts(payload, home, done, ran);
            let going = s.next(EnvEventView::Cancelled(false));
            let running = going.next(EnvEventView::Done);
            let stopped = s.next(EnvEventView::Cancelled(true));
            let told = stopped.next(EnvEventView::Done);
            &&& s.action() == EnvActionView::ReadCancel
            &&& going.action() == EnvActionView::Report(
                ProgressView {
                    id: payload.id,
                    software_index: (payload.software.len() + m) as usize,
                    progress: 50,
                    status: "script"@,
                    message: "Running script"@,
                    operation: "executing"@,
                },
            )
            &&& running.action() == EnvActionView::RunScript(payload.scripts[m])
            &&& running.next(EnvEventView::Completed(result)).action() == EnvActionView::Report(
                ProgressView {
                    id: payload.id,
                    software_index: (payload.software.len() + m) as usize,
                    progress: 100,
                    status: if result.success {
                        "done"@
                    } else {
                        "error"@
                    },
                    message: result.message,
                    operation: "done"@,
                },
            )
            &&& stopped.action() matches EnvActionView::Remove(list) && (forall|
                directory: LocationView,
            | #[trigger]
                list.contains(directory) <==> exists|j: int|
                    0 <= j < done.len() && j < payload.software.len() && (#[trigger] done[j]).1
                        && payload.software[j].url.len() > 0 && payload.software[j].folder.len()
                        > 0 && directory == install_of(payload.software[j], home))
            &&& told.action() == EnvActionView::Announce(
                EnvDoneView { id: payload.id, status: "cancelled"@, message: "Rolled back"@ },
            )
            &&& told.next(EnvEventView::Done).action() == EnvActionView::Stop
        }),
{
    software_brings_the_run_here(payload, home, done);
    scripts_bring_the_run_here(payload, home, done, ran);
}

/// Once all software is installed and all scripts were run, whatever came of them,
/// the environment is announced as installed, and that is the end.
pub proof fn full_run_is_announced(
    payload: PayloadView,
    home: Option<Seq<char>>,
    done: Seq<(StepView, bool)>,
    ran: Seq<StepView>,
)
    requires
        payload.software.len() + payload.scripts.len() <= usize::MAX,
        done.len() == payload.software.len(),
        forall|j: int| 0 <= j < done.len() ==> (#[trigger] done[j]).0.success,
        ran.len() == payload.scripts.len(),
    ensures
        ({
            let s = after_scripts(payload, home, done, ran);
            &&& s.action() == EnvActionView::Announce(
                EnvDoneView { id: payload.id, status: "installed"@, message: "Done"@ },
            )
            &&& s.next(EnvEventView::Done).action() == EnvActionView::Stop
        }),
{
    scripts_bring_the_run_here(payload, home, done, ran);
}

/// What is read from the answers and handed out as actions keeps every part.
pub proof fn readings_keep_actions_and_answers(action: EnvAction, event: EnvEvent)
    ensures
        action matches EnvAction::Log(m) ==> action@ == EnvActionView::Log(m@),
        action is ReadCancel ==> action@ == EnvActionView::ReadCancel,
        action matches EnvAction::Install { software, index, directory } ==> action@ == (
        EnvActionView::Install { software: software@, index, directory: directory@ }),
        action matches EnvAction::Remove(list) ==> (action@ matches EnvActionView::Remove(seen)
            && seen.len() == list@.len() && (forall|i: int|
            0 <= i < list@.len() ==> #[trigger] seen[i] == list@[i]@)),
        action matches EnvAction::Report(e) ==> action@ == EnvActionView::Report(e@),
        action matches EnvAction::RunScript(c) ==> action@ == EnvActionView::RunScript(c@),
        action matches EnvAction::Announce(e) ==> action@ == EnvActionView::Announce(e@),
        action is Stop ==> action@ == EnvActionView::Stop,
        event is Done ==> event@ == EnvEventView::Done,
        event matches EnvEvent::Cancelled(yes) ==> event@ == EnvEventView::Cancelled(yes),
        event matches EnvEvent::Installed { result, placed } ==> event@ == (
        EnvEventView::Installed { result: result@, placed }),
        event matches EnvEvent::Completed(result) ==> event@ == EnvEventView::Completed(result@),
{
}

/// A piece of software has a directory to roll back exactly if it has something to
/// download and a folder, and this is the folder that it is installed in.
pub proof fn rollback_is_of_the_own_folder(software: SoftwareView, home: Option<Seq<char>>)
    ensures
        rollback_target(software, home) is Some <==> software.url.len() > 0
            && software.folder.len() > 0,
        rollback_target(software, home) matches Some(target) ==> target.segments == seq![
            software.folder,
        ] && target.root == install_of(software, home).root,
{
    software_goes_to_its_own_folder(software, home);
}

/// An event that does not answer what was asked for changes nothing.
pub proof fn wrong_answers_do_not_move_the_run(s: EnvRunView, event: EnvEventView)
    ensures
        s.action() is ReadCancel && !(event is Cancelled) ==> s.next(event) == s,
        s.action() is Install && !(event is Installed) ==> s.next(event) == s,
        s.action() is RunScript && !(event is Completed) ==> s.next(event) == s,
        s.action() is Stop ==> s.next(event) == s,
        (s.action() is Log || s.action() is Remove || s.action() is Report || s.action() is Announce)
            && !(event is Done) ==> s.next(event) == s,
{
}

} // verus!
