//! What holds of every resolution: of each single step, of every course the
//! host's answers can give it, and of its outcome against any host.

use vstd::prelude::*;
use crate::model::{
    answer, answers, asset_name, begin, downloads, drive, find_asset, install_plan, misses,
    missing_asset_message, next_cache, next_phase, planned, repository, request, requests,
    resolution, restores, run, unsupported_platform_message, ActionView, AssetView, EventView,
    HostView, InstallPlanView, PhaseView, ReleaseView, Status, EXECUTABLE_MODE,
};
use crate::platform::{archive_format_of, is_supported, suffix_of, Architecture, Os};

verus! {

// Single steps.

/// An event that is no answer to what the phase asked changes nothing: the
/// phase stays, and with it the request and the remembered path.
pub proof fn unexpected_answer_changes_nothing(
    cache: Option<Seq<char>>,
    phase: PhaseView,
    event: EventView,
)
    requires
        !answers(phase, event),
    ensures
        next_phase(phase, event) == phase,
        next_cache(cache, phase, event) == cache,
{
}

/// What a host says to a request is an answer to it.
pub proof fn host_answers_what_is_asked(host: HostView, phase: PhaseView)
    requires
        !(phase is Done),
    ensures
        answers(phase, answer(host, phase)),
{
}

/// A download is announced only when the host has said that the binary is
/// not in place, and started only when it has been announced.
pub proof fn download_only_for_absent_binary(phase: PhaseView, event: EventView)
    ensures
        request(phase) is Download <==> phase is Downloading,
        !(phase is AnnouncingDownload) && next_phase(phase, event) is AnnouncingDownload ==> {
            &&& phase is CheckingInstall
            &&& event == (EventView::FileChecked { is_file: false })
            &&& next_phase(phase, event)->AnnouncingDownload_plan == phase->CheckingInstall_plan
        },
        !(phase is Downloading) && next_phase(phase, event) is Downloading ==> {
            &&& phase is AnnouncingDownload
            &&& event is StatusReported
            &&& next_phase(phase, event)->Downloading_plan == phase->AnnouncingDownload_plan
        },
{
}

/// The executable bit is restored only right after a download that went
/// well, and only on macOS and Linux: never when the binary was found in
/// place, and never on Windows.
pub proof fn permissions_restored_only_after_fresh_download(phase: PhaseView, event: EventView)
    requires
        !(phase is RestoringPermissions),
        next_phase(phase, event) is RestoringPermissions,
    ensures
        phase is Downloading,
        event matches EventView::Downloaded { outcome } && outcome is Ok,
        phase->Downloading_plan.os == Os::Mac || phase->Downloading_plan.os == Os::Linux,
        next_phase(phase, event)->RestoringPermissions_plan == phase->Downloading_plan,
{
}

/// Only the phase that restores permissions asks for a change of mode, and
/// it asks for `rwxr-xr-x` on the planned binary.
pub proof fn mode_change_is_requested_only_when_restoring(phase: PhaseView)
    ensures
        request(phase) is MakeExecutable <==> phase is RestoringPermissions,
        phase is RestoringPermissions ==> request(phase) == (ActionView::MakeExecutable {
            path: phase->RestoringPermissions_plan.binary_path,
            mode: EXECUTABLE_MODE,
        }),
{
}

// The search for the asset.

/// The asset found is the first that bears exactly the name, and none is
/// found only where no asset bears it.
pub proof fn find_asset_is_first_match(assets: Seq<AssetView>, name: Seq<char>)
    ensures
        match find_asset(assets, name) {
            Some(asset) => exists|i: int|
                0 <= i < assets.len() && assets[i] == asset && asset.name == name && forall|j: int|
                    0 <= j < i ==> assets[j].name != name,
            None => forall|i: int| 0 <= i < assets.len() ==> assets[i].name != name,
        },
    decreases assets.len(),
{
    if assets.len() == 0 {
    } else if assets[0].name == name {
        assert(assets[0] == find_asset(assets, name)->0);
    } else {
        let rest = assets.drop_first();
        find_asset_is_first_match(rest, name);
        match find_asset(rest, name) {
            Some(asset) => {
                let k = choose|i: int|
                    0 <= i < rest.len() && rest[i] == asset && asset.name == name && forall|j: int|
                        0 <= j < i ==> rest[j].name != name;
                assert forall|j: int| 0 <= j < k + 1 implies assets[j].name != name by {
                    if j > 0 {
                        assert(assets[j] == rest[j - 1]);
                    }
                }
                assert(assets[k + 1] == asset);
            },
            None => {
                assert forall|i: int| 0 <= i < assets.len() implies assets[i].name != name by {
                    if i > 0 {
                        assert(assets[i] == rest[i - 1]);
                    }
                }
            },
        }
    }
}

// Courses of events.

/// A finished resolution stays finished: no answer of the host moves it,
/// changes what is remembered or makes it ask for anything again.
pub proof fn finished_is_final(
    cache: Option<Seq<char>>,
    result: Result<Seq<char>, Seq<char>>,
    events: Seq<EventView>,
)
    ensures
        run(cache, PhaseView::Done { result }, events) == (cache, PhaseView::Done { result }),
        requests(PhaseView::Done { result }, events) == Seq::new(
            events.len() + 1,
            |i: int| ActionView::Finish { result },
        ),
    decreases events.len(),
{
    let all = Seq::new(events.len() + 1, |i: int| ActionView::Finish { result });
    if events.len() > 0 {
        finished_is_final(cache, result, events.drop_first());
        let rest = Seq::new(events.len(), |i: int| ActionView::Finish { result });
        assert(events.drop_first().len() + 1 == events.len());
        assert(all =~= seq![ActionView::Finish { result }] + rest);
    } else {
        assert(all =~= seq![ActionView::Finish { result }]);
    }
}

/// A resolution that ends in success leaves the path it found remembered,
/// whatever course it took.
pub proof fn success_is_remembered(
    cache: Option<Seq<char>>,
    phase: PhaseView,
    events: Seq<EventView>,
    path: Seq<char>,
)
    requires
        !(phase is Done),
        run(cache, phase, events).1 == (PhaseView::Done { result: Ok(path) }),
    ensures
        run(cache, phase, events).0 == Some(path),
    decreases events.len(),
{
    if events.len() > 0 {
        let next = next_phase(phase, events[0]);
        let remembered = next_cache(cache, phase, events[0]);
        match next {
            PhaseView::Done { result } => {
                finished_is_final(remembered, result, events.drop_first());
            },
            _ => {
                success_is_remembered(remembered, next, events.drop_first(), path);
            },
        }
    }
}

/// Resolving again after a success, with the binary still in place, asks the
/// host for one file check and nothing else, and hands out the same path: no
/// second download, no second change of permissions.
pub proof fn repeated_resolution_is_idempotent(
    cache: Option<Seq<char>>,
    events: Seq<EventView>,
    path: Seq<char>,
)
    requires
        run(cache, begin(cache), events).1 == (PhaseView::Done { result: Ok(path) }),
    ensures
        ({
            let remembered = run(cache, begin(cache), events).0;
            let present = seq![EventView::FileChecked { is_file: true }];
            &&& remembered == Some(path)
            &&& requests(begin(remembered), present) == seq![
                ActionView::CheckFile { path },
                ActionView::Finish { result: Ok(path) },
            ]
            &&& run(remembered, begin(remembered), present) == (
                remembered,
                PhaseView::Done { result: Ok(path) },
            )
        }),
{
    success_is_remembered(cache, begin(cache), events, path);
    let present = seq![EventView::FileChecked { is_file: true }];
    reveal_with_fuel(run, 3);
    reveal_with_fuel(requests, 3);
    assert(present.drop_first().len() == 0);
    assert(requests(begin(Some(path)), present) =~= seq![
        ActionView::CheckFile { path },
        ActionView::Finish { result: Ok(path) },
    ]);
}

/// A resolver that remembers nothing and finds the binary of the latest
/// release already extracted hands out its path without a download and
/// without a change of permissions, and remembers it.
pub proof fn present_binary_is_not_fetched_again(release: ReleaseView, os: Os, arch: Architecture)
    requires
        install_plan(release, os, arch) is Ok,
    ensures
        ({
            let plan = install_plan(release, os, arch)->Ok_0;
            let course = seq![
                EventView::StatusReported,
                EventView::ReleaseFetched { release: Ok(release) },
                EventView::PlatformQueried { os, arch },
                EventView::FileChecked { is_file: true },
            ];
            &&& requests(begin(None), course) == seq![
                ActionView::ReportStatus { status: Status::CheckingForUpdate },
                ActionView::FetchLatestRelease {
                    repository: repository(),
                    require_assets: true,
                    pre_release: false,
                },
                ActionView::QueryPlatform,
                ActionView::CheckFile { path: plan.binary_path },
                ActionView::Finish { result: Ok(plan.binary_path) },
            ]
            &&& run(None, begin(None), course) == (
                Some(plan.binary_path),
                PhaseView::Done { result: Ok(plan.binary_path) },
            )
        }),
{
    let plan = install_plan(release, os, arch)->Ok_0;
    let course = seq![
        EventView::StatusReported,
        EventView::ReleaseFetched { release: Ok(release) },
        EventView::PlatformQueried { os, arch },
        EventView::FileChecked { is_file: true },
    ];
    assert(course.drop_first().drop_first().drop_first().drop_first().len() == 0);
    reveal_with_fuel(run, 6);
    reveal_with_fuel(requests, 6);
    assert(requests(begin(None), course) =~= seq![
        ActionView::ReportStatus { status: Status::CheckingForUpdate },
        ActionView::FetchLatestRelease {
            repository: repository(),
            require_assets: true,
            pre_release: false,
        },
        ActionView::QueryPlatform,
        ActionView::CheckFile { path: plan.binary_path },
        ActionView::Finish { result: Ok(plan.binary_path) },
    ]);
}

// Whole resolutions against a host.

/// Once finished, a resolution is not moved by what the host goes on to say.
pub proof fn drive_stays_finished(
    cache: Option<Seq<char>>,
    result: Result<Seq<char>, Seq<char>>,
    host: HostView,
    steps: nat,
)
    ensures
        drive(cache, PhaseView::Done { result }, host, steps) == (cache, PhaseView::Done { result }),
    decreases steps,
{
    if steps > 0 {
        drive_stays_finished(cache, result, host, (steps - 1) as nat);
    }
}

/// Answering some requests and then some more is answering them all.
pub proof fn drive_in_two(
    cache: Option<Seq<char>>,
    phase: PhaseView,
    host: HostView,
    first: nat,
    then: nat,
)
    ensures
        drive(cache, phase, host, first + then) == drive(
            drive(cache, phase, host, first).0,
            drive(cache, phase, host, first).1,
            host,
            then,
        ),
    decreases first,
{
    if first > 0 {
        drive_in_two(
            next_cache(cache, phase, answer(host, phase)),
            next_phase(phase, answer(host, phase)),
            host,
            (first - 1) as nat,
            then,
        );
    }
}

/// Against any host, a resolution is over after at most eight answers, and it
/// comes to what the host's answers and the remembered path determine. A path
/// found is remembered; a failure leaves the memory as it was.
pub proof fn resolution_ends_as_determined(cache: Option<Seq<char>>, host: HostView)
    ensures
        drive(cache, begin(cache), host, 8) == (
            match resolution(cache, host) {
                Ok(path) => Some(path),
                Err(_) => cache,
            },
            PhaseView::Done { result: resolution(cache, host) },
        ),
{
    reveal_with_fuel(drive, 9);
    let p0 = begin(cache);
    let p1 = next_phase(p0, answer(host, p0));
    let p2 = next_phase(p1, answer(host, p1));
    let p3 = next_phase(p2, answer(host, p2));
    let p4 = next_phase(p3, answer(host, p3));
    let p5 = next_phase(p4, answer(host, p4));
    let p6 = next_phase(p5, answer(host, p5));
    let p7 = next_phase(p6, answer(host, p6));
    let p8 = next_phase(p7, answer(host, p7));
    assert(p8 == (PhaseView::Done { result: resolution(cache, host) }));
}

/// A failed resolution is not remembered: the next one starts as this one
/// did, with the whole sequence before it.
pub proof fn failure_is_not_remembered(cache: Option<Seq<char>>, host: HostView)
    requires
        resolution(cache, host) is Err,
    ensures
        drive(cache, begin(cache), host, 8).0 == cache,
        begin(drive(cache, begin(cache), host, 8).0) == begin(cache),
{
    resolution_ends_as_determined(cache, host);
}

/// Against any host, a resolution asks for a download exactly when the
/// remembered path is of no use, the latest release holds the platform's
/// asset and its binary is not in place; and it asks for the binary to be
/// marked executable exactly when, on top of that, the download went well on
/// macOS or Linux.
pub proof fn effects_are_as_determined(cache: Option<Seq<char>>, host: HostView)
    ensures
        downloads(cache, host) <==> exists|n: nat| #[trigger]
            request(drive(cache, begin(cache), host, n).1) is Download,
        restores(cache, host) <==> exists|n: nat| #[trigger]
            request(drive(cache, begin(cache), host, n).1) is MakeExecutable,
{
    reveal_with_fuel(drive, 9);
    resolution_ends_as_determined(cache, host);
    let result = resolution(cache, host);
    let last = drive(cache, begin(cache), host, 8);
    assert forall|n: nat| #[trigger]
        request(drive(cache, begin(cache), host, n).1) is Download implies downloads(
        cache,
        host,
    ) by {
        if n > 8 {
            drive_in_two(cache, begin(cache), host, 8, (n - 8) as nat);
            drive_stays_finished(last.0, result, host, (n - 8) as nat);
        }
    }
    assert forall|n: nat| #[trigger]
        request(drive(cache, begin(cache), host, n).1) is MakeExecutable implies restores(
        cache,
        host,
    ) by {
        if n > 8 {
            drive_in_two(cache, begin(cache), host, 8, (n - 8) as nat);
            drive_stays_finished(last.0, result, host, (n - 8) as nat);
        }
    }
    if downloads(cache, host) {
        if cache is Some {
            assert(request(drive(cache, begin(cache), host, 6).1) is Download);
        } else {
            assert(request(drive(cache, begin(cache), host, 5).1) is Download);
        }
    }
    if restores(cache, host) {
        if cache is Some {
            assert(request(drive(cache, begin(cache), host, 7).1) is MakeExecutable);
        } else {
            assert(request(drive(cache, begin(cache), host, 6).1) is MakeExecutable);
        }
    }
}

/// Resolving twice in a row, the binary found the first time still in place
/// the second time: the second resolution hands out the same path after one
/// file check, downloads nothing and changes no permissions.
pub proof fn resolving_again_is_idempotent(
    cache: Option<Seq<char>>,
    host: HostView,
    again: HostView,
    path: Seq<char>,
)
    requires
        resolution(cache, host) == Ok::<Seq<char>, Seq<char>>(path),
        again.cached_is_file,
    ensures
        ({
            let remembered = drive(cache, begin(cache), host, 8).0;
            &&& remembered == Some(path)
            &&& request(begin(remembered)) == (ActionView::CheckFile { path })
            &&& drive(remembered, begin(remembered), again, 1) == (
                remembered,
                PhaseView::Done { result: Ok(path) },
            )
            &&& resolution(remembered, again) == Ok::<Seq<char>, Seq<char>>(path)
            &&& !downloads(remembered, again)
            &&& !restores(remembered, again)
        }),
{
    resolution_ends_as_determined(cache, host);
    reveal_with_fuel(drive, 2);
}

/// A remembered path at which no file lies any more is not handed out: after
/// the one file check the resolution goes on, and ends, exactly as that of a
/// resolver that remembers nothing.
pub proof fn stale_path_is_not_handed_out(path: Seq<char>, host: HostView)
    requires
        !host.cached_is_file,
    ensures
        request(begin(Some(path))) == (ActionView::CheckFile { path }),
        drive(Some(path), begin(Some(path)), host, 1) == (Some(path), begin(None)),
        next_phase(begin(Some(path)), EventView::FileChecked { is_file: false }) == begin(None),
        resolution(Some(path), host) == resolution(None, host),
        downloads(Some(path), host) == downloads(None, host),
        restores(Some(path), host) == restores(None, host),
{
    reveal_with_fuel(drive, 2);
}

/// On a platform without a build, a resolution that gets as far as asking
/// for the platform fails there, naming it: it asks for no download and for
/// no change of permissions.
pub proof fn unsupported_platform_fails(cache: Option<Seq<char>>, host: HostView)
    requires
        !is_supported(host.os, host.arch),
    ensures
        !downloads(cache, host),
        !restores(cache, host),
        misses(cache, host) && host.release is Ok ==> resolution(cache, host) == Err::<
            Seq<char>,
            Seq<char>,
        >(unsupported_platform_message(host.os, host.arch)),
        forall|release: ReleaseView|
            #[trigger] next_phase(
                PhaseView::QueryingPlatform { release },
                EventView::PlatformQueried { os: host.os, arch: host.arch },
            ) == (PhaseView::Done {
                result: Err(unsupported_platform_message(host.os, host.arch)),
            }),
{
}

/// A release without the asset of the platform's build makes the resolution
/// fail as soon as the platform is known, naming the asset: it asks for no
/// download and for no change of permissions.
pub proof fn missing_asset_fails(cache: Option<Seq<char>>, host: HostView)
    requires
        is_supported(host.os, host.arch),
        host.release is Ok,
        forall|i: int|
            0 <= i < host.release->Ok_0.assets.len() ==> (#[trigger] host.release->Ok_0.assets[i]).name
                != asset_name(suffix_of(host.os, host.arch)->0, archive_format_of(host.os)),
    ensures
        ({
            let name = asset_name(suffix_of(host.os, host.arch)->0, archive_format_of(host.os));
            let failed = PhaseView::Done { result: Err(missing_asset_message(name)) };
            &&& planned(host) == Err::<InstallPlanView, Seq<char>>(missing_asset_message(name))
            &&& !downloads(cache, host)
            &&& !restores(cache, host)
            &&& misses(cache, host) ==> resolution(cache, host) == Err::<Seq<char>, Seq<char>>(
                missing_asset_message(name),
            )
            &&& next_phase(
                PhaseView::QueryingPlatform { release: host.release->Ok_0 },
                EventView::PlatformQueried { os: host.os, arch: host.arch },
            ) == failed
        }),
{
    let name = asset_name(suffix_of(host.os, host.arch)->0, archive_format_of(host.os));
    find_asset_is_first_match(host.release->Ok_0.assets, name);
}

} // verus!
