//! Displays and running applications, and the cache that holds them.

use vstd::prelude::*;

use crate::screencapturekit::device::{display_key, unique_ids_tell_displays_apart, Device};
use crate::text::{any_equals, any_occurs_in, some_occurs_in, texts};
use crate::types::{optional_list, BackendSpecificError, DevicesError, ErrorView};

verus! {

// ---------------------------------------------------------------------------
// What the system reports
// ---------------------------------------------------------------------------

/// A display: its `CGDirectDisplayID` and its serial number, zero where it has none.
#[derive(Clone, Copy, Debug, PartialEq, Eq, Structural)]
pub struct Display {
    pub display_id: u32,
    pub serial: u32,
}

/// A running application.
#[derive(Debug)]
pub struct RunningApplication {
    pub pid: i32,
    pub name: String,
    pub bundle_id: String,
}

impl Clone for RunningApplication {
    fn clone(&self) -> (copy: Self)
        ensures
            copy == *self,
    {
        RunningApplication {
            pid: self.pid,
            name: self.name.clone(),
            bundle_id: self.bundle_id.clone(),
        }
    }
}

/// The answer to a request for shareable content.
pub enum ContentReply<T> {
    /// The completion handler ran, with an error, with content, with both or with neither.
    Completed { error: Option<String>, content: Option<Vec<T>> },
    /// The completion handler did not run in time.
    TimedOut,
}

/// What a request for shareable content comes to: an error goes before any content.
pub open spec fn fetched<T>(reply: ContentReply<T>) -> Result<Seq<T>, Seq<char>> {
    match reply {
        ContentReply::TimedOut => Err("Timeout waiting for SCShareableContent"@),
        ContentReply::Completed { error: Some(error), .. } => Err(error@),
        ContentReply::Completed { error: None, content: Some(items) } => Ok(items@),
        ContentReply::Completed { error: None, content: None } => Err(
            "Unknown error: content and error are both null"@,
        ),
    }
}

/// Whether a result holds the given list or the given backend error.
pub open spec fn content_result<T>(
    result: Result<Vec<T>, DevicesError>,
    expected: Result<Seq<T>, Seq<char>>,
) -> bool {
    match expected {
        Ok(items) => result matches Ok(v) && v@ == items,
        Err(description) => result matches Err(e) && e@ == ErrorView::BackendSpecific(description),
    }
}

/// A result is the one that is expected: the same items, or the error with the same words.
pub proof fn content_results_are_exact<T>(
    result: Result<Vec<T>, DevicesError>,
    items: Seq<T>,
    description: Seq<char>,
)
    ensures
        content_result(result, Ok(items)) <==> (result matches Ok(v) && v@ == items),
        content_result(result, Err(description)) <==> (result matches Err(e) && e@
            == ErrorView::BackendSpecific(description)),
{
}

fn backend_error(description: String) -> (error: DevicesError)
    ensures
        error@ == ErrorView::BackendSpecific(description@),
{
    DevicesError::BackendSpecific { err: BackendSpecificError { description } }
}

fn fetch_content<T>(reply: ContentReply<T>) -> (result: Result<Vec<T>, DevicesError>)
    ensures
        content_result(result, fetched(reply)),
        reply matches ContentReply::Completed { error: Some(error), .. } ==> (result matches Err(e)
            && e@ == ErrorView::BackendSpecific(error@)),
        reply matches ContentReply::Completed { error: None, content: Some(items) } ==> (
        result matches Ok(v) && v@ == items@),
        reply matches ContentReply::Completed { error: None, content: None } ==> (
        result matches Err(e) && e@ == ErrorView::BackendSpecific(
            "Unknown error: content and error are both null"@,
        )),
        reply is TimedOut ==> (result matches Err(e) && e@ == ErrorView::BackendSpecific(
            "Timeout waiting for SCShareableContent"@,
        )),
{
    match reply {
        ContentReply::TimedOut => Err(
            backend_error("Timeout waiting for SCShareableContent".to_owned()),
        ),
        ContentReply::Completed { error, content } => match error {
            Some(description) => Err(backend_error(description)),
            None => match content {
                Some(items) => Ok(items),
                None => Err(
                    backend_error("Unknown error: content and error are both null".to_owned()),
                ),
            },
        },
    }
}

/// The displays that the system reported, or why there are none.
pub fn fetch_displays(reply: ContentReply<Display>) -> (result: Result<Vec<Display>, DevicesError>)
    ensures
        content_result(result, fetched(reply)),
        reply matches ContentReply::Completed { error: Some(error), .. } ==> (result matches Err(e)
            && e@ == ErrorView::BackendSpecific(error@)),
        reply matches ContentReply::Completed { error: None, content: Some(items) } ==> (
        result matches Ok(v) && v@ == items@),
        reply matches ContentReply::Completed { error: None, content: None } ==> (
        result matches Err(e) && e@ == ErrorView::BackendSpecific(
            "Unknown error: content and error are both null"@,
        )),
        reply is TimedOut ==> (result matches Err(e) && e@ == ErrorView::BackendSpecific(
            "Timeout waiting for SCShareableContent"@,
        )),
{
    fetch_content(reply)
}

/// The running applications that the system reported, or why there are none.
pub fn fetch_applications(reply: ContentReply<RunningApplication>) -> (result: Result<
    Vec<RunningApplication>,
    DevicesError,
>)
    ensures
        content_result(result, fetched(reply)),
        reply matches ContentReply::Completed { error: Some(error), .. } ==> (result matches Err(e)
            && e@ == ErrorView::BackendSpecific(error@)),
        reply matches ContentReply::Completed { error: None, content: Some(items) } ==> (
        result matches Ok(v) && v@ == items@),
        reply matches ContentReply::Completed { error: None, content: None } ==> (
        result matches Err(e) && e@ == ErrorView::BackendSpecific(
            "Unknown error: content and error are both null"@,
        )),
        reply is TimedOut ==> (result matches Err(e) && e@ == ErrorView::BackendSpecific(
            "Timeout waiting for SCShareableContent"@,
        )),
{
    fetch_content(reply)
}

// ---------------------------------------------------------------------------
// The cache
// ---------------------------------------------------------------------------

/// The displays and applications of the last successful fetch, until they are invalidated.
pub struct ContentCache {
    pub displays: Option<Vec<Display>>,
    pub applications: Option<Vec<RunningApplication>>,
}

/// What a [`ContentCache`] holds.
pub struct ContentCacheView {
    pub displays: Option<Seq<Display>>,
    pub applications: Option<Seq<RunningApplication>>,
}

impl View for ContentCache {
    type V = ContentCacheView;

    open spec fn view(&self) -> ContentCacheView {
        ContentCacheView {
            displays: optional_list(self.displays),
            applications: optional_list(self.applications),
        }
    }
}

impl ContentCacheView {
    /// The cache after a fetch of the displays: a failed fetch leaves it as it was.
    pub open spec fn after_display_fetch(self, outcome: Result<Seq<Display>, Seq<char>>) -> Self {
        match outcome {
            Ok(displays) => ContentCacheView { displays: Some(displays), ..self },
            Err(_) => self,
        }
    }

    /// The cache after a fetch of the applications: a failed fetch leaves it as it was.
    pub open spec fn after_application_fetch(
        self,
        outcome: Result<Seq<RunningApplication>, Seq<char>>,
    ) -> Self {
        match outcome {
            Ok(applications) => ContentCacheView { applications: Some(applications), ..self },
            Err(_) => self,
        }
    }

    /// The cache without displays.
    pub open spec fn without_displays(self) -> Self {
        ContentCacheView { displays: None, ..self }
    }

    /// The cache without applications.
    pub open spec fn without_applications(self) -> Self {
        ContentCacheView { applications: None, ..self }
    }
}

impl ContentCache {
    /// A cache that holds nothing.
    pub fn new() -> (cache: Self)
        ensures
            cache@ == (ContentCacheView { displays: None, applications: None }),
    {
        ContentCache { displays: None, applications: None }
    }
}

fn copy_applications(applications: &Vec<RunningApplication>) -> (copy: Vec<RunningApplication>)
    ensures
        copy@ == applications@,
{
    let copy: Vec<RunningApplication> = applications.clone();
    proof {
        assert(copy@ =~= applications@);
    }
    copy
}

fn copy_displays(displays: &Vec<Display>) -> (copy: Vec<Display>)
    ensures
        copy@ == displays@,
{
    let copy: Vec<Display> = displays.clone();
    proof {
        assert(copy@ =~= displays@);
    }
    copy
}

/// The cached displays; `None` asks for a fetch, whose reply goes to [`store_displays`].
pub fn get_displays_cached(cache: &ContentCache) -> (displays: Option<Vec<Display>>)
    ensures
        optional_list(displays) == cache@.displays,
{
    match &cache.displays {
        Some(displays) => Some(copy_displays(displays)),
        None => None,
    }
}

/// Takes the reply to a fetch of the displays into the cache, and returns what was fetched.
pub fn store_displays(cache: &mut ContentCache, reply: ContentReply<Display>) -> (result: Result<
    Vec<Display>,
    DevicesError,
>)
    ensures
        content_result(result, fetched(reply)),
        reply matches ContentReply::Completed { error: Some(error), .. } ==> (result matches Err(e)
            && e@ == ErrorView::BackendSpecific(error@)),
        reply matches ContentReply::Completed { error: None, content: Some(items) } ==> (
        result matches Ok(v) && v@ == items@),
        reply matches ContentReply::Completed { error: None, content: None } ==> (
        result matches Err(e) && e@ == ErrorView::BackendSpecific(
            "Unknown error: content and error are both null"@,
        )),
        reply is TimedOut ==> (result matches Err(e) && e@ == ErrorView::BackendSpecific(
            "Timeout waiting for SCShareableContent"@,
        )),
        final(cache)@ == old(cache)@.after_display_fetch(fetched(reply)),
        result matches Ok(v) ==> final(cache)@.displays == Some(v@),
        result is Err ==> final(cache)@.displays == old(cache)@.displays,
        final(cache)@.applications == old(cache)@.applications,
{
    match fetch_displays(reply) {
        Ok(displays) => {
            cache.displays = Some(copy_displays(&displays));
            Ok(displays)
        },
        Err(e) => Err(e),
    }
}

/// The cached applications; `None` asks for a fetch, whose reply goes to [`store_applications`].
pub fn get_applications_cached(cache: &ContentCache) -> (applications: Option<
    Vec<RunningApplication>,
>)
    ensures
        optional_list(applications) == cache@.applications,
{
    match &cache.applications {
        Some(applications) => Some(copy_applications(applications)),
        None => None,
    }
}

/// Takes the reply to a fetch of the applications into the cache, and returns what was fetched.
pub fn store_applications(
    cache: &mut ContentCache,
    reply: ContentReply<RunningApplication>,
) -> (result: Result<Vec<RunningApplication>, DevicesError>)
    ensures
        content_result(result, fetched(reply)),
        reply matches ContentReply::Completed { error: Some(error), .. } ==> (result matches Err(e)
            && e@ == ErrorView::BackendSpecific(error@)),
        reply matches ContentReply::Completed { error: None, content: Some(items) } ==> (
        result matches Ok(v) && v@ == items@),
        reply matches ContentReply::Completed { error: None, content: None } ==> (
        result matches Err(e) && e@ == ErrorView::BackendSpecific(
            "Unknown error: content and error are both null"@,
        )),
        reply is TimedOut ==> (result matches Err(e) && e@ == ErrorView::BackendSpecific(
            "Timeout waiting for SCShareableContent"@,
        )),
        final(cache)@ == old(cache)@.after_application_fetch(fetched(reply)),
        result matches Ok(v) ==> final(cache)@.applications == Some(v@),
        result is Err ==> final(cache)@.applications == old(cache)@.applications,
        final(cache)@.displays == old(cache)@.displays,
{
    match fetch_applications(reply) {
        Ok(applications) => {
            cache.applications = Some(copy_applications(&applications));
            Ok(applications)
        },
        Err(e) => Err(e),
    }
}

/// Replaces the cached applications by those of a fetch, whether or not some were cached.
/// A failed fetch leaves the cache as it was.
pub fn refresh_applications_cache(
    cache: &mut ContentCache,
    reply: ContentReply<RunningApplication>,
) -> (result: Result<(), DevicesError>)
    ensures
        match fetched(reply) {
            Ok(_) => result is Ok,
            Err(description) => result matches Err(e) && e@ == ErrorView::BackendSpecific(
                description,
            ),
        },
        final(cache)@ == old(cache)@.after_application_fetch(fetched(reply)),
        result is Ok <==> (reply matches ContentReply::Completed { error: None, content: Some(_) }),
        reply matches ContentReply::Completed { error: None, content: Some(items) }
            ==> final(cache)@.applications == Some(items@),
        result is Err ==> final(cache)@.applications == old(cache)@.applications,
        final(cache)@.displays == old(cache)@.displays,
{
    match fetch_applications(reply) {
        Ok(applications) => {
            cache.applications = Some(applications);
            Ok(())
        },
        Err(e) => Err(e),
    }
}

/// Forgets the cached displays.
pub fn invalidate_display_cache(cache: &mut ContentCache)
    ensures
        final(cache)@ == old(cache)@.without_displays(),
        final(cache)@.displays is None,
        final(cache)@.applications == old(cache)@.applications,
{
    cache.displays = None;
}

/// Forgets the cached applications.
pub fn invalidate_applications_cache(cache: &mut ContentCache)
    ensures
        final(cache)@ == old(cache)@.without_applications(),
        final(cache)@.applications is None,
        final(cache)@.displays == old(cache)@.displays,
{
    cache.applications = None;
}

/// What a successful fetch brought is what the cache gives until it is invalidated or fetched
/// anew: neither a failed fetch nor any change to the other half of the cache touches it.
pub proof fn cache_keeps_what_was_fetched(
    cache: ContentCacheView,
    displays: Seq<Display>,
    applications: Seq<RunningApplication>,
    failure: Seq<char>,
    other_displays: Result<Seq<Display>, Seq<char>>,
    other_applications: Result<Seq<RunningApplication>, Seq<char>>,
)
    ensures
        ({
            let filled = cache.after_display_fetch(Ok(displays));
            &&& filled.displays == Some(displays)
            &&& filled.after_display_fetch(Err(failure)).displays == Some(displays)
            &&& filled.after_application_fetch(other_applications).displays == Some(displays)
            &&& filled.without_applications().displays == Some(displays)
            &&& filled.without_displays().displays is None
        }),
        ({
            let filled = cache.after_application_fetch(Ok(applications));
            &&& filled.applications == Some(applications)
            &&& filled.after_application_fetch(Err(failure)).applications == Some(applications)
            &&& filled.after_display_fetch(other_displays).applications == Some(applications)
            &&& filled.without_displays().applications == Some(applications)
            &&& filled.without_applications().applications is None
        }),
        cache.after_display_fetch(other_displays).applications == cache.applications,
        cache.after_display_fetch(Err(failure)) == cache,
        cache.without_displays().applications == cache.applications,
        cache.after_application_fetch(other_applications).displays == cache.displays,
        cache.after_application_fetch(Err(failure)) == cache,
        cache.without_applications().displays == cache.displays,
{
}

// ---------------------------------------------------------------------------
// Lookup
// ---------------------------------------------------------------------------

/// The first display with the identifier.
pub open spec fn display_by_id(displays: Seq<Display>, display_id: u32) -> Option<Display>
    decreases displays.len(),
{
    if displays.len() == 0 {
        None
    } else if displays[0].display_id == display_id {
        Some(displays[0])
    } else {
        display_by_id(displays.skip(1), display_id)
    }
}

/// A display is found exactly when one has the identifier, wherever it stands, and it is the first
/// that has it.
pub proof fn displays_are_found_by_identifier(displays: Seq<Display>, display_id: u32, i: int)
    ensures
        0 <= i < displays.len() && displays[i].display_id == display_id && (forall|j: int|
            0 <= j < i ==> (#[trigger] displays[j]).display_id != display_id) ==> display_by_id(
            displays,
            display_id,
        ) == Some(displays[i]),
        display_by_id(displays, display_id) is None <==> forall|j: int|
            0 <= j < displays.len() ==> (#[trigger] displays[j]).display_id != display_id,
        display_by_id(displays, display_id) matches Some(d) ==> d.display_id == display_id
            && displays.contains(d),
    decreases displays.len(),
{
    if displays.len() > 0 {
        let rest: Seq<Display> = displays.skip(1);
        displays_are_found_by_identifier(rest, display_id, i - 1);
        assert forall|j: int| 0 <= j < rest.len() implies #[trigger] rest[j] == displays[j + 1] by {
        }
        assert(displays[0] == displays.first());
        if display_by_id(rest, display_id) is None && displays[0].display_id != display_id {
            assert forall|j: int| 0 <= j < displays.len() implies (
            #[trigger] displays[j]).display_id != display_id by {
                if j > 0 {
                    assert(rest[j - 1].display_id != display_id);
                }
            }
        }
        if forall|j: int|
            0 <= j < displays.len() ==> (#[trigger] displays[j]).display_id != display_id {
            assert forall|j: int| 0 <= j < rest.len() implies (#[trigger] rest[j]).display_id
                != display_id by {
                assert(displays[j + 1].display_id != display_id);
            }
        }
        if i > 0 && i < displays.len() && (forall|j: int|
            0 <= j < i ==> (#[trigger] displays[j]).display_id != display_id) {
            assert forall|j: int| 0 <= j < i - 1 implies (#[trigger] rest[j]).display_id
                != display_id by {
                assert(displays[j + 1].display_id != display_id);
            }
            assert(rest[i - 1] == displays[i]);
        }
        if let Some(d) = display_by_id(rest, display_id) {
            if displays[0].display_id != display_id {
                let j: int = choose|j: int| 0 <= j < rest.len() && rest[j] == d;
                assert(displays[j + 1] == d);
            }
        }
    }
}

/// The first display with the identifier.
pub fn get_display_by_id(displays: &Vec<Display>, display_id: u32) -> (display: Option<Display>)
    ensures
        display == display_by_id(displays@, display_id),
        display is None <==> forall|i: int|
            0 <= i < displays@.len() ==> (#[trigger] displays@[i]).display_id != display_id,
        display matches Some(d) ==> d.display_id == display_id && displays@.contains(d),
{
    let mut i: usize = 0;
    proof {
        displays_are_found_by_identifier(displays@, display_id, 0);
        assert(displays@.skip(0) =~= displays@);
    }
    while i < displays.len()
        invariant
            i <= displays@.len(),
            display_by_id(displays@, display_id) == display_by_id(
                displays@.skip(i as int),
                display_id,
            ),
        decreases displays.len() - i,
    {
        proof {
            assert(displays@.skip(i as int).skip(1) =~= displays@.skip(i + 1));
        }
        if displays[i].display_id == display_id {
            return Some(displays[i]);
        }
        i = i + 1;
    }
    None
}

/// Whether the application's name contains one of the texts.
pub open spec fn name_matches(application: RunningApplication, names: Seq<Seq<char>>) -> bool {
    some_occurs_in(names, application.name@)
}

/// Whether the application's bundle identifier is one of the texts.
pub open spec fn bundle_id_matches(
    application: RunningApplication,
    bundle_ids: Seq<Seq<char>>,
) -> bool {
    bundle_ids.contains(application.bundle_id@)
}

/// The applications whose names contain one of the texts, in their order.
pub open spec fn apps_by_names(
    applications: Seq<RunningApplication>,
    names: Seq<Seq<char>>,
) -> Seq<RunningApplication> {
    applications.filter(|a: RunningApplication| name_matches(a, names))
}

/// The applications whose bundle identifiers are among the texts, in their order.
pub open spec fn apps_by_bundle_ids(
    applications: Seq<RunningApplication>,
    bundle_ids: Seq<Seq<char>>,
) -> Seq<RunningApplication> {
    applications.filter(|a: RunningApplication| bundle_id_matches(a, bundle_ids))
}

/// The first application with the process identifier.
pub open spec fn app_by_pid(applications: Seq<RunningApplication>, pid: i32) -> Option<
    RunningApplication,
>
    decreases applications.len(),
{
    if applications.len() == 0 {
        None
    } else if applications[0].pid == pid {
        Some(applications[0])
    } else {
        app_by_pid(applications.skip(1), pid)
    }
}

/// The applications with the process identifiers, one per identifier that is found, in the order
/// of the identifiers.
pub open spec fn apps_by_pids(
    applications: Seq<RunningApplication>,
    pids: Seq<i32>,
) -> Seq<RunningApplication>
    decreases pids.len(),
{
    if pids.len() == 0 {
        seq![]
    } else {
        match app_by_pid(applications, pids.last()) {
            Some(a) => apps_by_pids(applications, pids.drop_last()).push(a),
            None => apps_by_pids(applications, pids.drop_last()),
        }
    }
}

/// An application is found exactly when one has the process identifier, wherever it stands, and it
/// is the first that has it.
pub proof fn applications_are_found_by_pid(
    applications: Seq<RunningApplication>,
    pid: i32,
    i: int,
)
    ensures
        0 <= i < applications.len() && applications[i].pid == pid && (forall|j: int|
            0 <= j < i ==> (#[trigger] applications[j]).pid != pid) ==> app_by_pid(
            applications,
            pid,
        ) == Some(applications[i]),
        app_by_pid(applications, pid) is None <==> forall|j: int|
            0 <= j < applications.len() ==> (#[trigger] applications[j]).pid != pid,
        app_by_pid(applications, pid) matches Some(a) ==> a.pid == pid && applications.contains(a),
    decreases applications.len(),
{
    if applications.len() > 0 {
        let rest: Seq<RunningApplication> = applications.skip(1);
        applications_are_found_by_pid(rest, pid, i - 1);
        assert forall|j: int| 0 <= j < rest.len() implies #[trigger] rest[j] == applications[j
            + 1] by {
        }
        assert(applications[0] == applications.first());
        if app_by_pid(rest, pid) is None && applications[0].pid != pid {
            assert forall|j: int| 0 <= j < applications.len() implies (
            #[trigger] applications[j]).pid != pid by {
                if j > 0 {
                    assert(rest[j - 1].pid != pid);
                }
            }
        }
        if forall|j: int| 0 <= j < applications.len() ==> (#[trigger] applications[j]).pid != pid {
            assert forall|j: int| 0 <= j < rest.len() implies (#[trigger] rest[j]).pid != pid by {
                assert(applications[j + 1].pid != pid);
            }
        }
        if i > 0 && i < applications.len() && (forall|j: int|
            0 <= j < i ==> (#[trigger] applications[j]).pid != pid) {
            assert forall|j: int| 0 <= j < i - 1 implies (#[trigger] rest[j]).pid != pid by {
                assert(applications[j + 1].pid != pid);
            }
            assert(rest[i - 1] == applications[i]);
        }
        if let Some(a) = app_by_pid(rest, pid) {
            if applications[0].pid != pid {
                let j: int = choose|j: int| 0 <= j < rest.len() && rest[j] == a;
                assert(applications[j + 1] == a);
            }
        }
    }
}

/// Each process identifier contributes the application that has it, or nothing where none has it,
/// and nothing else is found.
pub proof fn applications_are_found_pid_by_pid(
    applications: Seq<RunningApplication>,
    some: Seq<i32>,
    more: Seq<i32>,
    pid: i32,
)
    ensures
        apps_by_pids(applications, some + more) == apps_by_pids(applications, some) + apps_by_pids(
            applications,
            more,
        ),
        (forall|j: int| 0 <= j < applications.len() ==> (#[trigger] applications[j]).pid != pid)
            ==> apps_by_pids(applications, seq![pid]) == Seq::<RunningApplication>::empty(),
        (exists|j: int| 0 <= j < applications.len() && (#[trigger] applications[j]).pid == pid) ==> {
            let found = apps_by_pids(applications, seq![pid]);
            found.len() == 1 && found[0].pid == pid && applications.contains(found[0])
        },
    decreases more.len(),
{
    applications_are_found_by_pid(applications, pid, 0);
    reveal_with_fuel(apps_by_pids, 2);
    assert(seq![pid].drop_last() =~= seq![]);
    assert(seq![pid].last() == pid);
    if more.len() == 0 {
        assert(some + more =~= some);
        assert(apps_by_pids(applications, some) =~= apps_by_pids(applications, some)
            + apps_by_pids(applications, more));
    } else {
        applications_are_found_pid_by_pid(applications, some, more.drop_last(), pid);
        assert((some + more).drop_last() =~= some + more.drop_last());
        assert(apps_by_pids(applications, some + more) =~= apps_by_pids(applications, some)
            + apps_by_pids(applications, more));
    }
}

/// Where no two running applications have the same process identifier, just those applications
/// are found whose identifiers are given, in whatever order they run.
pub proof fn named_processes_are_found(
    applications: Seq<RunningApplication>,
    pids: Seq<i32>,
    application: RunningApplication,
)
    requires
        forall|i: int, j: int|
            0 <= i < j < applications.len() ==> (#[trigger] applications[i]).pid != (
            #[trigger] applications[j]).pid,
    ensures
        apps_by_pids(applications, pids).contains(application) <==> applications.contains(
            application,
        ) && pids.contains(application.pid),
    decreases pids.len(),
{
    if pids.len() > 0 {
        let rest: Seq<i32> = pids.drop_last();
        let last: i32 = pids.last();
        let before: Seq<RunningApplication> = apps_by_pids(applications, rest);
        named_processes_are_found(applications, rest, application);
        applications_are_found_by_pid(applications, last, 0);
        assert(pids =~= rest.push(last));
        assert(pids.contains(application.pid) <==> rest.contains(application.pid) || last
            == application.pid) by {
            if rest.contains(application.pid) {
                let i: int = choose|i: int| 0 <= i < rest.len() && rest[i] == application.pid;
                assert(pids[i] == application.pid);
            }
            if last == application.pid {
                assert(pids[pids.len() - 1] == application.pid);
            }
        }
        match app_by_pid(applications, last) {
            Some(a) => {
                assert(apps_by_pids(applications, pids) == before.push(a));
                assert(before.push(a).contains(application) <==> before.contains(application) || a
                    == application) by {
                    if before.contains(application) {
                        let i: int = choose|i: int|
                            0 <= i < before.len() && before[i] == application;
                        assert(before.push(a)[i] == application);
                    }
                    if a == application {
                        assert(before.push(a)[before.len() as int] == application);
                    }
                }
                if applications.contains(application) && application.pid == last {
                    let i: int = choose|i: int|
                        0 <= i < applications.len() && applications[i] == application;
                    let j: int = choose|j: int| 0 <= j < applications.len() && applications[j] == a;
                    assert(applications[i].pid == applications[j].pid);
                }
            },
            None => {
                if applications.contains(application) && application.pid == last {
                    let i: int = choose|i: int|
                        0 <= i < applications.len() && applications[i] == application;
                    assert(applications[i].pid != last);
                }
            },
        }
    } else {
        assert(!apps_by_pids(applications, pids).contains(application));
        assert(!pids.contains(application.pid));
    }
}

proof fn filters_go_piece_by_piece(
    some: Seq<RunningApplication>,
    more: Seq<RunningApplication>,
    wanted: spec_fn(RunningApplication) -> bool,
)
    ensures
        (some + more).filter(wanted) == some.filter(wanted) + more.filter(wanted),
    decreases more.len(),
{
    reveal(Seq::filter);
    if more.len() == 0 {
        assert(some + more =~= some);
        assert(some.filter(wanted) =~= some.filter(wanted) + more.filter(wanted));
    } else {
        filters_go_piece_by_piece(some, more.drop_last(), wanted);
        assert((some + more).drop_last() =~= some + more.drop_last());
        assert((some + more).filter(wanted) =~= some.filter(wanted) + more.filter(wanted));
    }
}

proof fn filters_keep_one_or_none(
    application: RunningApplication,
    wanted: spec_fn(RunningApplication) -> bool,
)
    ensures
        seq![application].filter(wanted) == if wanted(application) {
            seq![application]
        } else {
            seq![]
        },
{
    reveal(Seq::filter);
    let none: Seq<RunningApplication> = seq![];
    assert(none.filter(wanted) =~= none);
    assert(seq![application].drop_last() =~= none);
    assert(seq![application].last() == application);
    assert(none.push(application) =~= seq![application]);
}

/// The running applications are looked at one by one, in their order: one whose name contains one
/// of the names is found by name, one whose bundle identifier is one of the identifiers is found
/// by bundle identifier, and no other is.
pub proof fn applications_are_found_one_by_one(
    some: Seq<RunningApplication>,
    more: Seq<RunningApplication>,
    application: RunningApplication,
    texts: Seq<Seq<char>>,
)
    ensures
        apps_by_names(some + more, texts) == apps_by_names(some, texts) + apps_by_names(
            more,
            texts,
        ),
        apps_by_bundle_ids(some + more, texts) == apps_by_bundle_ids(some, texts)
            + apps_by_bundle_ids(more, texts),
        apps_by_names(seq![application], texts) == if exists|k: int, at: int|
            0 <= k < texts.len() && 0 <= at <= application.name@.len() - texts[k].len()
                && #[trigger] application.name@.subrange(at, at + texts[k].len()) == texts[k] {
            seq![application]
        } else {
            seq![]
        },
        apps_by_bundle_ids(seq![application], texts) == if exists|k: int|
            0 <= k < texts.len() && #[trigger] texts[k] == application.bundle_id@ {
            seq![application]
        } else {
            seq![]
        },
{
    filters_go_piece_by_piece(some, more, |a: RunningApplication| name_matches(a, texts));
    filters_go_piece_by_piece(some, more, |a: RunningApplication| bundle_id_matches(a, texts));
    let name: Seq<char> = application.name@;
    if name_matches(application, texts) {
        let k: int = choose|k: int|
            0 <= k < texts.len() && crate::text::occurs_in(#[trigger] texts[k], name);
        let at: int = choose|at: int|
            0 <= at <= name.len() - texts[k].len() && #[trigger] name.subrange(
                at,
                at + texts[k].len(),
            ) == texts[k];
        assert(name.subrange(at, at + texts[k].len()) == texts[k]);
    }
    if exists|k: int, at: int|
        0 <= k < texts.len() && 0 <= at <= name.len() - texts[k].len() && #[trigger] name.subrange(
            at,
            at + texts[k].len(),
        ) == texts[k] {
        let (k, at): (int, int) = choose|k: int, at: int|
            0 <= k < texts.len() && 0 <= at <= name.len() - texts[k].len()
                && #[trigger] name.subrange(at, at + texts[k].len()) == texts[k];
        assert(crate::text::occurs_in(texts[k], name));
    }
    filters_keep_one_or_none(application, |a: RunningApplication| name_matches(a, texts));
    filters_keep_one_or_none(application, |a: RunningApplication| bundle_id_matches(a, texts));
}

/// The applications whose names contain one of the texts.
pub fn find_apps_by_name_substrings(
    applications: &Vec<RunningApplication>,
    names: &Vec<String>,
) -> (found: Vec<RunningApplication>)
    ensures
        found@ == apps_by_names(applications@, texts(names@)),
{
    let ghost wanted = |a: RunningApplication| name_matches(a, texts(names@));
    let mut found: Vec<RunningApplication> = Vec::new();
    let mut i: usize = 0;
    proof {
        reveal(Seq::filter);
    }
    while i < applications.len()
        invariant
            i <= applications@.len(),
            wanted == (|a: RunningApplication| name_matches(a, texts(names@))),
            found@ == applications@.take(i as int).filter(wanted),
        decreases applications.len() - i,
    {
        proof {
            reveal(Seq::filter);
            assert(applications@.take(i + 1).drop_last() =~= applications@.take(i as int));
        }
        if any_occurs_in(names, applications[i].name.as_str()) {
            found.push(applications[i].clone());
        }
        i = i + 1;
    }
    proof {
        assert(applications@.take(i as int) =~= applications@);
    }
    found
}

/// The applications whose bundle identifiers are among the texts.
pub fn find_apps_by_bundle_ids(
    applications: &Vec<RunningApplication>,
    bundle_ids: &Vec<String>,
) -> (found: Vec<RunningApplication>)
    ensures
        found@ == apps_by_bundle_ids(applications@, texts(bundle_ids@)),
{
    let ghost wanted = |a: RunningApplication| bundle_id_matches(a, texts(bundle_ids@));
    let mut found: Vec<RunningApplication> = Vec::new();
    let mut i: usize = 0;
    proof {
        reveal(Seq::filter);
    }
    while i < applications.len()
        invariant
            i <= applications@.len(),
            wanted == (|a: RunningApplication| bundle_id_matches(a, texts(bundle_ids@))),
            found@ == applications@.take(i as int).filter(wanted),
        decreases applications.len() - i,
    {
        proof {
            reveal(Seq::filter);
            assert(applications@.take(i + 1).drop_last() =~= applications@.take(i as int));
        }
        if any_equals(bundle_ids, applications[i].bundle_id.as_str()) {
            found.push(applications[i].clone());
        }
        i = i + 1;
    }
    proof {
        assert(applications@.take(i as int) =~= applications@);
    }
    found
}

/// The first application with the process identifier.
pub fn get_running_application_by_pid(
    applications: &Vec<RunningApplication>,
    pid: i32,
) -> (found: Option<RunningApplication>)
    ensures
        found == app_by_pid(applications@, pid),
        found is None <==> forall|i: int|
            0 <= i < applications@.len() ==> (#[trigger] applications@[i]).pid != pid,
        found matches Some(a) ==> a.pid == pid && applications@.contains(a),
{
    let mut i: usize = 0;
    proof {
        applications_are_found_by_pid(applications@, pid, 0);
        assert(applications@.skip(0) =~= applications@);
    }
    while i < applications.len()
        invariant
            i <= applications@.len(),
            app_by_pid(applications@, pid) == app_by_pid(applications@.skip(i as int), pid),
        decreases applications.len() - i,
    {
        proof {
            assert(applications@.skip(i as int).skip(1) =~= applications@.skip(i + 1));
        }
        if applications[i].pid == pid {
            return Some(applications[i].clone());
        }
        i = i + 1;
    }
    None
}

/// The applications with the process identifiers, in the order of the identifiers.
pub fn find_apps_by_pids(applications: &Vec<RunningApplication>, pids: &[i32]) -> (found: Vec<
    RunningApplication,
>)
    ensures
        found@ == apps_by_pids(applications@, pids@),
{
    let mut found: Vec<RunningApplication> = Vec::new();
    let mut i: usize = 0;
    while i < pids.len()
        invariant
            i <= pids@.len(),
            found@ == apps_by_pids(applications@, pids@.take(i as int)),
        decreases pids.len() - i,
    {
        proof {
            assert(pids@.take(i + 1).drop_last() =~= pids@.take(i as int));
        }
        match get_running_application_by_pid(applications, pids[i]) {
            Some(application) => found.push(application),
            None => {},
        }
        i = i + 1;
    }
    proof {
        assert(pids@.take(i as int) =~= pids@);
    }
    found
}

// ---------------------------------------------------------------------------
// Devices
// ---------------------------------------------------------------------------

/// The capture devices, one per display, in the order of the displays.
pub struct Devices {
    devices: std::collections::VecDeque<Device>,
}

impl View for Devices {
    type V = Seq<Device>;

    closed spec fn view(&self) -> Seq<Device> {
        self.devices@
    }
}

/// Whether each device stands for the display at the same place.
pub open spec fn devices_of(devices: Seq<Device>, displays: Seq<Display>) -> bool {
    &&& devices.len() == displays.len()
    &&& forall|i: int|
        0 <= i < devices.len() ==> (#[trigger] devices[i]).stands_for(displays[i])
}

/// Where no two displays have the same key, no two devices have the same identifier.
pub proof fn device_ids_are_unique(
    devices: Seq<Device>,
    displays: Seq<Display>,
    i: int,
    j: int,
)
    requires
        devices_of(devices, displays),
        forall|m: int, n: int|
            0 <= m < n < displays.len() ==> display_key(
                (#[trigger] displays[m]).display_id,
                displays[m].serial,
            ) != display_key((#[trigger] displays[n]).display_id, displays[n].serial),
        0 <= i < j < devices.len(),
    ensures
        devices[i].unique_id@ != devices[j].unique_id@,
{
    unique_ids_tell_displays_apart(devices[i], displays[i], devices[j], displays[j]);
}

impl Devices {
    /// The devices of the displays that were found, or why there are none.
    pub fn new(displays: Result<Vec<Display>, DevicesError>) -> (result: Result<
        Devices,
        DevicesError,
    >)
        ensures
            match displays {
                Ok(found) => result matches Ok(devices) && devices_of(devices@, found@),
                Err(e) => result == Err::<Devices, DevicesError>(e),
            },
            displays matches Ok(found) ==> (result matches Ok(devices) && devices@.len()
                == found@.len() && forall|i: int|
                0 <= i < found@.len() ==> (#[trigger] devices@[i]).display_id
                    == found@[i].display_id && devices@[i].unique_id@ == crate::text::decimal(
                    if found@[i].serial != 0 {
                        found@[i].serial as nat
                    } else {
                        found@[i].display_id as nat
                    },
                )),
    {
        match displays {
            Ok(found) => {
                let mut devices: std::collections::VecDeque<Device> =
                    std::collections::VecDeque::new();
                let mut i: usize = 0;
                while i < found.len()
                    invariant
                        i <= found@.len(),
                        devices_of(devices@, found@.take(i as int)),
                    decreases found.len() - i,
                {
                    let display: Display = found[i];
                    devices.push_back(Device::new(display.display_id, display.serial));
                    i = i + 1;
                }
                proof {
                    assert(found@.take(i as int) =~= found@);
                }
                Ok(Devices { devices })
            },
            Err(e) => Err(e),
        }
    }

    /// Takes the next device out.
    pub fn next(&mut self) -> (device: Option<Device>)
        ensures
            old(self)@.len() == 0 ==> device is None && final(self)@ == old(self)@,
            old(self)@.len() > 0 ==> device == Some(old(self)@[0]) && final(self)@ == old(
                self,
            )@.skip(1),
    {
        let device: Option<Device> = self.devices.pop_front();
        proof {
            if old(self)@.len() > 0 {
                assert(self.devices@ =~= old(self)@.skip(1));
            }
        }
        device
    }

    /// The running applications that a stream can leave out.
    pub fn available_applications(cache: &ContentCache) -> (applications: Option<
        Vec<RunningApplication>,
    >)
        ensures
            optional_list(applications) == cache@.applications,
    {
        get_applications_cached(cache)
    }
}

/// The device of the first display, where the displays could be listed and there is one.
pub fn default_input_device(displays: Result<Vec<Display>, DevicesError>) -> (device: Option<
    Device,
>)
    ensures
        match displays {
            Ok(found) => if found@.len() > 0 {
                device matches Some(d) && d.stands_for(found@[0])
            } else {
                device is None
            },
            Err(_) => device is None,
        },
        device is Some <==> (displays matches Ok(found) && found@.len() > 0),
        device matches Some(d) ==> d.display_id == displays->Ok_0@[0].display_id,
{
    match Devices::new(displays) {
        Ok(devices) => {
            let mut devices: Devices = devices;
            devices.next()
        },
        Err(_) => None,
    }
}

/// There is no output device.
pub fn default_output_device() -> (device: Option<Device>)
    ensures
        device is None,
{
    None
}

} // verus!
