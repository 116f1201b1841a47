//! Streams: what they leave out, how they start and stop, and how they are built.

use vstd::prelude::*;

use crate::screencapturekit::device::Device;
use crate::screencapturekit::enumerate::{
    applications_are_found_one_by_one, apps_by_bundle_ids, apps_by_names, apps_by_pids,
    bundle_id_matches, display_by_id, displays_are_found_by_identifier, fetched,
    find_apps_by_bundle_ids, find_apps_by_name_substrings, find_apps_by_pids,
    get_applications_cached, get_display_by_id, invalidate_applications_cache, name_matches,
    named_processes_are_found, refresh_applications_cache, ContentCache, ContentReply, Display, RunningApplication,
};
use crate::text::{
    any_equals, any_occurs_in, copy_strings, debug, debug_form, decimal, decimal_text, join, join3,
    own_strings, slice_texts, some_occurs_in, texts,
};
use crate::types::{
    list_or_empty, BackendSpecificError, BuildStreamError, DevicesError, ErrorView,
    PauseStreamError, PlayStreamError, StreamConfig, StreamConfigView, StreamError,
};

verus! {

// ---------------------------------------------------------------------------
// Errors
// ---------------------------------------------------------------------------

/// The content filter of a stream could not be updated.
#[derive(Clone, Debug)]
pub struct UpdateFilterError {
    pub description: String,
}

impl UpdateFilterError {
    /// The error as text.
    pub fn to_string(&self) -> (text: String)
        ensures
            text@ == "UpdateFilterError: "@ + self.description@,
    {
        join("UpdateFilterError: ", self.description.as_str())
    }
}

/// A backend error as it is shown for debugging, from how its description is shown.
pub open spec fn shown_devices_error(shown: Seq<char>) -> Seq<char> {
    "BackendSpecific { err: BackendSpecificError { description: "@ + shown + " } }"@
}

/// A backend error as it is shown for debugging, from how its description is shown.
pub fn show_devices_error(shown: &str) -> (text: String)
    ensures
        text@ == shown_devices_error(shown@),
        text@ == "BackendSpecific { err: BackendSpecificError { description: "@ + shown@
            + " } }"@,
{
    join3("BackendSpecific { err: BackendSpecificError { description: ", shown, " } }")
}

// ---------------------------------------------------------------------------
// Content filters
// ---------------------------------------------------------------------------

/// Which sound a stream captures: all of a display, or all but that of some applications.
pub enum ContentFilter {
    ExcludingNothing { display_id: u32 },
    ExcludingApplications { display_id: u32, applications: Vec<RunningApplication> },
}

/// What a [`ContentFilter`] captures.
pub struct ContentFilterView {
    pub display_id: u32,
    pub excluded: Seq<RunningApplication>,
}

impl View for ContentFilter {
    type V = ContentFilterView;

    open spec fn view(&self) -> ContentFilterView {
        match self {
            ContentFilter::ExcludingNothing { display_id } => ContentFilterView {
                display_id: *display_id,
                excluded: seq![],
            },
            ContentFilter::ExcludingApplications { display_id, applications } => ContentFilterView {
                display_id: *display_id,
                excluded: applications@,
            },
        }
    }
}

impl ContentFilter {
    /// A filter names applications only where it leaves some out.
    pub open spec fn well_formed(self) -> bool {
        self is ExcludingApplications <==> self@.excluded.len() > 0
    }
}

/// The filter for a display, where the display is there; otherwise what is wrong.
pub open spec fn filter_for(
    displays: Seq<Display>,
    display_id: u32,
    excluded: Seq<RunningApplication>,
) -> Result<ContentFilterView, Seq<char>> {
    match display_by_id(displays, display_id) {
        Some(_) => Ok(ContentFilterView { display_id, excluded }),
        None => Err("Display "@ + decimal(display_id as nat) + " not found"@),
    }
}

/// Whether a result holds the given filter or the given error.
pub open spec fn filter_result(
    result: Result<ContentFilter, UpdateFilterError>,
    expected: Result<ContentFilterView, Seq<char>>,
) -> bool {
    match expected {
        Ok(view) => result matches Ok(filter) && filter.well_formed() && filter@ == view,
        Err(description) => result matches Err(e) && e.description@ == description,
    }
}

/// There is a filter exactly when there is the display. It captures that display and leaves out the
/// applications that it is given; otherwise the error names the display.
pub proof fn filters_need_their_display(
    displays: Seq<Display>,
    display_id: u32,
    excluded: Seq<RunningApplication>,
)
    ensures
        filter_for(displays, display_id, excluded) is Ok <==> exists|i: int|
            0 <= i < displays.len() && (#[trigger] displays[i]).display_id == display_id,
        filter_for(displays, display_id, excluded) matches Ok(filter) ==> filter.display_id
            == display_id && filter.excluded == excluded,
        filter_for(displays, display_id, excluded) matches Err(description) ==> description
            == "Display "@ + decimal(display_id as nat) + " not found"@,
{
    displays_are_found_by_identifier(displays, display_id, 0);
}

/// A result is the one that is expected: the filter for the same display that leaves out the same
/// applications, or the error with the same words.
pub proof fn filter_results_are_exact(
    result: Result<ContentFilter, UpdateFilterError>,
    filter: ContentFilterView,
    description: Seq<char>,
)
    ensures
        filter_result(result, Ok(filter)) <==> (result matches Ok(f) && f.well_formed()
            && f@.display_id == filter.display_id && f@.excluded == filter.excluded),
        filter_result(result, Err(description)) <==> (result matches Err(e) && e.description@
            == description),
{
}

/// A filter leaves out the applications that it names.
pub proof fn filters_leave_out_what_they_name(filter: ContentFilter)
    ensures
        filter matches ContentFilter::ExcludingNothing { display_id } ==> filter@.display_id
            == display_id && filter@.excluded.len() == 0,
        filter matches ContentFilter::ExcludingApplications { display_id, applications }
            ==> filter@.display_id == display_id && filter@.excluded == applications@,
        filter.well_formed() <==> (filter matches ContentFilter::ExcludingApplications {
            applications,
            ..
        } ==> applications@.len() > 0),
{
}

/// The filter that captures a display without some applications.
pub fn content_filter(
    displays: &Vec<Display>,
    display_id: u32,
    excluded: Vec<RunningApplication>,
) -> (result: Result<ContentFilter, UpdateFilterError>)
    ensures
        filter_result(result, filter_for(displays@, display_id, excluded@)),
        result is Ok <==> exists|i: int|
            0 <= i < displays@.len() && (#[trigger] displays@[i]).display_id == display_id,
        result matches Ok(filter) ==> if excluded@.len() == 0 {
            filter == (ContentFilter::ExcludingNothing { display_id })
        } else {
            filter == (ContentFilter::ExcludingApplications { display_id, applications: excluded })
        },
        result matches Err(e) ==> e.description@ == "Display "@ + decimal(display_id as nat)
            + " not found"@,
{
    match get_display_by_id(displays, display_id) {
        Some(_) => {
            if excluded.is_empty() {
                let filter: ContentFilter = ContentFilter::ExcludingNothing { display_id };
                proof {
                    assert(filter@.excluded =~= excluded@);
                }
                Ok(filter)
            } else {
                Ok(ContentFilter::ExcludingApplications { display_id, applications: excluded })
            }
        },
        None => {
            let id: String = decimal_text(display_id);
            Err(UpdateFilterError { description: join3("Display ", id.as_str(), " not found") })
        },
    }
}

/// The answer to an update of a stream's content filter.
pub enum FilterReply {
    Updated,
    Failed { error: String },
    /// The completion handler did not run in time.
    TimedOut,
}

/// What an update of a stream's content filter comes to.
pub fn filter_update_result(reply: FilterReply) -> (result: Result<(), UpdateFilterError>)
    ensures
        match reply {
            FilterReply::Updated => result is Ok,
            FilterReply::Failed { error } => result matches Err(e) && e.description@ == error@,
            FilterReply::TimedOut => result matches Err(e) && e.description@
                == "Timeout waiting for updateContentFilter"@,
        },
{
    match reply {
        FilterReply::Updated => Ok(()),
        FilterReply::Failed { error } => Err(UpdateFilterError { description: error }),
        FilterReply::TimedOut => Err(
            UpdateFilterError {
                description: "Timeout waiting for updateContentFilter".to_owned(),
            },
        ),
    }
}

// ---------------------------------------------------------------------------
// Application launches
// ---------------------------------------------------------------------------

/// What the system tells of an application that was launched.
pub struct LaunchedApp {
    pub bundle_id: Option<String>,
    pub name: Option<String>,
}

/// Whether an application that was launched is to be left out: by its bundle identifier, or by
/// its name.
pub open spec fn launch_matches(
    app: Option<LaunchedApp>,
    names: Seq<Seq<char>>,
    bundle_ids: Seq<Seq<char>>,
) -> bool {
    app matches Some(launched) && {
        ||| launched.bundle_id matches Some(id) && bundle_ids.contains(id@)
        ||| launched.name matches Some(name) && some_occurs_in(names, name@)
    }
}

/// Whether an application that was launched is to be left out. The notification may name none.
pub fn extract_and_check_launched_app(
    app: &Option<LaunchedApp>,
    excluded_names: &Vec<String>,
    excluded_bundle_ids: &Vec<String>,
) -> (matched: bool)
    ensures
        matched == launch_matches(*app, texts(excluded_names@), texts(excluded_bundle_ids@)),
        app is None ==> !matched,
        app matches Some(launched) ==> (matched <==> {
            ||| launched.bundle_id matches Some(id) && texts(excluded_bundle_ids@).contains(id@)
            ||| launched.name matches Some(name) && exists|k: int|
                0 <= k < excluded_names@.len() && crate::text::occurs_in(
                    (#[trigger] excluded_names@[k])@,
                    name@,
                )
        }),
{
    proof {
        if let Some(launched) = app {
            if let Some(name) = &launched.name {
                let listed: Seq<Seq<char>> = texts(excluded_names@);
                if some_occurs_in(listed, name@) {
                    let k: int = choose|k: int|
                        0 <= k < listed.len() && crate::text::occurs_in(
                            #[trigger] listed[k],
                            name@,
                        );
                    assert(listed[k] == excluded_names@[k]@);
                }
                assert forall|k: int|
                    0 <= k < excluded_names@.len() && crate::text::occurs_in(
                        (#[trigger] excluded_names@[k])@,
                        name@,
                    ) implies some_occurs_in(listed, name@) by {
                    assert(listed[k] == excluded_names@[k]@);
                }
            }
        }
    }
    let launched: &LaunchedApp = match app {
        Some(launched) => launched,
        None => {
            return false;
        },
    };
    match &launched.bundle_id {
        Some(id) => {
            if any_equals(excluded_bundle_ids, id.as_str()) {
                return true;
            }
        },
        None => {},
    }
    match &launched.name {
        Some(name) => any_occurs_in(excluded_names, name.as_str()),
        None => false,
    }
}

/// An application with a name and a bundle identifier raises the flag at its launch exactly when
/// the filter that is then built from the running applications leaves it out.
pub proof fn launches_match_what_filters_exclude(
    launched: LaunchedApp,
    application: RunningApplication,
    applications: Seq<RunningApplication>,
    names: Seq<Seq<char>>,
    bundle_ids: Seq<Seq<char>>,
)
    requires
        launched.name == Some(application.name),
        launched.bundle_id == Some(application.bundle_id),
        applications.contains(application),
    ensures
        launch_matches(Some(launched), names, bundle_ids) <==> refreshed_exclusions(
            applications,
            names,
            bundle_ids,
        ).contains(application),
{
    joint_updates_exclude_both(applications, names, bundle_ids, application);
    updates_exclude_what_they_name(applications, names, bundle_ids, application);
}

// ---------------------------------------------------------------------------
// Streams
// ---------------------------------------------------------------------------

/// A stream: the display it captures, whether it runs, and what it leaves out.
pub struct Stream {
    pub display_id: u32,
    pub playing: bool,
    /// The system has stopped the stream.
    pub stream_stopped: bool,
    pub excluded_app_names: Vec<String>,
    pub excluded_app_bundle_ids: Vec<String>,
    /// An application that is to be left out was launched.
    pub exclusion_refresh_needed: bool,
}

/// What a [`Stream`] is.
pub struct StreamView {
    pub display_id: u32,
    pub playing: bool,
    pub stream_stopped: bool,
    pub excluded_app_names: Seq<Seq<char>>,
    pub excluded_app_bundle_ids: Seq<Seq<char>>,
    pub exclusion_refresh_needed: bool,
}

impl View for Stream {
    type V = StreamView;

    open spec fn view(&self) -> StreamView {
        StreamView {
            display_id: self.display_id,
            playing: self.playing,
            stream_stopped: self.stream_stopped,
            excluded_app_names: texts(self.excluded_app_names@),
            excluded_app_bundle_ids: texts(self.excluded_app_bundle_ids@),
            exclusion_refresh_needed: self.exclusion_refresh_needed,
        }
    }
}

/// What the system is to be asked for.
#[derive(Clone, Copy, Debug, PartialEq, Eq, Structural)]
pub enum StreamCommand {
    Nothing,
    Start,
    Stop,
}

/// The answer to a start or a stop.
pub enum CompletionReply {
    Success,
    Error { code: i64, description: String },
    /// There was an error, of which nothing could be read.
    UnreadableError,
}

/// The error code of a stop for a stream that does not run.
pub const ALREADY_STOPPED: i64 = -3808;

/// The error of a start, where the start failed.
pub open spec fn start_error(reply: CompletionReply) -> Option<Seq<char>> {
    match reply {
        CompletionReply::Success => None,
        CompletionReply::Error { description, .. } => Some(description@),
        CompletionReply::UnreadableError => Some("None"@),
    }
}

/// The error of a stop, where the stop failed. A stream that does not run any more is stopped.
pub open spec fn stop_error(reply: CompletionReply) -> Option<Seq<char>> {
    match reply {
        CompletionReply::Success => None,
        CompletionReply::Error { code, description } => if code == ALREADY_STOPPED {
            None
        } else {
            Some(description@)
        },
        CompletionReply::UnreadableError => Some("Unknown error (null NSError)"@),
    }
}

/// What is left out when the exclusions of a stream are brought up to date.
pub open spec fn refreshed_exclusions(
    applications: Seq<RunningApplication>,
    names: Seq<Seq<char>>,
    bundle_ids: Seq<Seq<char>>,
) -> Seq<RunningApplication> {
    apps_by_names(applications, names) + apps_by_bundle_ids(applications, bundle_ids)
}

impl StreamView {
    /// The stream after the reply to a start.
    pub open spec fn after_start(self, reply: CompletionReply) -> Self {
        StreamView { playing: self.playing || start_error(reply) is None, ..self }
    }

    /// The stream after the reply to a stop.
    pub open spec fn after_stop(self, reply: CompletionReply) -> Self {
        StreamView { playing: self.playing && stop_error(reply) is Some, ..self }
    }

    /// The stream after the system stopped it.
    pub open spec fn after_system_stop(self) -> Self {
        StreamView { stream_stopped: true, ..self }
    }

    /// The stream after an application was launched.
    pub open spec fn after_launch(self, app: Option<LaunchedApp>) -> Self {
        StreamView {
            exclusion_refresh_needed: self.exclusion_refresh_needed || launch_matches(
                app,
                self.excluded_app_names,
                self.excluded_app_bundle_ids,
            ),
            ..self
        }
    }

    /// The stream after its exclusions were looked at.
    pub open spec fn after_refresh(self) -> Self {
        StreamView { exclusion_refresh_needed: false, ..self }
    }

    /// Whether the stream leaves applications out by name or by bundle identifier.
    pub open spec fn has_exclusions(self) -> bool {
        self.excluded_app_names.len() > 0 || self.excluded_app_bundle_ids.len() > 0
    }

    /// The filter that brings the exclusions up to date.
    pub open spec fn refreshed_filter(
        self,
        displays: Seq<Display>,
        applications: Seq<RunningApplication>,
    ) -> Result<ContentFilterView, Seq<char>> {
        filter_for(
            displays,
            self.display_id,
            refreshed_exclusions(
                applications,
                self.excluded_app_names,
                self.excluded_app_bundle_ids,
            ),
        )
    }
}

impl Stream {
    /// A stream that does not run yet.
    pub fn new(
        display_id: u32,
        excluded_app_names: Vec<String>,
        excluded_app_bundle_ids: Vec<String>,
    ) -> (stream: Stream)
        ensures
            stream@ == (StreamView {
                display_id,
                playing: false,
                stream_stopped: false,
                excluded_app_names: texts(excluded_app_names@),
                excluded_app_bundle_ids: texts(excluded_app_bundle_ids@),
                exclusion_refresh_needed: false,
            }),
    {
        Stream {
            display_id,
            playing: false,
            stream_stopped: false,
            excluded_app_names,
            excluded_app_bundle_ids,
            exclusion_refresh_needed: false,
        }
    }

    /// The filter that leaves out the applications with the process identifiers. It replaces the
    /// filter that the stream has; an empty list leaves nothing out.
    pub fn update_excluded_apps_by_pids(
        &self,
        displays: &Vec<Display>,
        applications: &Vec<RunningApplication>,
        pids: &[i32],
    ) -> (result: Result<ContentFilter, UpdateFilterError>)
        ensures
            filter_result(
                result,
                filter_for(displays@, self.display_id, apps_by_pids(applications@, pids@)),
            ),
    {
        content_filter(displays, self.display_id, find_apps_by_pids(applications, pids))
    }

    /// The filter that leaves out the applications whose names contain one of the texts. It
    /// replaces the filter that the stream has; an empty list leaves nothing out.
    pub fn update_excluded_apps_by_names(
        &self,
        displays: &Vec<Display>,
        applications: &Vec<RunningApplication>,
        names: &[&str],
    ) -> (result: Result<ContentFilter, UpdateFilterError>)
        ensures
            filter_result(
                result,
                filter_for(
                    displays@,
                    self.display_id,
                    apps_by_names(applications@, slice_texts(names@)),
                ),
            ),
    {
        let names: Vec<String> = own_strings(names);
        content_filter(
            displays,
            self.display_id,
            find_apps_by_name_substrings(applications, &names),
        )
    }

    /// The filter that leaves out the applications with the bundle identifiers. It replaces the
    /// filter that the stream has; an empty list leaves nothing out.
    pub fn update_excluded_apps_by_bundle_ids(
        &self,
        displays: &Vec<Display>,
        applications: &Vec<RunningApplication>,
        bundle_ids: &[&str],
    ) -> (result: Result<ContentFilter, UpdateFilterError>)
        ensures
            filter_result(
                result,
                filter_for(
                    displays@,
                    self.display_id,
                    apps_by_bundle_ids(applications@, slice_texts(bundle_ids@)),
                ),
            ),
    {
        let bundle_ids: Vec<String> = own_strings(bundle_ids);
        content_filter(
            displays,
            self.display_id,
            find_apps_by_bundle_ids(applications, &bundle_ids),
        )
    }

    /// The filter that leaves out the applications whose names contain one of the names, and
    /// those with the bundle identifiers.
    pub fn update_excluded_apps(
        &self,
        displays: &Vec<Display>,
        applications: &Vec<RunningApplication>,
        names: &[&str],
        bundle_ids: &[&str],
    ) -> (result: Result<ContentFilter, UpdateFilterError>)
        ensures
            filter_result(
                result,
                filter_for(
                    displays@,
                    self.display_id,
                    refreshed_exclusions(
                        applications@,
                        slice_texts(names@),
                        slice_texts(bundle_ids@),
                    ),
                ),
            ),
    {
        let names: Vec<String> = own_strings(names);
        let bundle_ids: Vec<String> = own_strings(bundle_ids);
        let excluded: Vec<RunningApplication> = exclusions(applications, &names, &bundle_ids);
        content_filter(displays, self.display_id, excluded)
    }

    /// Replaces the cached applications by those of a fetch, and returns them.
    pub fn refresh_applications_cache(
        cache: &mut ContentCache,
        reply: ContentReply<RunningApplication>,
    ) -> (result: Result<Vec<RunningApplication>, UpdateFilterError>)
        ensures
            match fetched(reply) {
                Ok(applications) => result matches Ok(v) && v@ == applications,
                Err(description) => result matches Err(e) && e.description@
                    == shown_devices_error(debug_form(description)),
            },
            final(cache)@ == old(cache)@.after_application_fetch(fetched(reply)),
    {
        match refresh_applications_cache(cache, reply) {
            Ok(_) => {},
            Err(e) => match e {
                DevicesError::BackendSpecific { err } => {
                    let shown: String = debug(err.description.as_str());
                    return Err(
                        UpdateFilterError { description: show_devices_error(shown.as_str()) },
                    );
                },
            },
        }
        match get_applications_cached(cache) {
            Some(applications) => Ok(applications),
            None => Ok(Vec::new()),
        }
    }

    /// Looks whether an application that is to be left out was launched. Where one was, the
    /// cached applications are forgotten; the answer says whether the filter of
    /// [`Stream::refreshed_filter`], with freshly fetched applications, is then to be applied.
    pub fn auto_refresh_exclusions(&mut self, cache: &mut ContentCache) -> (refresh: bool)
        ensures
            refresh == (old(self)@.exclusion_refresh_needed && old(self)@.has_exclusions()),
            final(self)@ == old(self)@.after_refresh(),
            refresh <==> old(self).exclusion_refresh_needed && (old(self).excluded_app_names@.len()
                > 0 || old(self).excluded_app_bundle_ids@.len() > 0),
            !final(self).exclusion_refresh_needed,
            final(self).playing == old(self).playing,
            final(self).stream_stopped == old(self).stream_stopped,
            final(self).display_id == old(self).display_id,
            final(self).excluded_app_names == old(self).excluded_app_names,
            final(self).excluded_app_bundle_ids == old(self).excluded_app_bundle_ids,
            final(cache)@.displays == old(cache)@.displays,
            old(self).exclusion_refresh_needed ==> final(cache)@.applications is None,
            !old(self).exclusion_refresh_needed ==> final(cache)@.applications 
                == old(cache)@.applications,
            final(cache)@ == if old(self)@.exclusion_refresh_needed {
                old(cache)@.without_applications()
            } else {
                old(cache)@
            },
    {
        if !self.exclusion_refresh_needed {
            return false;
        }
        self.exclusion_refresh_needed = false;
        invalidate_applications_cache(cache);
        !(self.excluded_app_names.is_empty() && self.excluded_app_bundle_ids.is_empty())
    }

    /// The filter that brings the exclusions up to date.
    pub fn refreshed_filter(
        &self,
        displays: &Vec<Display>,
        applications: &Vec<RunningApplication>,
    ) -> (result: Result<ContentFilter, UpdateFilterError>)
        ensures
            filter_result(result, self@.refreshed_filter(displays@, applications@)),
    {
        let excluded: Vec<RunningApplication> = exclusions(
            applications,
            &self.excluded_app_names,
            &self.excluded_app_bundle_ids,
        );
        content_filter(displays, self.display_id, excluded)
    }

    /// Whether the system has stopped the stream, as it does when the display is disconnected.
    pub fn is_stream_stopped(&self) -> (stopped: bool)
        ensures
            stopped == self@.stream_stopped,
            stopped == self.stream_stopped,
    {
        self.stream_stopped
    }

    /// Takes note that the system stopped the stream; the result goes to the error callback.
    pub fn did_stop_with_error(&mut self) -> (error: StreamError)
        ensures
            error == StreamError::DeviceNotAvailable,
            final(self)@ == old(self)@.after_system_stop(),
            final(self).stream_stopped,
            final(self).playing == old(self).playing,
            final(self).exclusion_refresh_needed == old(self).exclusion_refresh_needed,
            final(self).display_id == old(self).display_id,
            final(self).excluded_app_names == old(self).excluded_app_names,
            final(self).excluded_app_bundle_ids == old(self).excluded_app_bundle_ids,
    {
        self.stream_stopped = true;
        StreamError::DeviceNotAvailable
    }

    /// Takes note that an application was launched.
    pub fn did_launch_application(&mut self, app: &Option<LaunchedApp>)
        ensures
            final(self)@ == old(self)@.after_launch(*app),
            old(self).exclusion_refresh_needed ==> final(self).exclusion_refresh_needed,
            final(self).playing == old(self).playing,
            final(self).stream_stopped == old(self).stream_stopped,
            final(self).display_id == old(self).display_id,
            final(self).excluded_app_names == old(self).excluded_app_names,
            final(self).excluded_app_bundle_ids == old(self).excluded_app_bundle_ids,
    {
        let matched: bool = extract_and_check_launched_app(
            app,
            &self.excluded_app_names,
            &self.excluded_app_bundle_ids,
        );
        if matched {
            self.exclusion_refresh_needed = true;
        }
    }

    /// What is to be done for the stream to run; the reply goes to [`Stream::play_completed`].
    pub fn play(&self) -> (command: StreamCommand)
        ensures
            self.playing ==> command == StreamCommand::Nothing,
            !self.playing ==> command == StreamCommand::Start,
            command == if self@.playing {
                StreamCommand::Nothing
            } else {
                StreamCommand::Start
            },
    {
        if !self.playing {
            StreamCommand::Start
        } else {
            StreamCommand::Nothing
        }
    }

    /// Takes the reply to a start.
    pub fn play_completed(&mut self, reply: CompletionReply) -> (result: Result<
        (),
        PlayStreamError,
    >)
        ensures
            match start_error(reply) {
                None => result is Ok,
                Some(description) => result matches Err(e) && e@ == ErrorView::BackendSpecific(
                    description,
                ),
            },
            final(self)@ == old(self)@.after_start(reply),
            result is Ok <==> reply is Success,
            reply matches CompletionReply::Error { description, .. } ==> (result matches Err(e)
                && e@ == ErrorView::BackendSpecific(description@)),
            reply is UnreadableError ==> (result matches Err(e) && e@
                == ErrorView::BackendSpecific("None"@)),
            result is Ok ==> final(self).playing,
            result is Err ==> final(self).playing == old(self).playing,
            final(self).stream_stopped == old(self).stream_stopped,
            final(self).exclusion_refresh_needed == old(self).exclusion_refresh_needed,
            final(self).display_id == old(self).display_id,
            final(self).excluded_app_names == old(self).excluded_app_names,
            final(self).excluded_app_bundle_ids == old(self).excluded_app_bundle_ids,
    {
        let description: String = match reply {
            CompletionReply::Success => {
                self.playing = true;
                return Ok(());
            },
            CompletionReply::Error { code: _, description } => description,
            CompletionReply::UnreadableError => "None".to_owned(),
        };
        Err(PlayStreamError::BackendSpecific { err: BackendSpecificError { description } })
    }

    /// What is to be done for the stream to pause; the reply goes to
    /// [`Stream::pause_completed`].
    pub fn pause(&self) -> (command: StreamCommand)
        ensures
            self.playing ==> command == StreamCommand::Stop,
            !self.playing ==> command == StreamCommand::Nothing,
            command == if self@.playing {
                StreamCommand::Stop
            } else {
                StreamCommand::Nothing
            },
    {
        if self.playing {
            StreamCommand::Stop
        } else {
            StreamCommand::Nothing
        }
    }

    /// Takes the reply to a stop. That the stream had stopped before is no error.
    pub fn pause_completed(&mut self, reply: CompletionReply) -> (result: Result<
        (),
        PauseStreamError,
    >)
        ensures
            match stop_error(reply) {
                None => result is Ok,
                Some(description) => result matches Err(e) && e@ == ErrorView::BackendSpecific(
                    description,
                ),
            },
            final(self)@ == old(self)@.after_stop(reply),
            result is Ok <==> {
                ||| reply is Success
                ||| reply matches CompletionReply::Error { code, .. } && code == -3808
            },
            reply matches CompletionReply::Error { code, description } ==> code != -3808 ==> (
            result matches Err(e) && e@ == ErrorView::BackendSpecific(description@)),
            reply is UnreadableError ==> (result matches Err(e) && e@
                == ErrorView::BackendSpecific("Unknown error (null NSError)"@)),
            result is Ok ==> !final(self).playing,
            result is Err ==> final(self).playing == old(self).playing,
            final(self).stream_stopped == old(self).stream_stopped,
            final(self).exclusion_refresh_needed == old(self).exclusion_refresh_needed,
            final(self).display_id == old(self).display_id,
            final(self).excluded_app_names == old(self).excluded_app_names,
            final(self).excluded_app_bundle_ids == old(self).excluded_app_bundle_ids,
    {
        match reply {
            CompletionReply::Success => {},
            CompletionReply::Error { code, description } => {
                if code != ALREADY_STOPPED {
                    return Err(
                        PauseStreamError::BackendSpecific {
                            err: BackendSpecificError { description },
                        },
                    );
                }
            },
            CompletionReply::UnreadableError => {
                return Err(
                    PauseStreamError::BackendSpecific {
                        err: BackendSpecificError {
                            description: "Unknown error (null NSError)".to_owned(),
                        },
                    },
                );
            },
        }
        self.playing = false;
        Ok(())
    }
}

fn exclusions(
    applications: &Vec<RunningApplication>,
    names: &Vec<String>,
    bundle_ids: &Vec<String>,
) -> (excluded: Vec<RunningApplication>)
    ensures
        excluded@ == refreshed_exclusions(applications@, texts(names@), texts(bundle_ids@)),
{
    let mut excluded: Vec<RunningApplication> = find_apps_by_name_substrings(applications, names);
    let mut by_bundle_id: Vec<RunningApplication> = find_apps_by_bundle_ids(
        applications,
        bundle_ids,
    );
    excluded.append(&mut by_bundle_id);
    excluded
}

/// An update with no names and no identifiers leaves nothing out.
pub proof fn empty_updates_clear_exclusions(applications: Seq<RunningApplication>)
    ensures
        apps_by_pids(applications, seq![]).len() == 0,
        apps_by_names(applications, seq![]).len() == 0,
        apps_by_bundle_ids(applications, seq![]).len() == 0,
        refreshed_exclusions(applications, seq![], seq![]).len() == 0,
    decreases applications.len(),
{
    reveal(Seq::filter);
    if applications.len() > 0 {
        empty_updates_clear_exclusions(applications.drop_last());
    }
}

/// One update by names and bundle identifiers leaves out just what the update by names and the
/// update by bundle identifiers leave out together.
pub proof fn joint_updates_exclude_both(
    applications: Seq<RunningApplication>,
    names: Seq<Seq<char>>,
    bundle_ids: Seq<Seq<char>>,
    application: RunningApplication,
)
    ensures
        refreshed_exclusions(applications, names, bundle_ids).contains(application) <==> (
        apps_by_names(applications, names).contains(application) || apps_by_bundle_ids(
            applications,
            bundle_ids,
        ).contains(application)),
        refreshed_exclusions(applications, names, bundle_ids) == apps_by_names(applications, names)
            + apps_by_bundle_ids(applications, bundle_ids),
{
    let a: Seq<RunningApplication> = apps_by_names(applications, names);
    let b: Seq<RunningApplication> = apps_by_bundle_ids(applications, bundle_ids);
    if a.contains(application) {
        let i: int = choose|i: int| 0 <= i < a.len() && a[i] == application;
        assert((a + b)[i] == application);
    }
    if b.contains(application) {
        let i: int = choose|i: int| 0 <= i < b.len() && b[i] == application;
        assert((a + b)[a.len() + i] == application);
    }
}

/// An update leaves out every running application that it names, and no other.
pub proof fn updates_exclude_what_they_name(
    applications: Seq<RunningApplication>,
    names: Seq<Seq<char>>,
    bundle_ids: Seq<Seq<char>>,
    application: RunningApplication,
)
    ensures
        apps_by_names(applications, names).contains(application) <==> applications.contains(
            application,
        ) && name_matches(application, names),
        apps_by_bundle_ids(applications, bundle_ids).contains(application)
            <==> applications.contains(application) && bundle_id_matches(application, bundle_ids),
    decreases applications.len(),
{
    reveal(Seq::filter);
    if applications.len() > 0 {
        let rest: Seq<RunningApplication> = applications.drop_last();
        updates_exclude_what_they_name(rest, names, bundle_ids, application);
        pushing_adds_one(rest, applications.last(), application);
        assert(rest.push(applications.last()) =~= applications);
        pushing_adds_one(apps_by_names(rest, names), applications.last(), application);
        pushing_adds_one(apps_by_bundle_ids(rest, bundle_ids), applications.last(), application);
    }
}

proof fn pushing_adds_one<T>(s: Seq<T>, last: T, x: T)
    ensures
        s.push(last).contains(x) <==> s.contains(x) || x == last,
{
    if s.contains(x) {
        let i: int = choose|i: int| 0 <= i < s.len() && s[i] == x;
        assert(s.push(last)[i] == x);
    }
    if x == last {
        assert(s.push(last)[s.len() as int] == x);
    }
}

proof fn names_match_by_their_parts(application: RunningApplication, names: Seq<Seq<char>>)
    ensures
        name_matches(application, names) <==> exists|k: int, at: int|
            0 <= k < names.len() && 0 <= at <= application.name@.len() - names[k].len()
                && #[trigger] application.name@.subrange(at, at + names[k].len()) == names[k],
{
    let one: Seq<RunningApplication> = seq![application];
    let none: Seq<RunningApplication> = seq![];
    applications_are_found_one_by_one(none, none, application, names);
    updates_exclude_what_they_name(one, names, names, application);
    assert(one[0] == application);
    assert(one.contains(application));
    assert(!none.contains(application));
}

/// A stream leaves out every running application that its configuration names: one of whose name
/// a part is given, whose bundle identifier is given, or whose process identifier is given. It
/// leaves out no other.
pub proof fn streams_leave_out_what_is_configured(
    config: StreamConfigView,
    applications: Seq<RunningApplication>,
    application: RunningApplication,
)
    requires
        forall|i: int, j: int|
            0 <= i < j < applications.len() ==> (#[trigger] applications[i]).pid != (
            #[trigger] applications[j]).pid,
    ensures
        configured_exclusions(config, applications).contains(application) <==> {
            &&& applications.contains(application)
            &&& {
                ||| config.excluded_app_names matches Some(names) && exists|k: int, at: int|
                    0 <= k < names.len() && 0 <= at <= application.name@.len() - names[k].len()
                        && #[trigger] application.name@.subrange(at, at + names[k].len())
                        == names[k]
                ||| config.excluded_app_pids matches Some(pids) && pids.contains(application.pid)
                ||| config.excluded_app_bundle_ids matches Some(ids) && ids.contains(
                    application.bundle_id@,
                )
            }
        },
{
    let names: Seq<Seq<char>> = list_or_empty(config.excluded_app_names);
    let pids: Seq<i32> = list_or_empty(config.excluded_app_pids);
    let ids: Seq<Seq<char>> = list_or_empty(config.excluded_app_bundle_ids);
    let a: Seq<RunningApplication> = apps_by_names(applications, names);
    let b: Seq<RunningApplication> = apps_by_pids(applications, pids);
    let c: Seq<RunningApplication> = apps_by_bundle_ids(applications, ids);
    names_match_by_their_parts(application, names);
    updates_exclude_what_they_name(applications, names, ids, application);
    named_processes_are_found(applications, pids, application);
    if a.contains(application) {
        let i: int = choose|i: int| 0 <= i < a.len() && a[i] == application;
        assert((a + b + c)[i] == application);
    }
    if b.contains(application) {
        let i: int = choose|i: int| 0 <= i < b.len() && b[i] == application;
        assert((a + b + c)[a.len() + i] == application);
    }
    if c.contains(application) {
        let i: int = choose|i: int| 0 <= i < c.len() && c[i] == application;
        assert((a + b + c)[a.len() + b.len() + i] == application);
    }
    if (a + b + c).contains(application) {
        let i: int = choose|i: int| 0 <= i < (a + b + c).len() && (a + b + c)[i] == application;
        if i < a.len() {
            assert(a[i] == application);
        } else if i < a.len() + b.len() {
            assert(b[i - a.len()] == application);
        } else {
            assert(c[i - a.len() - b.len()] == application);
        }
    }
}

/// Nothing that happens to a stream takes back that the system stopped it, and nothing changes
/// which display it captures or what it is to leave out.
pub proof fn stopped_streams_stay_stopped(
    stream: StreamView,
    reply: CompletionReply,
    app: Option<LaunchedApp>,
)
    ensures
        forall|next: StreamView|
            #![trigger next.stream_stopped]
            next == stream.after_start(reply) || next == stream.after_stop(reply) || next
                == stream.after_system_stop() || next == stream.after_launch(app) || next
                == stream.after_refresh() ==> {
                &&& stream.stream_stopped ==> next.stream_stopped
                &&& next.display_id == stream.display_id
                &&& next.excluded_app_names == stream.excluded_app_names
                &&& next.excluded_app_bundle_ids == stream.excluded_app_bundle_ids
            },
        stream.after_system_stop().stream_stopped,
{
}

/// A start that succeeds makes a stream run, and a stop that succeeds, or comes too late, ends
/// that. One that fails changes nothing.
pub proof fn commands_take_effect_or_change_nothing(stream: StreamView, reply: CompletionReply)
    ensures
        start_error(reply) is None ==> stream.after_start(reply).playing,
        start_error(reply) is Some ==> stream.after_start(reply) == stream,
        stop_error(reply) is None ==> !stream.after_stop(reply).playing,
        stop_error(reply) is Some ==> stream.after_stop(reply) == stream,
{
}

/// A launch is answered once: after the exclusions were looked at, there is nothing to refresh
/// until the next matching launch.
pub proof fn refreshes_follow_launches(stream: StreamView, app: Option<LaunchedApp>)
    ensures
        !stream.after_refresh().exclusion_refresh_needed,
        stream.after_refresh().after_launch(app).exclusion_refresh_needed <==> launch_matches(
            app,
            stream.excluded_app_names,
            stream.excluded_app_bundle_ids,
        ),
{
}

/// What a run of application launches leads to.
pub open spec fn launch_run(stream: StreamView, apps: Seq<Option<LaunchedApp>>) -> StreamView
    decreases apps.len(),
{
    if apps.len() == 0 {
        stream
    } else {
        launch_run(stream, apps.drop_last()).after_launch(apps.last())
    }
}

/// After any number of launches a refresh is needed exactly when it was needed before, or one of
/// the applications is to be left out. Launches change nothing else, and none takes it back.
pub proof fn launches_raise_the_flag(stream: StreamView, apps: Seq<Option<LaunchedApp>>)
    ensures
        launch_run(stream, apps) == (StreamView {
            exclusion_refresh_needed: stream.exclusion_refresh_needed || exists|i: int|
                0 <= i < apps.len() && launch_matches(
                    #[trigger] apps[i],
                    stream.excluded_app_names,
                    stream.excluded_app_bundle_ids,
                ),
            ..stream
        }),
    decreases apps.len(),
{
    if apps.len() > 0 {
        let rest: Seq<Option<LaunchedApp>> = apps.drop_last();
        launches_raise_the_flag(stream, rest);
        let matches_one = |list: Seq<Option<LaunchedApp>>|
            exists|i: int|
                0 <= i < list.len() && launch_matches(
                    #[trigger] list[i],
                    stream.excluded_app_names,
                    stream.excluded_app_bundle_ids,
                );
        let last_matches: bool = launch_matches(
            apps.last(),
            stream.excluded_app_names,
            stream.excluded_app_bundle_ids,
        );
        if matches_one(rest) {
            let i: int = choose|i: int|
                0 <= i < rest.len() && launch_matches(
                    #[trigger] rest[i],
                    stream.excluded_app_names,
                    stream.excluded_app_bundle_ids,
                );
            assert(apps[i] == rest[i]);
        }
        if last_matches {
            assert(apps[apps.len() - 1] == apps.last());
        }
        if matches_one(apps) && !last_matches {
            let i: int = choose|i: int|
                0 <= i < apps.len() && launch_matches(
                    #[trigger] apps[i],
                    stream.excluded_app_names,
                    stream.excluded_app_bundle_ids,
                );
            assert(rest[i] == apps[i]);
        }
        assert(matches_one(apps) == (matches_one(rest) || last_matches));
    }
}

/// What can happen to a stream.
pub enum StreamEvent {
    Started(CompletionReply),
    Stopped(CompletionReply),
    StoppedBySystem,
    Launched(Option<LaunchedApp>),
    Refreshed,
}

/// What a run of events leads to.
pub open spec fn stream_run(stream: StreamView, events: Seq<StreamEvent>) -> StreamView
    decreases events.len(),
{
    if events.len() == 0 {
        stream
    } else {
        let before = stream_run(stream, events.drop_last());
        match events.last() {
            StreamEvent::Started(reply) => before.after_start(reply),
            StreamEvent::Stopped(reply) => before.after_stop(reply),
            StreamEvent::StoppedBySystem => before.after_system_stop(),
            StreamEvent::Launched(app) => before.after_launch(app),
            StreamEvent::Refreshed => before.after_refresh(),
        }
    }
}

/// Whatever happens to a stream, it counts as stopped exactly when it did before or the system has
/// stopped it since.
pub proof fn system_stops_are_remembered(stream: StreamView, events: Seq<StreamEvent>)
    ensures
        stream_run(stream, events).stream_stopped <==> stream.stream_stopped || exists|i: int|
            0 <= i < events.len() && #[trigger] events[i] is StoppedBySystem,
    decreases events.len(),
{
    if events.len() > 0 {
        let rest: Seq<StreamEvent> = events.drop_last();
        system_stops_are_remembered(stream, rest);
        assert forall|i: int| 0 <= i < rest.len() implies #[trigger] rest[i] == events[i] by {
        }
        if exists|i: int| 0 <= i < rest.len() && #[trigger] rest[i] is StoppedBySystem {
            let i: int = choose|i: int|
                0 <= i < rest.len() && #[trigger] rest[i] is StoppedBySystem;
            assert(events[i] is StoppedBySystem);
        }
        if events.last() is StoppedBySystem {
            assert(events[events.len() - 1] is StoppedBySystem);
        } else if exists|i: int|
            0 <= i < events.len() && #[trigger] events[i] is StoppedBySystem {
            let i: int = choose|i: int|
                0 <= i < events.len() && #[trigger] events[i] is StoppedBySystem;
            assert(rest[i] is StoppedBySystem);
        }
    }
}

// ---------------------------------------------------------------------------
// Building a stream
// ---------------------------------------------------------------------------

/// What is left out by the configuration of a stream: by name, by process, by bundle identifier.
pub open spec fn configured_exclusions(
    config: StreamConfigView,
    applications: Seq<RunningApplication>,
) -> Seq<RunningApplication> {
    apps_by_names(applications, list_or_empty(config.excluded_app_names)) + apps_by_pids(
        applications,
        list_or_empty(config.excluded_app_pids),
    ) + apps_by_bundle_ids(applications, list_or_empty(config.excluded_app_bundle_ids))
}

/// What is to be set up for a stream.
pub struct StreamPlan {
    pub captures_audio: bool,
    pub excludes_current_process_audio: bool,
    pub filter: ContentFilter,
    /// Launches of applications are to be observed.
    pub observe_launches: bool,
    /// The stream, once its output is attached.
    pub stream: Stream,
}

/// The answer to attaching the output of a stream.
pub enum OutputReply {
    Attached,
    /// There was an error, which may be unreadable.
    Refused { error: Option<String> },
    RefusedWithoutError,
}

impl StreamPlan {
    /// The stream, or why its output could not be attached.
    pub fn finish(self, reply: OutputReply) -> (result: Result<Stream, BuildStreamError>)
        ensures
            match reply {
                OutputReply::Attached => result == Ok::<Stream, BuildStreamError>(self.stream),
                OutputReply::Refused { error: Some(error) } => result matches Err(e) && e@
                    == ErrorView::BackendSpecific(error@),
                OutputReply::Refused { error: None } => result matches Err(e) && e@
                    == ErrorView::BackendSpecific("Unknown error"@),
                OutputReply::RefusedWithoutError => result matches Err(e) && e@
                    == ErrorView::BackendSpecific("Unknown SCStream error"@),
            },
    {
        let description: String = match reply {
            OutputReply::Attached => {
                return Ok(self.stream);
            },
            OutputReply::Refused { error } => match error {
                Some(error) => error,
                None => "Unknown error".to_owned(),
            },
            OutputReply::RefusedWithoutError => "Unknown SCStream error".to_owned(),
        };
        Err(BuildStreamError::BackendSpecific { err: BackendSpecificError { description } })
    }
}

fn strings_or_none(list: &Option<Vec<String>>) -> (strings: Vec<String>)
    ensures
        texts(strings@) == list_or_empty(crate::types::optional_texts(*list)),
        strings@.len() > 0 <==> (list matches Some(v) && v@.len() > 0),
{
    match list {
        Some(v) => copy_strings(v),
        None => {
            let none: Vec<String> = Vec::new();
            proof {
                assert(texts(none@) =~= seq![]);
            }
            none
        },
    }
}

impl Device {
    /// What is to be set up for a stream that captures this display.
    pub fn build_input_stream(
        &self,
        config: &StreamConfig,
        displays: &Vec<Display>,
        applications: &Vec<RunningApplication>,
    ) -> (result: Result<StreamPlan, BuildStreamError>)
        ensures
            match filter_for(
                displays@,
                self.display_id,
                configured_exclusions(config@, applications@),
            ) {
                Ok(filter) => result matches Ok(plan) && {
                    &&& plan.captures_audio
                    &&& !plan.excludes_current_process_audio
                    &&& plan.filter.well_formed()
                    &&& plan.filter@ == filter
                    &&& plan.observe_launches == plan.stream@.has_exclusions()
                    &&& plan.stream@ == (StreamView {
                        display_id: self.display_id,
                        playing: false,
                        stream_stopped: false,
                        excluded_app_names: list_or_empty(config@.excluded_app_names),
                        excluded_app_bundle_ids: list_or_empty(config@.excluded_app_bundle_ids),
                        exclusion_refresh_needed: false,
                    })
                },
                Err(description) => result matches Err(e) && e@ == ErrorView::BackendSpecific(
                    description,
                ),
            },
            result is Ok <==> exists|i: int|
                0 <= i < displays@.len() && (#[trigger] displays@[i]).display_id
                    == self.display_id,
            result matches Ok(plan) ==> plan.filter@.display_id == self.display_id
                && plan.filter@.excluded == configured_exclusions(config@, applications@),
            result matches Ok(plan) ==> (plan.observe_launches <==> {
                ||| config.excluded_app_names matches Some(names) && names@.len() > 0
                ||| config.excluded_app_bundle_ids matches Some(ids) && ids@.len() > 0
            }),
            result matches Err(e) ==> e@ == ErrorView::BackendSpecific(
                "Display "@ + decimal(self.display_id as nat) + " not found"@,
            ),
    {
        let names: Vec<String> = strings_or_none(&config.excluded_app_names);
        let bundle_ids: Vec<String> = strings_or_none(&config.excluded_app_bundle_ids);
        let mut excluded: Vec<RunningApplication> = find_apps_by_name_substrings(
            applications,
            &names,
        );
        let mut by_pid: Vec<RunningApplication> = match &config.excluded_app_pids {
            Some(pids) => find_apps_by_pids(applications, pids.as_slice()),
            None => Vec::new(),
        };
        let mut by_bundle_id: Vec<RunningApplication> = find_apps_by_bundle_ids(
            applications,
            &bundle_ids,
        );
        excluded.append(&mut by_pid);
        excluded.append(&mut by_bundle_id);
        proof {
            assert(excluded@ =~= configured_exclusions(config@, applications@));
        }
        match content_filter(displays, self.display_id, excluded) {
            Ok(filter) => {
                let observe_launches: bool = !names.is_empty() || !bundle_ids.is_empty();
                Ok(
                    StreamPlan {
                        captures_audio: true,
                        excludes_current_process_audio: false,
                        filter,
                        observe_launches,
                        stream: Stream::new(self.display_id, names, bundle_ids),
                    },
                )
            },
            Err(e) => Err(
                BuildStreamError::BackendSpecific {
                    err: BackendSpecificError { description: e.description },
                },
            ),
        }
    }

    /// The device does not play.
    pub fn build_output_stream(&self) -> (result: Result<Stream, BuildStreamError>)
        ensures
            result matches Err(e) && e@ == ErrorView::StreamConfigNotSupported,
    {
        Err(BuildStreamError::StreamConfigNotSupported)
    }
}

/// Where nothing is left out by process identifier, bringing the exclusions of a stream up to
/// date gives the filter with which a stream would be built anew.
pub proof fn refreshes_repeat_the_build(
    config: StreamConfigView,
    stream: StreamView,
    displays: Seq<Display>,
    applications: Seq<RunningApplication>,
)
    requires
        list_or_empty(config.excluded_app_pids).len() == 0,
        stream.excluded_app_names == list_or_empty(config.excluded_app_names),
        stream.excluded_app_bundle_ids == list_or_empty(config.excluded_app_bundle_ids),
    ensures
        stream.refreshed_filter(displays, applications) == filter_for(
            displays,
            stream.display_id,
            configured_exclusions(config, applications),
        ),
{
    assert(configured_exclusions(config, applications) =~= refreshed_exclusions(
        applications,
        stream.excluded_app_names,
        stream.excluded_app_bundle_ids,
    ));
}

} // verus!
