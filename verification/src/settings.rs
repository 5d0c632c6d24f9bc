//! Reading and changing the server settings.

use vstd::prelude::*;

use crate::error::APIError;
use crate::outside::{compile_regex, parse_uri, regex_accepts, uri_text};
use crate::step::{run, Step};
use crate::text::{
    is_blank, law_blank_trims_to_nothing, law_white_space_around_is_trimmed, trimmed,
};

verus! {

/// The settings that a client reads.
#[derive(Debug)]
pub struct Settings {
    pub album_art_pattern: String,
    /// Empty where no URL is set.
    pub ddns_update_url: String,
}

/// The settings that a client wants changed; `None` leaves one as it is.
#[derive(Debug)]
pub struct NewSettings {
    pub album_art_pattern: Option<String>,
    pub ddns_update_url: Option<String>,
}

/// A regular expression that picks out the album art among the files of a
/// folder. Its view is the text of the expression.
#[derive(Debug)]
pub struct AlbumArtPattern {
    source: String,
}

/// The URL that keeps a dynamic DNS entry up to date. Its view is its text.
#[derive(Debug)]
pub struct DdnsUrl {
    text: String,
}

impl View for AlbumArtPattern {
    type V = Seq<char>;

    closed spec fn view(&self) -> Seq<char> {
        self.source@
    }
}

impl View for DdnsUrl {
    type V = Seq<char>;

    closed spec fn view(&self) -> Seq<char> {
        self.text@
    }
}

/// `pattern` is a regular expression.
pub open spec fn is_pattern(pattern: Seq<char>) -> bool {
    regex_accepts(pattern, usize::BITS as nat)
}

/// What a client asks for with the URL text `text`: to set the URL to a text,
/// to clear it (`Some(None)`), or nothing that can be read (`None`).
pub open spec fn wanted_url(text: Seq<char>) -> Option<Option<Seq<char>>> {
    if trimmed(text).len() == 0 {
        Some(None)
    } else {
        match uri_text(trimmed(text)) {
            Some(uri) => Some(Some(uri)),
            None => None,
        }
    }
}

/// The view of a URL that may be absent.
pub open spec fn url_view(url: Option<DdnsUrl>) -> Option<Seq<char>> {
    match url {
        Some(u) => Some(u@),
        None => None,
    }
}

/// The view of a text that may be absent.
pub open spec fn text_view(text: Option<String>) -> Option<Seq<char>> {
    match text {
        Some(t) => Some(t@),
        None => None,
    }
}

impl AlbumArtPattern {
    /// Every pattern made by [`AlbumArtPattern::new`] is a regular expression.
    pub open spec fn wf(&self) -> bool {
        is_pattern(self@)
    }

    /// Reads `source` as a regular expression.
    pub fn new(source: &str) -> (r: Result<AlbumArtPattern, regex::Error>)
        ensures
            r is Ok <==> is_pattern(source@),
            r matches Ok(pattern) ==> pattern@ == source@ && pattern.wf(),
    {
        match compile_regex(source) {
            Ok(source) => Ok(AlbumArtPattern { source }),
            Err(e) => Err(e),
        }
    }

    /// The text of the expression.
    pub fn as_str(&self) -> (text: &str)
        ensures
            text@ == self@,
    {
        self.source.as_str()
    }
}

impl DdnsUrl {
    /// Reads what a client wants the URL to be: the URI in `text`, or no URL
    /// where `text` is blank. White space around the URI is ignored.
    pub fn read(text: &str) -> (r: Result<Option<DdnsUrl>, http::uri::InvalidUri>)
        ensures
            r is Ok <==> wanted_url(text@) is Some,
            r matches Ok(url) ==> wanted_url(text@) == Some(url_view(url)),
    {
        let text = text.trim();
        if text.is_empty() {
            return Ok(None);
        }
        match parse_uri(text) {
            Ok(text) => Ok(Some(DdnsUrl { text })),
            Err(e) => Err(e),
        }
    }

    /// The text of the URL.
    pub fn as_str(&self) -> (text: &str)
        ensures
            text@ == self@,
    {
        self.text.as_str()
    }
}

/// `settings` is what a client reads where `pattern` and `url` are stored.
pub open spec fn shows(settings: Settings, pattern: AlbumArtPattern, url: Option<DdnsUrl>) -> bool {
    &&& settings.album_art_pattern@ == pattern@
    &&& settings.ddns_update_url@ == shown_url(url_view(url))
}

/// The settings as a client reads them.
pub fn get_settings(pattern: &AlbumArtPattern, url: &Option<DdnsUrl>) -> (settings: Settings)
    ensures
        shows(settings, *pattern, *url),
{
    Settings {
        album_art_pattern: pattern.as_str().to_owned(),
        ddns_update_url: match url {
            Some(u) => u.as_str().to_owned(),
            None => String::new(),
        },
    }
}

/// The text that stands for `url` in the settings that a client reads.
pub open spec fn shown_url(url: Option<Seq<char>>) -> Seq<char> {
    match url {
        Some(u) => u,
        None => Seq::empty(),
    }
}

/// A call that changing the settings makes.
#[derive(Debug)]
pub enum SettingsCall {
    /// Store the album art pattern.
    SetAlbumArtPattern(AlbumArtPattern),
    /// Store the dynamic DNS URL, or clear it.
    SetDdnsUpdateUrl(Option<DdnsUrl>),
    /// Refresh the dynamic DNS entry.
    UpdateDdns,
}

/// A request to change the settings that awaits the outcome of a call.
#[derive(Debug)]
pub enum PutSettings {
    /// The pattern is being stored; the URL asked for comes next.
    StoringPattern { ddns_update_url: Option<String> },
    /// The URL is being stored.
    StoringUrl,
    /// The dynamic DNS entry is being refreshed.
    UpdatingDdns,
}

/// The view of a [`SettingsCall`].
pub enum SettingsCallView {
    SetAlbumArtPattern(Seq<char>),
    SetDdnsUpdateUrl(Option<Seq<char>>),
    UpdateDdns,
}

/// The view of a [`PutSettings`].
pub enum PutSettingsView {
    StoringPattern { ddns_update_url: Option<Seq<char>> },
    StoringUrl,
    UpdatingDdns,
}

impl View for SettingsCall {
    type V = SettingsCallView;

    open spec fn view(&self) -> SettingsCallView {
        match self {
            SettingsCall::SetAlbumArtPattern(pattern) => SettingsCallView::SetAlbumArtPattern(
                pattern@,
            ),
            SettingsCall::SetDdnsUpdateUrl(url) => SettingsCallView::SetDdnsUpdateUrl(
                url_view(*url),
            ),
            SettingsCall::UpdateDdns => SettingsCallView::UpdateDdns,
        }
    }
}

impl View for PutSettings {
    type V = PutSettingsView;

    open spec fn view(&self) -> PutSettingsView {
        match self {
            PutSettings::StoringPattern { ddns_update_url } => PutSettingsView::StoringPattern {
                ddns_update_url: text_view(*ddns_update_url),
            },
            PutSettings::StoringUrl => PutSettingsView::StoringUrl,
            PutSettings::UpdatingDdns => PutSettingsView::UpdatingDdns,
        }
    }
}

/// What a request wants of the URL.
pub enum UrlWish {
    /// That it stay as it is.
    Keep,
    /// That it be stored, or cleared.
    Store(Option<Seq<char>>),
    /// Nothing that can be read.
    Unreadable,
}

/// What a request wants of the URL with an optional text for it.
pub open spec fn url_wish(text: Option<Seq<char>>) -> UrlWish {
    match text {
        None => UrlWish::Keep,
        Some(t) => match wanted_url(t) {
            Some(url) => UrlWish::Store(url),
            None => UrlWish::Unreadable,
        },
    }
}

/// What a request does about the URL.
pub open spec fn url_step<E>(wish: UrlWish) -> Step<
    SettingsCallView,
    PutSettingsView,
    Result<(), APIError<E>>,
> {
    match wish {
        UrlWish::Keep => Step::Reply(Ok(())),
        UrlWish::Store(url) => Step::Call(
            SettingsCallView::SetDdnsUpdateUrl(url),
            PutSettingsView::StoringUrl,
        ),
        UrlWish::Unreadable => Step::Reply(Err(APIError::InvalidDDNSURL)),
    }
}

/// The first step of a request with these settings.
pub open spec fn first_step<E>(pattern: Option<Seq<char>>, url: Option<Seq<char>>) -> Step<
    SettingsCallView,
    PutSettingsView,
    Result<(), APIError<E>>,
> {
    match pattern {
        Some(p) => if is_pattern(p) {
            Step::Call(
                SettingsCallView::SetAlbumArtPattern(p),
                PutSettingsView::StoringPattern { ddns_update_url: url },
            )
        } else {
            Step::Reply(Err(APIError::InvalidAlbumArtPattern))
        },
        None => url_step(url_wish(url)),
    }
}

/// The step that follows the outcome of a call.
pub open spec fn next_step<E>(state: PutSettingsView, outcome: Result<(), E>) -> Step<
    SettingsCallView,
    PutSettingsView,
    Result<(), APIError<E>>,
> {
    match outcome {
        Err(e) => Step::Reply(Err(APIError::Manager(e))),
        Ok(_) => match state {
            PutSettingsView::StoringPattern { ddns_update_url } => url_step(
                url_wish(ddns_update_url),
            ),
            PutSettingsView::StoringUrl => Step::Call(
                SettingsCallView::UpdateDdns,
                PutSettingsView::UpdatingDdns,
            ),
            PutSettingsView::UpdatingDdns => Step::Reply(Ok(())),
        },
    }
}

/// Starts to change the settings. The pattern comes first; the URL is not
/// looked at before the pattern has been stored.
pub fn put_settings<E>(new_settings: NewSettings) -> (step: Step<
    SettingsCall,
    PutSettings,
    Result<(), APIError<E>>,
>)
    ensures
        step@ == first_step::<E>(
            text_view(new_settings.album_art_pattern),
            text_view(new_settings.ddns_update_url),
        ),
{
    match new_settings.album_art_pattern {
        Some(source) => put_pattern(
            AlbumArtPattern::new(source.as_str()),
            new_settings.ddns_update_url,
        ),
        None => put_url_text(new_settings.ddns_update_url),
    }
}

/// Goes on once the pattern has been read: stores it, or refuses it.
pub fn put_pattern<E>(
    pattern: Result<AlbumArtPattern, regex::Error>,
    ddns_update_url: Option<String>,
) -> (step: Step<SettingsCall, PutSettings, Result<(), APIError<E>>>)
    ensures
        step == match pattern {
            Ok(p) => Step::Call(
                SettingsCall::SetAlbumArtPattern(p),
                PutSettings::StoringPattern { ddns_update_url },
            ),
            Err(_) => Step::Reply(Err::<(), _>(APIError::<E>::InvalidAlbumArtPattern)),
        },
{
    match pattern {
        Ok(p) => Step::Call(
            SettingsCall::SetAlbumArtPattern(p),
            PutSettings::StoringPattern { ddns_update_url },
        ),
        Err(_) => Step::Reply(Err(APIError::InvalidAlbumArtPattern)),
    }
}

fn put_url_text<E>(text: Option<String>) -> (step: Step<
    SettingsCall,
    PutSettings,
    Result<(), APIError<E>>,
>)
    ensures
        step@ == url_step::<E>(url_wish(text_view(text))),
{
    match text {
        Some(t) => put_url(Some(DdnsUrl::read(t.as_str()))),
        None => put_url(None),
    }
}

/// Goes on once the URL, where there is one, has been read: stores it, or
/// refuses it. Without one the request is done.
pub fn put_url<E>(url: Option<Result<Option<DdnsUrl>, http::uri::InvalidUri>>) -> (step: Step<
    SettingsCall,
    PutSettings,
    Result<(), APIError<E>>,
>)
    ensures
        step == match url {
            Some(Ok(u)) => Step::Call(SettingsCall::SetDdnsUpdateUrl(u), PutSettings::StoringUrl),
            Some(Err(_)) => Step::Reply(Err(APIError::<E>::InvalidDDNSURL)),
            None => Step::Reply(Ok(())),
        },
{
    match url {
        Some(Ok(u)) => Step::Call(SettingsCall::SetDdnsUpdateUrl(u), PutSettings::StoringUrl),
        Some(Err(_)) => Step::Reply(Err(APIError::InvalidDDNSURL)),
        None => Step::Reply(Ok(())),
    }
}

impl PutSettings {
    /// Goes on with the outcome of the call that was made last.
    pub fn resume<E>(self, outcome: Result<(), E>) -> (step: Step<
        SettingsCall,
        PutSettings,
        Result<(), APIError<E>>,
    >)
        ensures
            step@ == next_step(self@, outcome),
    {
        match outcome {
            Err(e) => Step::Reply(Err(APIError::Manager(e))),
            Ok(_) => match self {
                PutSettings::StoringPattern { ddns_update_url } => put_url_text(ddns_update_url),
                PutSettings::StoringUrl => Step::Call(
                    SettingsCall::UpdateDdns,
                    PutSettings::UpdatingDdns,
                ),
                PutSettings::UpdatingDdns => Step::Reply(Ok(())),
            },
        }
    }
}

/// The calls that a request makes, and its answer, when the calls it makes
/// have `outcomes`.
pub open spec fn put_settings_run<E>(
    pattern: Option<Seq<char>>,
    url: Option<Seq<char>>,
    outcomes: Seq<Result<(), E>>,
) -> (Seq<SettingsCallView>, Option<Result<(), APIError<E>>>) {
    run(
        |state: PutSettingsView, outcome: Result<(), E>| next_step(state, outcome),
        first_step(pattern, url),
        outcomes,
    )
}

/// The calls that storing these settings takes.
pub open spec fn settings_calls(pattern: Option<Seq<char>>, url: Option<Option<Seq<char>>>) -> Seq<
    SettingsCallView,
> {
    (match pattern {
        Some(p) => seq![SettingsCallView::SetAlbumArtPattern(p)],
        None => Seq::empty(),
    }) + (match url {
        Some(u) => seq![SettingsCallView::SetDdnsUpdateUrl(u), SettingsCallView::UpdateDdns],
        None => Seq::empty(),
    })
}

/// What a request can be granted: its pattern, if any, is a regular
/// expression, and its URL, if any, is blank or a URI.
pub open spec fn acceptable(pattern: Option<Seq<char>>, url: Option<Seq<char>>) -> bool {
    &&& pattern matches Some(p) ==> is_pattern(p)
    &&& url matches Some(u) ==> wanted_url(u) is Some
}

/// The URL that an acceptable request stores, if it stores one.
pub open spec fn stored_url(url: Option<Seq<char>>) -> Option<Option<Seq<char>>> {
    match url {
        Some(u) => wanted_url(u),
        None => None,
    }
}

/// When every call succeeds, an acceptable request stores what it asked for,
/// the pattern before the URL, refreshes the dynamic DNS entry if and only if
/// it stored a URL, and is granted.
pub proof fn law_acceptable_settings_are_stored<E>(
    pattern: Option<Seq<char>>,
    url: Option<Seq<char>>,
    outcomes: Seq<Result<(), E>>,
)
    requires
        acceptable(pattern, url),
        outcomes.len() >= settings_calls(pattern, stored_url(url)).len(),
        forall|i: int| 0 <= i < outcomes.len() ==> #[trigger] outcomes[i] is Ok,
    ensures
        put_settings_run(pattern, url, outcomes) == (
            settings_calls(pattern, stored_url(url)),
            Some(Ok::<(), APIError<E>>(())),
        ),
{
    reveal_with_fuel(run, 5);
    assert(put_settings_run(pattern, url, outcomes).0 =~= settings_calls(pattern, stored_url(url)));
}

/// A request whose pattern is not a regular expression is refused before any
/// call is made, whatever its URL is.
pub proof fn law_invalid_pattern_changes_nothing<E>(
    pattern: Seq<char>,
    url: Option<Seq<char>>,
    outcomes: Seq<Result<(), E>>,
)
    requires
        !is_pattern(pattern),
    ensures
        put_settings_run(Some(pattern), url, outcomes) == (
            Seq::<SettingsCallView>::empty(),
            Some(Err::<(), APIError<E>>(APIError::InvalidAlbumArtPattern)),
        ),
{
    reveal_with_fuel(run, 2);
}

/// A request whose URL is neither blank nor a URI is refused, but only after
/// its pattern, if it has one, has been stored; the URL is left alone.
pub proof fn law_invalid_url_keeps_stored_pattern<E>(
    pattern: Option<Seq<char>>,
    url: Seq<char>,
    outcomes: Seq<Result<(), E>>,
)
    requires
        pattern matches Some(p) ==> is_pattern(p),
        pattern is Some ==> outcomes.len() > 0 && outcomes[0] is Ok,
        wanted_url(url) is None,
    ensures
        put_settings_run(pattern, Some(url), outcomes) == (
            settings_calls(pattern, None),
            Some(Err::<(), APIError<E>>(APIError::InvalidDDNSURL)),
        ),
{
    reveal_with_fuel(run, 3);
    assert(put_settings_run(pattern, Some(url), outcomes).0 =~= settings_calls(pattern, None));
}

/// The first call that fails ends the request: no call follows it, and its
/// error is the answer, even where the URL could not have been read.
pub proof fn law_failed_call_ends_put_settings<E>(
    pattern: Option<Seq<char>>,
    url: Option<Seq<char>>,
    outcomes: Seq<Result<(), E>>,
    failed: int,
)
    requires
        pattern matches Some(p) ==> is_pattern(p),
        0 <= failed < settings_calls(pattern, stored_url(url)).len(),
        failed < outcomes.len(),
        forall|i: int| 0 <= i < failed ==> #[trigger] outcomes[i] is Ok,
        outcomes[failed] is Err,
    ensures
        put_settings_run(pattern, url, outcomes) == (
            settings_calls(pattern, stored_url(url)).take(failed + 1),
            Some(Err::<(), APIError<E>>(APIError::Manager(outcomes[failed]->Err_0))),
        ),
{
    reveal_with_fuel(run, 5);
    assert(outcomes.len() > 0);
    assert(failed == 0 || failed == 1 || failed == 2);
    assert(failed > 0 ==> outcomes[0] is Ok);
    assert(failed > 1 ==> outcomes[1] is Ok);
    assert(put_settings_run(pattern, url, outcomes).0 =~= settings_calls(
        pattern,
        stored_url(url),
    ).take(failed + 1));
}

/// What is read is what was written: with a pattern in place that a request
/// stored, a client reads the pattern as it was sent; with a URL in place that a
/// request stored, a client reads the text that `http` writes for the URI sent,
/// or nothing where the URL sent was blank.
pub proof fn law_settings_read_back<E>(
    settings: Settings,
    pattern: AlbumArtPattern,
    url: Option<DdnsUrl>,
    sent_pattern: Option<Seq<char>>,
    sent_url: Option<Seq<char>>,
    outcomes: Seq<Result<(), E>>,
)
    requires
        shows(settings, pattern, url),
    ensures
        put_settings_run(sent_pattern, sent_url, outcomes).0.contains(
            SettingsCall::SetAlbumArtPattern(pattern)@,
        ) ==> sent_pattern == Some(settings.album_art_pattern@),
        put_settings_run(sent_pattern, sent_url, outcomes).0.contains(
            SettingsCall::SetDdnsUpdateUrl(url)@,
        ) ==> (sent_url matches Some(sent) && if is_blank(sent) {
            settings.ddns_update_url@ == Seq::<char>::empty()
        } else {
            uri_text(trimmed(sent)) == Some(settings.ddns_update_url@)
        }),
{
    if sent_url is Some {
        law_blank_trims_to_nothing(sent_url->0);
    }
    reveal_with_fuel(run, 5);
    let calls = put_settings_run(sent_pattern, sent_url, outcomes).0;
    assert(calls =~= settings_calls(sent_pattern, stored_url(sent_url)).take(calls.len() as int));
}

/// The pattern and the URL in place once `calls` have been made, where `before`
/// were in place.
pub open spec fn settings_after(
    before: (Seq<char>, Option<Seq<char>>),
    calls: Seq<SettingsCallView>,
) -> (Seq<char>, Option<Seq<char>>)
    decreases calls.len(),
{
    if calls.len() == 0 {
        before
    } else {
        let (pattern, url) = settings_after(before, calls.drop_last());
        match calls.last() {
            SettingsCallView::SetAlbumArtPattern(p) => (p, url),
            SettingsCallView::SetDdnsUpdateUrl(u) => (pattern, u),
            SettingsCallView::UpdateDdns => (pattern, url),
        }
    }
}

/// Putting back the settings that were read changes nothing: however its calls
/// turn out, they store no other pattern and no other URL than those in place,
/// and where all of them succeed the request is granted. A URL in place is one
/// that `http` reads as it stands; one whose text ends in white space is not,
/// as that is trimmed.
pub proof fn law_putting_settings_back_changes_nothing<E>(
    settings: Settings,
    pattern: AlbumArtPattern,
    url: Option<DdnsUrl>,
    outcomes: Seq<Result<(), E>>,
)
    requires
        pattern.wf(),
        url matches Some(u) ==> wanted_url(u@) == Some(Some(u@)),
        shows(settings, pattern, url),
    ensures
        ({
            let (calls, answer) = put_settings_run(
                Some(settings.album_art_pattern@),
                Some(settings.ddns_update_url@),
                outcomes,
            );
            &&& settings_after((pattern@, url_view(url)), calls) == (pattern@, url_view(url))
            &&& (outcomes.len() >= 3 && forall|i: int|
                0 <= i < outcomes.len() ==> #[trigger] outcomes[i] is Ok) ==> answer == Some(
                Ok::<(), APIError<E>>(()),
            )
        }),
{
    law_blank_trims_to_nothing(Seq::empty());
    assert(stored_url(Some(settings.ddns_update_url@)) == Some(url_view(url)));
    let calls = put_settings_run(
        Some(settings.album_art_pattern@),
        Some(settings.ddns_update_url@),
        outcomes,
    ).0;
    let all = settings_calls(Some(pattern@), Some(url_view(url)));
    reveal_with_fuel(run, 5);
    assert(calls =~= all.take(calls.len() as int));
    reveal_with_fuel(settings_after, 4);
}

/// White space around the URL of a request makes no difference to what the
/// request does or how it is answered.
pub proof fn law_white_space_around_url_is_ignored<E>(
    pattern: Option<Seq<char>>,
    before: Seq<char>,
    url: Seq<char>,
    after: Seq<char>,
    outcomes: Seq<Result<(), E>>,
)
    requires
        is_blank(before),
        is_blank(after),
    ensures
        put_settings_run(pattern, Some(before + url + after), outcomes) == put_settings_run(
            pattern,
            Some(url),
            outcomes,
        ),
{
    law_white_space_around_is_trimmed(before, url, after);
    assert(wanted_url(before + url + after) == wanted_url(url));
    reveal_with_fuel(run, 2);
}

} // verus!
