//! Reading and changing the settings.

use vstd::prelude::*;

use crate::error::APIError;
use crate::outside::{regex_accepts, uri_text};
use crate::settings::{
    get_settings, put_pattern, put_settings, put_url, AlbumArtPattern, DdnsUrl, NewSettings,
    PutSettings, Settings, SettingsCall,
};
use crate::step::Step;
use crate::text::{is_white_space, law_blank_trims_to_nothing, trimmed};

verus! {

/// A text is taken as an album art pattern if and only if `regex` accepts it,
/// and the pattern has that text.
pub proof fn law_patterns_are_regular_expressions(
    source: &str,
    read: Result<AlbumArtPattern, regex::Error>,
    text: &str,
)
    requires
        call_ensures(AlbumArtPattern::new, (source,), read),
        read matches Ok(pattern) ==> call_ensures(AlbumArtPattern::as_str, (&pattern,), text),
    ensures
        read is Ok <==> regex_accepts(source@, usize::BITS as nat),
        read is Ok ==> text@ == source@,
{
}

/// A text is refused as a URL only if it is more than white space and `http`
/// reads no URI in what is between its white space. Nothing but white space
/// means no URL, and else the URL has the text of the URI.
pub proof fn law_urls_are_uris(
    source: &str,
    read: Result<Option<DdnsUrl>, http::uri::InvalidUri>,
    text: &str,
)
    requires
        call_ensures(DdnsUrl::read, (source,), read),
        read matches Ok(Some(url)) ==> call_ensures(DdnsUrl::as_str, (&url,), text),
    ensures
        if forall|i: int| 0 <= i < source@.len() ==> is_white_space(#[trigger] source@[i]) {
            read matches Ok(None)
        } else {
            match uri_text(trimmed(source@)) {
                Some(uri) => (read matches Ok(Some(_))) && text@ == uri,
                None => read is Err,
            }
        },
{
    law_blank_trims_to_nothing(source@);
}

/// A pattern that `regex` accepts is stored as it was sent, before anything
/// else is done; any other is refused, and nothing is done.
pub proof fn law_pattern_comes_first<E>(
    sent: NewSettings,
    step: Step<SettingsCall, PutSettings, Result<(), APIError<E>>>,
)
    requires
        call_ensures(put_settings::<E>, (sent,), step),
    ensures
        sent.album_art_pattern matches Some(text) ==> if regex_accepts(
            text@,
            usize::BITS as nat,
        ) {
            step matches Step::Call(SettingsCall::SetAlbumArtPattern(pattern), _) && pattern@
                == text@
        } else {
            step == Step::<SettingsCall, PutSettings, _>::Reply(
                Err::<(), APIError<E>>(APIError::InvalidAlbumArtPattern),
            )
        },
{
}

/// A request is refused for its URL only if the URL is more than white space
/// and `http` reads no URI in it. Else the URL that `http` reads is stored, or
/// cleared where there is none to read. All this comes at once where no pattern
/// was sent, and when the pattern has been stored where one was.
pub proof fn law_url_is_stored<E>(
    sent: NewSettings,
    start: Step<SettingsCall, PutSettings, Result<(), APIError<E>>>,
    step: Step<SettingsCall, PutSettings, Result<(), APIError<E>>>,
)
    requires
        call_ensures(put_settings::<E>, (sent,), start),
        match sent.album_art_pattern {
            Some(_) => start matches Step::Call(_, state) && call_ensures(
                PutSettings::resume::<E>,
                (state, Ok::<(), E>(())),
                step,
            ),
            None => step == start,
        },
    ensures
        match sent.ddns_update_url {
            None => step == Step::<SettingsCall, PutSettings, _>::Reply(
                Ok::<(), APIError<E>>(()),
            ),
            Some(text) => if forall|i: int|
                0 <= i < text@.len() ==> is_white_space(#[trigger] text@[i]) {
                step matches Step::Call(SettingsCall::SetDdnsUpdateUrl(None), _)
            } else {
                match uri_text(trimmed(text@)) {
                    Some(uri) => step matches Step::Call(
                        SettingsCall::SetDdnsUpdateUrl(Some(url)),
                        _,
                    ) && url@ == uri,
                    None => step == Step::<SettingsCall, PutSettings, _>::Reply(
                        Err::<(), APIError<E>>(APIError::InvalidDDNSURL),
                    ),
                }
            },
        },
{
    if sent.ddns_update_url is Some {
        law_blank_trims_to_nothing(sent.ddns_update_url->0@);
    }
}

/// A pattern that could be read hands its request on to the URL that was sent
/// with it: once the pattern has been stored, the request goes on as one for
/// that URL alone does.
pub proof fn law_pattern_hands_on_to_the_url<E>(
    pattern: AlbumArtPattern,
    url: Option<String>,
    start: Step<SettingsCall, PutSettings, Result<(), APIError<E>>>,
    step: Step<SettingsCall, PutSettings, Result<(), APIError<E>>>,
    alone: Step<SettingsCall, PutSettings, Result<(), APIError<E>>>,
)
    requires
        call_ensures(
            put_pattern::<E>,
            (Ok::<AlbumArtPattern, regex::Error>(pattern), url),
            start,
        ),
        start matches Step::Call(_, state) ==> call_ensures(
            PutSettings::resume::<E>,
            (state, Ok::<(), E>(())),
            step,
        ),
        call_ensures(
            put_settings::<E>,
            (NewSettings { album_art_pattern: None, ddns_update_url: url },),
            alone,
        ),
    ensures
        match (step, alone) {
            (
                Step::Call(SettingsCall::SetDdnsUpdateUrl(Some(a)), _),
                Step::Call(SettingsCall::SetDdnsUpdateUrl(Some(b)), _),
            ) => a@ == b@,
            (
                Step::Call(SettingsCall::SetDdnsUpdateUrl(None), _),
                Step::Call(SettingsCall::SetDdnsUpdateUrl(None), _),
            ) => true,
            (Step::Reply(a), Step::Reply(b)) => a == b,
            _ => false,
        },
{
    law_url_is_stored(
        NewSettings { album_art_pattern: None, ddns_update_url: url },
        alone,
        alone,
    );
}

/// Once a URL has been stored or cleared, the dynamic DNS entry is refreshed,
/// and then the request is granted.
pub proof fn law_stored_url_is_refreshed<E>(
    sent: NewSettings,
    start: Step<SettingsCall, PutSettings, Result<(), APIError<E>>>,
    step: Step<SettingsCall, PutSettings, Result<(), APIError<E>>>,
    next: Step<SettingsCall, PutSettings, Result<(), APIError<E>>>,
    last: Step<SettingsCall, PutSettings, Result<(), APIError<E>>>,
)
    requires
        call_ensures(put_settings::<E>, (sent,), start),
        match sent.album_art_pattern {
            Some(_) => start matches Step::Call(_, state) && call_ensures(
                PutSettings::resume::<E>,
                (state, Ok::<(), E>(())),
                step,
            ),
            None => step == start,
        },
        step matches Step::Call(_, state) && call_ensures(
            PutSettings::resume::<E>,
            (state, Ok::<(), E>(())),
            next,
        ),
        next matches Step::Call(_, state) ==> call_ensures(
            PutSettings::resume::<E>,
            (state, Ok::<(), E>(())),
            last,
        ),
    ensures
        next matches Step::Call(SettingsCall::UpdateDdns, _),
        last == Step::<SettingsCall, PutSettings, _>::Reply(Ok::<(), APIError<E>>(())),
{
}

/// Whichever call of a request fails, its error is the answer.
pub proof fn law_failed_settings_call_is_reported<E>(
    state: PutSettings,
    error: E,
    step: Step<SettingsCall, PutSettings, Result<(), APIError<E>>>,
)
    requires
        call_ensures(PutSettings::resume::<E>, (state, Err::<(), E>(error)), step),
    ensures
        step == Step::<SettingsCall, PutSettings, _>::Reply(
            Err::<(), APIError<E>>(APIError::Manager(error)),
        ),
{
}

/// What was made of the texts decides a request: what could be read is stored,
/// what could not is refused.
pub proof fn law_reading_decides<E>(
    pattern: Result<AlbumArtPattern, regex::Error>,
    text: Option<String>,
    url: Option<Result<Option<DdnsUrl>, http::uri::InvalidUri>>,
    pattern_step: Step<SettingsCall, PutSettings, Result<(), APIError<E>>>,
    url_step: Step<SettingsCall, PutSettings, Result<(), APIError<E>>>,
)
    requires
        call_ensures(put_pattern::<E>, (pattern, text), pattern_step),
        call_ensures(put_url::<E>, (url,), url_step),
    ensures
        match pattern {
            Ok(p) => pattern_step matches Step::Call(SettingsCall::SetAlbumArtPattern(q), _) && q
                == p,
            Err(_) => pattern_step == Step::<SettingsCall, PutSettings, _>::Reply(
                Err::<(), APIError<E>>(APIError::InvalidAlbumArtPattern),
            ),
        },
        match url {
            Some(Ok(u)) => url_step matches Step::Call(SettingsCall::SetDdnsUpdateUrl(v), _) && v
                == u,
            Some(Err(_)) => url_step == Step::<SettingsCall, PutSettings, _>::Reply(
                Err::<(), APIError<E>>(APIError::InvalidDDNSURL),
            ),
            None => url_step == Step::<SettingsCall, PutSettings, _>::Reply(
                Ok::<(), APIError<E>>(()),
            ),
        },
{
}

/// What a client reads is what is stored: the pattern and the URL as they are
/// written out, and nothing for a URL where none is stored.
pub proof fn law_stored_settings_are_read(
    pattern: AlbumArtPattern,
    url: Option<DdnsUrl>,
    settings: Settings,
    pattern_text: &str,
    url_text: &str,
)
    requires
        call_ensures(get_settings, (&pattern, &url), settings),
        call_ensures(AlbumArtPattern::as_str, (&pattern,), pattern_text),
        url matches Some(u) ==> call_ensures(DdnsUrl::as_str, (&u,), url_text),
    ensures
        pattern_text@ == pattern@,
        settings.album_art_pattern@ == pattern_text@,
        match url {
            Some(u) => url_text@ == u@ && settings.ddns_update_url@ == url_text@,
            None => settings.ddns_update_url@.len() == 0,
        },
{
}

} // verus!
