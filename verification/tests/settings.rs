use polaris::error::APIError;
use polaris::settings::{
    get_settings, put_pattern, put_settings, put_url, AlbumArtPattern, DdnsUrl, NewSettings,
    PutSettings, SettingsCall,
};
use polaris::step::Step;

type Reply = Result<(), APIError<&'static str>>;
type SettingsStep = Step<SettingsCall, PutSettings, Reply>;

/// Runs a request whose calls have `outcomes`, and notes the calls it makes.
fn run(
    pattern: Option<&str>,
    url: Option<&str>,
    outcomes: &[Result<(), &'static str>],
) -> (Vec<String>, Option<Reply>) {
    let mut calls = Vec::new();
    let mut step: SettingsStep = put_settings(NewSettings {
        album_art_pattern: pattern.map(|p| p.to_owned()),
        ddns_update_url: url.map(|u| u.to_owned()),
    });
    for outcome in outcomes {
        match step {
            Step::Reply(reply) => return (calls, Some(reply)),
            Step::Call(call, state) => {
                calls.push(describe(&call));
                step = state.resume(*outcome);
            }
        }
    }
    match step {
        Step::Reply(reply) => (calls, Some(reply)),
        Step::Call(call, _) => {
            calls.push(describe(&call));
            (calls, None)
        }
    }
}

fn describe(call: &SettingsCall) -> String {
    match call {
        SettingsCall::SetAlbumArtPattern(p) => format!("pattern {}", p.as_str()),
        SettingsCall::SetDdnsUpdateUrl(Some(u)) => format!("url {}", u.as_str()),
        SettingsCall::SetDdnsUpdateUrl(None) => "no url".to_owned(),
        SettingsCall::UpdateDdns => "ddns".to_owned(),
    }
}

#[test]
fn pattern_keeps_its_text() {
    let pattern = AlbumArtPattern::new("Folder.(jpeg|jpg|png)").unwrap();
    assert_eq!(pattern.as_str(), "Folder.(jpeg|jpg|png)");
}

#[test]
fn pattern_must_be_a_regular_expression() {
    assert!(AlbumArtPattern::new("foo(bar").is_err());
    assert!(AlbumArtPattern::new("").is_ok());
}

#[test]
fn url_is_written_as_http_writes_it() {
    let url = DdnsUrl::read("  http://example.com \n").unwrap().unwrap();
    assert_eq!(url.as_str(), "http://example.com/");
    let url = DdnsUrl::read("https://example.com/update?token=1#top").unwrap().unwrap();
    assert_eq!(url.as_str(), "https://example.com/update?token=1");
}

#[test]
fn blank_url_is_no_url() {
    assert!(DdnsUrl::read("").unwrap().is_none());
    assert!(DdnsUrl::read(" \t\u{3000}\u{85}\n").unwrap().is_none());
}

#[test]
fn url_must_be_a_uri() {
    assert!(DdnsUrl::read("http://").is_err());
    assert!(DdnsUrl::read("two words").is_err());
}

#[test]
fn settings_are_shown() {
    let pattern = AlbumArtPattern::new("cover").unwrap();
    let settings = get_settings(&pattern, &None);
    assert_eq!(settings.album_art_pattern, "cover");
    assert_eq!(settings.ddns_update_url, "");
    let url = DdnsUrl::read("http://example.com").unwrap();
    let settings = get_settings(&pattern, &url);
    assert_eq!(settings.ddns_update_url, "http://example.com/");
}

#[test]
fn settings_that_are_sent_are_stored_in_order() {
    let (calls, reply) = run(Some("cover"), Some(" http://a.b/c "), &[Ok(()), Ok(()), Ok(())]);
    assert_eq!(calls, vec!["pattern cover", "url http://a.b/c", "ddns"]);
    assert!(matches!(reply, Some(Ok(()))));
}

#[test]
fn settings_left_out_are_left_alone() {
    let (calls, reply) = run(None, None, &[]);
    assert!(calls.is_empty());
    assert!(matches!(reply, Some(Ok(()))));
    let (calls, reply) = run(Some("cover"), None, &[Ok(())]);
    assert_eq!(calls, vec!["pattern cover"]);
    assert!(matches!(reply, Some(Ok(()))));
    let (calls, reply) = run(None, Some("  "), &[Ok(()), Ok(())]);
    assert_eq!(calls, vec!["no url", "ddns"]);
    assert!(matches!(reply, Some(Ok(()))));
}

#[test]
fn invalid_pattern_is_refused_at_once() {
    let (calls, reply) = run(Some("("), Some("http://a.b/c"), &[Ok(()), Ok(()), Ok(())]);
    assert!(calls.is_empty());
    assert!(matches!(reply, Some(Err(APIError::InvalidAlbumArtPattern))));
}

#[test]
fn invalid_url_is_refused_after_the_pattern_is_stored() {
    let (calls, reply) = run(Some("cover"), Some("two words"), &[Ok(()), Ok(()), Ok(())]);
    assert_eq!(calls, vec!["pattern cover"]);
    assert!(matches!(reply, Some(Err(APIError::InvalidDDNSURL))));
}

#[test]
fn failed_settings_call_ends_the_request() {
    let (calls, reply) = run(Some("cover"), Some("/c"), &[Ok(()), Err("disk"), Ok(())]);
    assert_eq!(calls, vec!["pattern cover", "url /c"]);
    assert!(matches!(reply, Some(Err(APIError::Manager("disk")))));
    let (calls, reply) = run(Some("cover"), Some("two words"), &[Err("disk"), Ok(()), Ok(())]);
    assert_eq!(calls, vec!["pattern cover"]);
    assert!(matches!(reply, Some(Err(APIError::Manager("disk")))));
}

#[test]
fn reading_results_decide() {
    let bad = AlbumArtPattern::new("(");
    assert!(matches!(
        put_pattern::<()>(bad, None),
        Step::Reply(Err(APIError::InvalidAlbumArtPattern))
    ));
    assert!(matches!(
        put_url::<()>(Some(DdnsUrl::read("two words"))),
        Step::Reply(Err(APIError::InvalidDDNSURL))
    ));
    assert!(matches!(
        put_url::<()>(Some(Ok(None))),
        Step::Call(SettingsCall::SetDdnsUpdateUrl(None), PutSettings::StoringUrl)
    ));
    assert!(matches!(put_url::<()>(None), Step::Reply(Ok(()))));
}

#[test]
fn settings_that_were_read_can_be_put_back() {
    let pattern = AlbumArtPattern::new("cover").unwrap();
    for (text, stored) in [("http://example.com#top", "url http://example.com/"), ("  ", "no url")] {
        let settings = get_settings(&pattern, &DdnsUrl::read(text).unwrap());
        let (calls, reply) = run(
            Some(&settings.album_art_pattern),
            Some(&settings.ddns_update_url),
            &[Ok(()), Ok(()), Ok(())],
        );
        assert_eq!(calls, vec!["pattern cover", stored, "ddns"]);
        assert!(matches!(reply, Some(Ok(()))));
    }
}

#[test]
fn url_that_ends_in_white_space_is_not_put_back_as_it_is() {
    let url = DdnsUrl::read("http://a.b/c\u{3000}#top").unwrap().unwrap();
    assert_eq!(url.as_str(), "http://a.b/c\u{3000}");
    let again = DdnsUrl::read(url.as_str()).unwrap().unwrap();
    assert_eq!(again.as_str(), "http://a.b/c");
}
