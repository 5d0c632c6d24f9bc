use polaris::error::APIError;
use polaris::media::{get_audio, get_peaks, get_thumbnail, Media, OpeningFile, Peaks};
use polaris::step::Step;

fn send(
    located: Result<&'static str, u8>,
    opened: Result<u32, ()>,
    measured: Result<u64, ()>,
) -> Result<u64, APIError<u8>> {
    match get_audio(located) {
        Step::Reply(e) => Err(e),
        Step::Call(open, state) => {
            assert_eq!(open.path, "song.mp3");
            assert_eq!(state.media, Media::Audio);
            finish(state, opened, measured)
        }
    }
}

fn finish(
    state: OpeningFile,
    opened: Result<u32, ()>,
    measured: Result<u64, ()>,
) -> Result<u64, APIError<u8>> {
    match state.resume(opened) {
        Step::Reply(e) => Err(e),
        Step::Call(measure, state) => {
            assert_eq!(measure.file, 3);
            state.resume(measured)
        }
    }
}

#[test]
fn audio_is_sent_when_all_goes_well() {
    assert!(matches!(send(Ok("song.mp3"), Ok(3), Ok(4)), Ok(4)));
}

#[test]
fn audio_failures_are_told_apart() {
    assert!(matches!(send(Err(9), Ok(3), Ok(4)), Err(APIError::Manager(9))));
    assert!(matches!(send(Ok("song.mp3"), Err(()), Ok(4)), Err(APIError::AudioFileIOError)));
    assert!(matches!(send(Ok("song.mp3"), Ok(3), Err(())), Err(APIError::AudioFileIOError)));
}

#[test]
fn thumbnail_is_made_before_it_is_opened() {
    let state = get_thumbnail::<u8, u16>(5);
    match state.resume::<_, u8>(Ok("cover.jpg")) {
        Step::Call(call, making) => {
            assert_eq!((call.image_path, call.options), ("cover.jpg", 5u16));
            match making.resume::<_, u8>(Ok("small.jpg")) {
                Step::Call(open, opening) => {
                    assert_eq!(open.path, "small.jpg");
                    assert!(matches!(
                        finish(opening, Err(()), Ok(1)),
                        Err(APIError::ThumbnailFileIOError)
                    ));
                }
                Step::Reply(_) => panic!("not opened"),
            }
        }
        Step::Reply(_) => panic!("not made"),
    }
}

#[test]
fn thumbnail_refusals_are_passed_on() {
    assert!(matches!(
        get_thumbnail::<u8, u16>(5).resume::<(), u8>(Err(1)),
        Step::Reply(APIError::Manager(1))
    ));
}

#[test]
fn peaks_are_sent_interleaved() {
    match get_peaks::<_, u8>(Ok("song.mp3")) {
        Step::Call(call, state) => {
            assert_eq!(call.audio_path, "song.mp3");
            let answer = state.resume::<_, u8>(Ok(Peaks { interleaved: vec![1u8, 2] }));
            assert!(matches!(answer, Ok(p) if p == vec![1, 2]));
        }
        Step::Reply(_) => panic!("not computed"),
    }
    assert!(matches!(get_peaks::<(), u8>(Err(6)), Step::Reply(APIError::Manager(6))));
}
