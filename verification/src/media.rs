//! Audio files, thumbnails and peaks.

use vstd::prelude::*;

use crate::convert::converts;
use crate::error::APIError;
use crate::step::Step;

verus! {

/// What a file is sent as.
#[derive(Debug, Clone, Copy, PartialEq, Eq, Structural)]
pub enum Media {
    Audio,
    Thumbnail,
}

/// The peaks of a song.
#[derive(Debug)]
pub struct Peaks<D> {
    pub interleaved: D,
}

/// The call that computes the peaks of a song.
#[derive(Debug)]
pub struct GetPeaks<Q> {
    pub audio_path: Q,
}

/// The call that makes the thumbnail of an image.
#[derive(Debug)]
pub struct GetThumbnail<Q, O> {
    pub image_path: Q,
    pub options: O,
}

/// The call that opens a file.
#[derive(Debug)]
pub struct OpenFile<Q> {
    pub path: Q,
}

/// The call that finds out how long a file is.
#[derive(Debug)]
pub struct MeasureFile<F> {
    pub file: F,
}

/// A request for peaks that are being computed.
#[derive(Debug)]
pub struct ComputingPeaks;

/// A request for a thumbnail whose image is being located.
#[derive(Debug)]
pub struct LocatingImage<O> {
    pub options: O,
}

/// A request for a thumbnail that is being made.
#[derive(Debug)]
pub struct MakingThumbnail;

/// A request for a file that is being opened.
#[derive(Debug)]
pub struct OpeningFile {
    pub media: Media,
}

/// A request for a file that is being measured.
#[derive(Debug)]
pub struct MeasuringFile {
    pub media: Media,
}

/// Why a request fails whose file cannot be read.
pub open spec fn io_error<E>(media: Media) -> APIError<E> {
    match media {
        Media::Audio => APIError::AudioFileIOError,
        Media::Thumbnail => APIError::ThumbnailFileIOError,
    }
}

fn read_error<E>(media: Media) -> (error: APIError<E>)
    ensures
        error == io_error::<E>(media),
{
    match media {
        Media::Audio => APIError::AudioFileIOError,
        Media::Thumbnail => APIError::ThumbnailFileIOError,
    }
}

/// The step that follows the location of a file to be opened.
pub open spec fn open_step<Q, E>(media: Media, located: Result<Q, E>) -> Step<
    OpenFile<Q>,
    OpeningFile,
    APIError<E>,
> {
    match located {
        Ok(path) => Step::Call(OpenFile { path }, OpeningFile { media }),
        Err(e) => Step::Reply(APIError::Manager(e)),
    }
}

/// The step that follows the opening of a file.
pub open spec fn measure_step<F, X, E>(media: Media, opened: Result<F, X>) -> Step<
    MeasureFile<F>,
    MeasuringFile,
    APIError<E>,
> {
    match opened {
        Ok(file) => Step::Call(MeasureFile { file }, MeasuringFile { media }),
        Err(_) => Step::Reply(io_error(media)),
    }
}

/// The answer once a file has been measured.
pub open spec fn file_answer<B, X, E>(media: Media, measured: Result<B, X>) -> Result<
    B,
    APIError<E>,
> {
    match measured {
        Ok(body) => Ok(body),
        Err(_) => Err(io_error(media)),
    }
}

/// Goes on with a request for the peaks of a song, once the song has been
/// located.
pub fn get_peaks<Q, E>(located: Result<Q, E>) -> (step: Step<
    GetPeaks<Q>,
    ComputingPeaks,
    APIError<E>,
>)
    ensures
        step == match located {
            Ok(audio_path) => Step::Call(GetPeaks { audio_path }, ComputingPeaks),
            Err(e) => Step::Reply(APIError::Manager(e)),
        },
{
    match located {
        Ok(audio_path) => Step::Call(GetPeaks { audio_path }, ComputingPeaks),
        Err(e) => Step::Reply(APIError::Manager(e)),
    }
}

impl ComputingPeaks {
    /// Answers the request, once the peaks have been computed.
    pub fn resume<D, E>(self, peaks: Result<Peaks<D>, E>) -> (answer: Result<D, APIError<E>>)
        ensures
            answer == match peaks {
                Ok(p) => Ok(p.interleaved),
                Err(e) => Err(APIError::Manager(e)),
            },
    {
        match peaks {
            Ok(peaks) => Ok(peaks.interleaved),
            Err(e) => Err(APIError::Manager(e)),
        }
    }
}

/// Goes on with a request for an audio file, once it has been located.
pub fn get_audio<Q, E>(located: Result<Q, E>) -> (step: Step<
    OpenFile<Q>,
    OpeningFile,
    APIError<E>,
>)
    ensures
        step == open_step(Media::Audio, located),
{
    match located {
        Ok(path) => Step::Call(OpenFile { path }, OpeningFile { media: Media::Audio }),
        Err(e) => Step::Reply(APIError::Manager(e)),
    }
}

/// Starts a request for a thumbnail: the image is located next.
pub fn get_thumbnail<I, O: From<I>>(options_input: I) -> (state: LocatingImage<O>)
    ensures
        converts(options_input, state.options),
{
    LocatingImage { options: O::from(options_input) }
}

impl<O> LocatingImage<O> {
    /// Goes on once the image has been located: its thumbnail is made.
    pub fn resume<Q, E>(self, located: Result<Q, E>) -> (step: Step<
        GetThumbnail<Q, O>,
        MakingThumbnail,
        APIError<E>,
    >)
        ensures
            step == match located {
                Ok(image_path) => Step::Call(
                    GetThumbnail { image_path, options: self.options },
                    MakingThumbnail,
                ),
                Err(e) => Step::Reply(APIError::Manager(e)),
            },
    {
        match located {
            Ok(image_path) => Step::Call(
                GetThumbnail { image_path, options: self.options },
                MakingThumbnail,
            ),
            Err(e) => Step::Reply(APIError::Manager(e)),
        }
    }
}

impl MakingThumbnail {
    /// Goes on once the thumbnail has been made: its file is opened.
    pub fn resume<Q, E>(self, made: Result<Q, E>) -> (step: Step<
        OpenFile<Q>,
        OpeningFile,
        APIError<E>,
    >)
        ensures
            step == open_step(Media::Thumbnail, made),
    {
        match made {
            Ok(path) => Step::Call(OpenFile { path }, OpeningFile { media: Media::Thumbnail }),
            Err(e) => Step::Reply(APIError::Manager(e)),
        }
    }
}

impl OpeningFile {
    /// Goes on once the file has been opened: it is measured.
    pub fn resume<F, X, E>(self, opened: Result<F, X>) -> (step: Step<
        MeasureFile<F>,
        MeasuringFile,
        APIError<E>,
    >)
        ensures
            step == measure_step::<F, X, E>(self.media, opened),
    {
        match opened {
            Ok(file) => Step::Call(MeasureFile { file }, MeasuringFile { media: self.media }),
            Err(_) => Step::Reply(read_error(self.media)),
        }
    }
}

impl MeasuringFile {
    /// Answers the request, once the file has been measured.
    pub fn resume<B, X, E>(self, measured: Result<B, X>) -> (answer: Result<B, APIError<E>>)
        ensures
            answer == file_answer::<B, X, E>(self.media, measured),
    {
        match measured {
            Ok(body) => Ok(body),
            Err(_) => Err(read_error(self.media)),
        }
    }
}

/// The answer to a request for a file, when its calls have these outcomes.
pub open spec fn file_run<Q, F, B, X, E>(
    media: Media,
    located: Result<Q, E>,
    opened: Result<F, X>,
    measured: Result<B, X>,
) -> Result<B, APIError<E>> {
    match open_step(media, located) {
        Step::Reply(e) => Err(e),
        Step::Call(_, opening) => match measure_step::<F, X, E>(opening.media, opened) {
            Step::Reply(e) => Err(e),
            Step::Call(_, measuring) => file_answer(measuring.media, measured),
        },
    }
}

/// A file is sent if and only if it is located, opened and measured; then it is
/// the body that was measured. A file that cannot be located is refused by the
/// manager's error, one that cannot be opened or measured by the error of its
/// kind.
pub proof fn law_file_answer<Q, F, B, X, E>(
    media: Media,
    located: Result<Q, E>,
    opened: Result<F, X>,
    measured: Result<B, X>,
)
    ensures
        file_run(media, located, opened, measured) == match located {
            Err(e) => Err(APIError::Manager(e)),
            Ok(_) => if opened is Ok && measured is Ok {
                Ok(measured->Ok_0)
            } else {
                Err(io_error(media))
            },
        },
{
}

} // verus!
