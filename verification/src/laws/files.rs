//! Audio files, thumbnails and peaks.

use vstd::prelude::*;

use crate::error::APIError;
use crate::media::{
    get_audio, get_peaks, get_thumbnail, ComputingPeaks, GetPeaks, GetThumbnail, LocatingImage,
    MakingThumbnail, MeasureFile, MeasuringFile, OpenFile, OpeningFile, Peaks,
};
use crate::step::Step;

verus! {

/// The peaks of the song that was located are computed, and sent as they come
/// out; or else why there are none.
pub proof fn law_peaks_of_the_song_are_sent<Q, D, E>(
    located: Result<Q, E>,
    step: Step<GetPeaks<Q>, ComputingPeaks, APIError<E>>,
    peaks: Result<Peaks<D>, E>,
    answer: Result<D, APIError<E>>,
)
    requires
        call_ensures(get_peaks::<Q, E>, (located,), step),
        step matches Step::Call(_, state) ==> call_ensures(
            ComputingPeaks::resume::<D, E>,
            (state, peaks),
            answer,
        ),
    ensures
        match located {
            Err(e) => step == Step::<GetPeaks<Q>, ComputingPeaks, _>::Reply(
                APIError::<E>::Manager(e),
            ),
            Ok(path) => {
                &&& step matches Step::Call(call, _) && call.audio_path == path
                &&& match peaks {
                    Ok(p) => answer == Ok::<D, APIError<E>>(p.interleaved),
                    Err(e) => answer == Err::<D, APIError<E>>(APIError::Manager(e)),
                }
            },
        },
{
}

/// The audio file that was located is opened, measured and sent. One that was
/// not is refused by the error of the manager, one that cannot be opened or
/// measured as an audio file.
pub proof fn law_audio_file_is_sent<Q, F, B, X, E>(
    located: Result<Q, E>,
    step: Step<OpenFile<Q>, OpeningFile, APIError<E>>,
    opened: Result<F, X>,
    next: Step<MeasureFile<F>, MeasuringFile, APIError<E>>,
    measured: Result<B, X>,
    answer: Result<B, APIError<E>>,
)
    requires
        call_ensures(get_audio::<Q, E>, (located,), step),
        step matches Step::Call(_, state) ==> call_ensures(
            OpeningFile::resume::<F, X, E>,
            (state, opened),
            next,
        ),
        next matches Step::Call(_, state) ==> call_ensures(
            MeasuringFile::resume::<B, X, E>,
            (state, measured),
            answer,
        ),
    ensures
        match located {
            Err(e) => step == Step::<OpenFile<Q>, OpeningFile, _>::Reply(APIError::<E>::Manager(e)),
            Ok(path) => {
                &&& step matches Step::Call(call, _) && call.path == path
                &&& match opened {
                    Err(_) => next == Step::<MeasureFile<F>, MeasuringFile, _>::Reply(
                        APIError::<E>::AudioFileIOError,
                    ),
                    Ok(file) => {
                        &&& next matches Step::Call(call, _) && call.file == file
                        &&& match measured {
                            Ok(body) => answer == Ok::<B, APIError<E>>(body),
                            Err(_) => answer == Err::<B, APIError<E>>(APIError::AudioFileIOError),
                        }
                    },
                }
            },
        },
{
}

/// The thumbnail of the image that was located is made, with the options that
/// the client sent; what cannot be located is refused by the error of the
/// manager.
pub proof fn law_thumbnail_is_made_of_the_image<I, O: From<I>, Q, E>(
    options: I,
    state: LocatingImage<O>,
    located: Result<Q, E>,
    step: Step<GetThumbnail<Q, O>, MakingThumbnail, APIError<E>>,
)
    requires
        call_ensures(get_thumbnail::<I, O>, (options,), state),
        call_ensures(LocatingImage::<O>::resume::<Q, E>, (state, located), step),
    ensures
        match located {
            Ok(path) => step matches Step::Call(call, _) && call.image_path == path
                && call_ensures(<O as From<I>>::from, (options,), call.options),
            Err(e) => step == Step::<GetThumbnail<Q, O>, MakingThumbnail, _>::Reply(
                APIError::<E>::Manager(e),
            ),
        },
{
}

/// The thumbnail that was made is opened, measured and sent. One that was not
/// is refused by the error of the manager, one that cannot be opened or
/// measured as a thumbnail.
pub proof fn law_thumbnail_file_is_sent<Q, F, B, X, E>(
    state: MakingThumbnail,
    made: Result<Q, E>,
    step: Step<OpenFile<Q>, OpeningFile, APIError<E>>,
    opened: Result<F, X>,
    next: Step<MeasureFile<F>, MeasuringFile, APIError<E>>,
    measured: Result<B, X>,
    answer: Result<B, APIError<E>>,
)
    requires
        call_ensures(MakingThumbnail::resume::<Q, E>, (state, made), step),
        step matches Step::Call(_, state) ==> call_ensures(
            OpeningFile::resume::<F, X, E>,
            (state, opened),
            next,
        ),
        next matches Step::Call(_, state) ==> call_ensures(
            MeasuringFile::resume::<B, X, E>,
            (state, measured),
            answer,
        ),
    ensures
        match made {
            Err(e) => step == Step::<OpenFile<Q>, OpeningFile, _>::Reply(APIError::<E>::Manager(e)),
            Ok(path) => {
                &&& step matches Step::Call(call, _) && call.path == path
                &&& match opened {
                    Err(_) => next == Step::<MeasureFile<F>, MeasuringFile, _>::Reply(
                        APIError::<E>::ThumbnailFileIOError,
                    ),
                    Ok(file) => {
                        &&& next matches Step::Call(call, _) && call.file == file
                        &&& match measured {
                            Ok(body) => answer == Ok::<B, APIError<E>>(body),
                            Err(_) => answer == Err::<B, APIError<E>>(
                                APIError::ThumbnailFileIOError,
                            ),
                        }
                    },
                }
            },
        },
{
}

} // verus!
