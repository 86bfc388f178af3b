//! The ways in which a voice command fails.

use vstd::prelude::*;

verus! {

/// Why a voice command did not do what was asked. Every one of these is
/// reported to the user; none ends the process.
#[derive(Debug, PartialEq, Eq)]
pub enum VoiceError {
    /// The invoking user is in no voice channel that could be joined.
    NotInVoiceChannel,
    /// The voice transport could not join; the text is its reason.
    ConnectionFailed(String),
    /// The audio source could not be resolved.
    SourceResolutionError,
    /// The guild holds no voice connection where one is needed.
    NotConnected,
    /// The guild's queue can take no further track.
    QueueExhausted,
}

/// The mathematical value of a [`VoiceError`].
pub ghost enum VoiceErrorView {
    NotInVoiceChannel,
    ConnectionFailed(Seq<char>),
    SourceResolutionError,
    NotConnected,
    QueueExhausted,
}

impl View for VoiceError {
    type V = VoiceErrorView;

    open spec fn view(&self) -> VoiceErrorView {
        match self {
            VoiceError::NotInVoiceChannel => VoiceErrorView::NotInVoiceChannel,
            VoiceError::ConnectionFailed(reason) => VoiceErrorView::ConnectionFailed(reason@),
            VoiceError::SourceResolutionError => VoiceErrorView::SourceResolutionError,
            VoiceError::NotConnected => VoiceErrorView::NotConnected,
            VoiceError::QueueExhausted => VoiceErrorView::QueueExhausted,
        }
    }
}

impl Clone for VoiceError {
    fn clone(&self) -> (copy: Self)
        ensures
            copy@ == self@,
    {
        match self {
            VoiceError::NotInVoiceChannel => VoiceError::NotInVoiceChannel,
            VoiceError::ConnectionFailed(reason) => VoiceError::ConnectionFailed(reason.clone()),
            VoiceError::SourceResolutionError => VoiceError::SourceResolutionError,
            VoiceError::NotConnected => VoiceError::NotConnected,
            VoiceError::QueueExhausted => VoiceError::QueueExhausted,
        }
    }
}

/// A result with its error taken by its view.
pub open spec fn result_view<T>(result: Result<T, VoiceError>) -> Result<T, VoiceErrorView> {
    match result {
        Ok(value) => Ok(value),
        Err(error) => Err(error@),
    }
}

} // verus!
