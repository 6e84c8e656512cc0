//! Capability interfaces: one per optional plugin behaviour.
//!
//! A plugin type implements any subset of them. Every method receives the
//! capsule's optional instance by mutable reference, so it can be called on an
//! empty capsule, and reports a fault as `Err`.
//!
//! Beside each method stands a spec function of the same name with `_spec`
//! appended. There an implementor states what one call may do: which
//! instance, inputs, resulting instance and outcome belong together. Left as
//! it is, it states nothing. The trampolines speak of capability code through
//! these functions alone.

use crate::context::{
    AudioDataContext, DataObj, EnumActiveContext, EnumAllContext, GlobalContext, Handle,
    Properties, Seconds, SourceContext, VideoRenderContext,
};
use crate::fault::Fault;
use crate::media::MediaState;
use vstd::prelude::*;

verus! {

/// Has a display name. The name belongs to the type, not to an instance.
pub trait GetNameSource<D> {
    open spec fn get_name_spec(outcome: Result<&'static str, Fault>) -> bool {
        true
    }

    fn get_name() -> (outcome: Result<&'static str, Fault>)
        ensures
            Self::get_name_spec(outcome),
    ;
}

/// Can be created from settings.
pub trait CreatableSource<D> {
    open spec fn create_spec(settings: Handle, source: Handle, outcome: Result<D, Fault>) -> bool {
        true
    }

    fn create(
        settings: &mut DataObj,
        source: SourceContext,
        global: &mut GlobalContext,
    ) -> (outcome: Result<D, Fault>)
        ensures
            Self::create_spec(old(settings)@, source@, outcome),
    ;
}

/// Can fill a settings object with its defaults. Needs no instance.
pub trait GetDefaultsSource<D> {
    open spec fn get_defaults_spec(settings: Handle, outcome: Result<(), Fault>) -> bool {
        true
    }

    fn get_defaults(settings: &mut DataObj) -> (outcome: Result<(), Fault>)
        ensures
            Self::get_defaults_spec(old(settings)@, outcome),
    ;
}

/// Can report its width.
pub trait GetWidthSource<D> {
    open spec fn get_width_spec(
        before: Option<D>,
        after: Option<D>,
        outcome: Result<u32, Fault>,
    ) -> bool {
        true
    }

    fn get_width(data: &mut Option<D>) -> (outcome: Result<u32, Fault>)
        ensures
            Self::get_width_spec(*old(data), *final(data), outcome),
    ;
}

/// Can report its height.
pub trait GetHeightSource<D> {
    open spec fn get_height_spec(
        before: Option<D>,
        after: Option<D>,
        outcome: Result<u32, Fault>,
    ) -> bool {
        true
    }

    fn get_height(data: &mut Option<D>) -> (outcome: Result<u32, Fault>)
        ensures
            Self::get_height_spec(*old(data), *final(data), outcome),
    ;
}

/// Is told when it becomes active.
pub trait ActivateSource<D> {
    open spec fn activate_spec(
        before: Option<D>,
        after: Option<D>,
        outcome: Result<(), Fault>,
    ) -> bool {
        true
    }

    fn activate(data: &mut Option<D>) -> (outcome: Result<(), Fault>)
        ensures
            Self::activate_spec(*old(data), *final(data), outcome),
    ;
}

/// Is told when it stops being active.
pub trait DeactivateSource<D> {
    open spec fn deactivate_spec(
        before: Option<D>,
        after: Option<D>,
        outcome: Result<(), Fault>,
    ) -> bool {
        true
    }

    fn deactivate(data: &mut Option<D>) -> (outcome: Result<(), Fault>)
        ensures
            Self::deactivate_spec(*old(data), *final(data), outcome),
    ;
}

/// Takes changed settings.
pub trait UpdateSource<D> {
    open spec fn update_spec(
        before: Option<D>,
        settings: Handle,
        after: Option<D>,
        outcome: Result<(), Fault>,
    ) -> bool {
        true
    }

    fn update(
        data: &mut Option<D>,
        settings: &mut DataObj,
        global: &mut GlobalContext,
    ) -> (outcome: Result<(), Fault>)
        ensures
            Self::update_spec(*old(data), old(settings)@, *final(data), outcome),
    ;
}

/// Can render video.
pub trait VideoRenderSource<D> {
    open spec fn video_render_spec(
        before: Option<D>,
        after: Option<D>,
        outcome: Result<(), Fault>,
    ) -> bool {
        true
    }

    fn video_render(
        data: &mut Option<D>,
        global: &mut GlobalContext,
        render: &mut VideoRenderContext,
    ) -> (outcome: Result<(), Fault>)
        ensures
            Self::video_render_spec(*old(data), *final(data), outcome),
    ;
}

/// Can render audio.
pub trait AudioRenderSource<D> {
    open spec fn audio_render_spec(
        before: Option<D>,
        after: Option<D>,
        outcome: Result<(), Fault>,
    ) -> bool {
        true
    }

    fn audio_render(
        data: &mut Option<D>,
        global: &mut GlobalContext,
    ) -> (outcome: Result<(), Fault>)
        ensures
            Self::audio_render_spec(*old(data), *final(data), outcome),
    ;
}

/// Declares its properties on the builder it is given.
pub trait GetPropertiesSource<D> {
    open spec fn get_properties_spec(
        before: Option<D>,
        properties: Handle,
        after: Option<D>,
        properties_after: Handle,
        outcome: Result<(), Fault>,
    ) -> bool {
        true
    }

    fn get_properties(
        data: &mut Option<D>,
        properties: &mut Properties,
    ) -> (outcome: Result<(), Fault>)
        ensures
            Self::get_properties_spec(
                *old(data),
                old(properties)@,
                *final(data),
                final(properties)@,
                outcome,
            ),
    ;
}

/// Can enumerate its active child sources.
pub trait EnumActiveSource<D> {
    open spec fn enum_active_sources_spec(
        before: Option<D>,
        after: Option<D>,
        outcome: Result<(), Fault>,
    ) -> bool {
        true
    }

    fn enum_active_sources(
        data: &mut Option<D>,
        context: &EnumActiveContext,
    ) -> (outcome: Result<(), Fault>)
        ensures
            Self::enum_active_sources_spec(*old(data), *final(data), outcome),
    ;
}

/// Can enumerate all its child sources.
pub trait EnumAllSource<D> {
    open spec fn enum_all_sources_spec(
        before: Option<D>,
        after: Option<D>,
        outcome: Result<(), Fault>,
    ) -> bool {
        true
    }

    fn enum_all_sources(
        data: &mut Option<D>,
        context: &EnumAllContext,
    ) -> (outcome: Result<(), Fault>)
        ensures
            Self::enum_all_sources_spec(*old(data), *final(data), outcome),
    ;
}

/// Is told when a transition starts.
pub trait TransitionStartSource<D> {
    open spec fn transition_start_spec(
        before: Option<D>,
        after: Option<D>,
        outcome: Result<(), Fault>,
    ) -> bool {
        true
    }

    fn transition_start(data: &mut Option<D>) -> (outcome: Result<(), Fault>)
        ensures
            Self::transition_start_spec(*old(data), *final(data), outcome),
    ;
}

/// Is told when a transition stops.
pub trait TransitionStopSource<D> {
    open spec fn transition_stop_spec(
        before: Option<D>,
        after: Option<D>,
        outcome: Result<(), Fault>,
    ) -> bool {
        true
    }

    fn transition_stop(data: &mut Option<D>) -> (outcome: Result<(), Fault>)
        ensures
            Self::transition_stop_spec(*old(data), *final(data), outcome),
    ;
}

/// Is told how much time passed since the last frame.
pub trait VideoTickSource<D> {
    open spec fn video_tick_spec(
        before: Option<D>,
        seconds: Seconds,
        after: Option<D>,
        outcome: Result<(), Fault>,
    ) -> bool {
        true
    }

    fn video_tick(data: &mut Option<D>, seconds: Seconds) -> (outcome: Result<(), Fault>)
        ensures
            Self::video_tick_spec(*old(data), seconds, *final(data), outcome),
    ;
}

/// Can filter an audio buffer in place.
pub trait FilterAudioSource<D> {
    open spec fn filter_audio_spec(
        before: Option<D>,
        audio: Handle,
        after: Option<D>,
        outcome: Result<(), Fault>,
    ) -> bool {
        true
    }

    fn filter_audio(
        data: &mut Option<D>,
        audio: &mut AudioDataContext,
    ) -> (outcome: Result<(), Fault>)
        ensures
            Self::filter_audio_spec(*old(data), old(audio)@, *final(data), outcome),
    ;
}

/// Can pause and resume playback.
pub trait MediaPlayPauseSource<D> {
    open spec fn play_pause_spec(
        before: Option<D>,
        pause: bool,
        after: Option<D>,
        outcome: Result<(), Fault>,
    ) -> bool {
        true
    }

    fn play_pause(data: &mut Option<D>, pause: bool) -> (outcome: Result<(), Fault>)
        ensures
            Self::play_pause_spec(*old(data), pause, *final(data), outcome),
    ;
}

/// Can report its playback state.
pub trait MediaGetStateSource<D> {
    open spec fn get_state_spec(
        before: Option<D>,
        after: Option<D>,
        outcome: Result<MediaState, Fault>,
    ) -> bool {
        true
    }

    fn get_state(data: &mut Option<D>) -> (outcome: Result<MediaState, Fault>)
        ensures
            Self::get_state_spec(*old(data), *final(data), outcome),
    ;
}

/// Can stop playback.
pub trait MediaStopSource<D> {
    open spec fn stop_spec(
        before: Option<D>,
        after: Option<D>,
        outcome: Result<(), Fault>,
    ) -> bool {
        true
    }

    fn stop(data: &mut Option<D>) -> (outcome: Result<(), Fault>)
        ensures
            Self::stop_spec(*old(data), *final(data), outcome),
    ;
}

/// Can restart playback.
pub trait MediaRestartSource<D> {
    open spec fn restart_spec(
        before: Option<D>,
        after: Option<D>,
        outcome: Result<(), Fault>,
    ) -> bool {
        true
    }

    fn restart(data: &mut Option<D>) -> (outcome: Result<(), Fault>)
        ensures
            Self::restart_spec(*old(data), *final(data), outcome),
    ;
}

/// Can skip to the next item.
pub trait MediaNextSource<D> {
    open spec fn next_spec(
        before: Option<D>,
        after: Option<D>,
        outcome: Result<(), Fault>,
    ) -> bool {
        true
    }

    fn next(data: &mut Option<D>) -> (outcome: Result<(), Fault>)
        ensures
            Self::next_spec(*old(data), *final(data), outcome),
    ;
}

/// Can go back to the previous item.
pub trait MediaPreviousSource<D> {
    open spec fn previous_spec(
        before: Option<D>,
        after: Option<D>,
        outcome: Result<(), Fault>,
    ) -> bool {
        true
    }

    fn previous(data: &mut Option<D>) -> (outcome: Result<(), Fault>)
        ensures
            Self::previous_spec(*old(data), *final(data), outcome),
    ;
}

/// Can report the duration of its media.
pub trait MediaGetDurationSource<D> {
    open spec fn get_duration_spec(
        before: Option<D>,
        after: Option<D>,
        outcome: Result<i64, Fault>,
    ) -> bool {
        true
    }

    fn get_duration(data: &mut Option<D>) -> (outcome: Result<i64, Fault>)
        ensures
            Self::get_duration_spec(*old(data), *final(data), outcome),
    ;
}

/// Can report its playback position.
pub trait MediaGetTimeSource<D> {
    open spec fn get_time_spec(
        before: Option<D>,
        after: Option<D>,
        outcome: Result<i64, Fault>,
    ) -> bool {
        true
    }

    fn get_time(data: &mut Option<D>) -> (outcome: Result<i64, Fault>)
        ensures
            Self::get_time_spec(*old(data), *final(data), outcome),
    ;
}

} // verus!
