//! Trampolines: one per capability.
//!
//! Each takes the capsule of one plugin instance and the raw handles of one
//! host call, builds the contexts the capability needs, delegates to the
//! capability and adapts its outcome to what the host is owed. A contained
//! trampoline never hands a fault on: the host receives the capability's
//! default and the side channel one report. An uncontained one returns the
//! fault to its caller, for whom it is fatal.

use crate::capsule::DataWrapper;
use crate::context::{
    AudioDataContext, DataObj, EnumActiveContext, EnumAllContext, GlobalContext, Handle, Handoff,
    Properties, Seconds, SourceContext, VideoRenderContext,
};
use crate::fault::{
    contained_value, handle_unwind, handle_unwind_with_def, log_after, Fault, FaultLog,
};
use crate::media::MediaState;
use crate::traits::{
    ActivateSource, AudioRenderSource, CreatableSource, DeactivateSource, EnumActiveSource,
    EnumAllSource, FilterAudioSource, GetDefaultsSource, GetHeightSource, GetNameSource,
    GetPropertiesSource, GetWidthSource, MediaGetDurationSource, MediaGetStateSource,
    MediaGetTimeSource, MediaNextSource, MediaPlayPauseSource, MediaPreviousSource,
    MediaRestartSource, MediaStopSource, TransitionStartSource, TransitionStopSource,
    UpdateSource, VideoRenderSource, VideoTickSource,
};
use vstd::prelude::*;

verus! {

/// The display name of the plugin type.
pub fn get_name<D, F: GetNameSource<D>>() -> (outcome: Result<&'static str, Fault>)
    ensures
        F::get_name_spec(outcome),
{
    F::get_name()
}

/// The width of the instance; 0 when the capability faults.
pub fn get_width<D, F: GetWidthSource<D>>(
    wrapper: &mut DataWrapper<D>,
    log: &mut FaultLog,
) -> (r: u32)
    ensures
        exists|outcome: Result<u32, Fault>|
            {
                &&& #[trigger] F::get_width_spec(old(wrapper).data, final(wrapper).data, outcome)
                &&& r == contained_value(outcome, 0u32)
                &&& final(log)@ == log_after(old(log)@, outcome)
            },
{
    let outcome = F::get_width(&mut wrapper.data);
    handle_unwind_with_def(outcome, 0, log)
}

/// The height of the instance; 0 when the capability faults.
pub fn get_height<D, F: GetHeightSource<D>>(
    wrapper: &mut DataWrapper<D>,
    log: &mut FaultLog,
) -> (r: u32)
    ensures
        exists|outcome: Result<u32, Fault>|
            {
                &&& #[trigger] F::get_height_spec(old(wrapper).data, final(wrapper).data, outcome)
                &&& r == contained_value(outcome, 0u32)
                &&& final(log)@ == log_after(old(log)@, outcome)
            },
{
    let outcome = F::get_height(&mut wrapper.data);
    handle_unwind_with_def(outcome, 0, log)
}

/// Tells the instance that it became active. A fault is contained.
pub fn activate<D, F: ActivateSource<D>>(wrapper: &mut DataWrapper<D>, log: &mut FaultLog)
    ensures
        exists|outcome: Result<(), Fault>|
            {
                &&& #[trigger] F::activate_spec(old(wrapper).data, final(wrapper).data, outcome)
                &&& final(log)@ == log_after(old(log)@, outcome)
            },
{
    let outcome = F::activate(&mut wrapper.data);
    handle_unwind(outcome, log)
}

/// Tells the instance that it stopped being active. A fault is contained.
pub fn deactivate<D, F: DeactivateSource<D>>(wrapper: &mut DataWrapper<D>, log: &mut FaultLog)
    ensures
        exists|outcome: Result<(), Fault>|
            {
                &&& #[trigger] F::deactivate_spec(old(wrapper).data, final(wrapper).data, outcome)
                &&& final(log)@ == log_after(old(log)@, outcome)
            },
{
    let outcome = F::deactivate(&mut wrapper.data);
    handle_unwind(outcome, log)
}

/// An empty capsule, for a host that asks for an instance before it can say
/// how to construct one.
pub fn create_default_data<D>() -> (wrapper: DataWrapper<D>)
    ensures
        wrapper.data is None,
{
    DataWrapper::default()
}

/// Constructs an instance from the settings behind `settings` and puts it in
/// a fresh capsule. The settings stay the host's. A fault of the capability
/// is not contained: it is returned, and no capsule exists.
pub fn create<D, F: CreatableSource<D>>(settings: Handle, source: Handle) -> (r: Result<
    DataWrapper<D>,
    Fault,
>)
    ensures
        match r {
            Ok(wrapper) => wrapper.data is Some && F::create_spec(
                settings,
                source,
                Ok(wrapper.data->0),
            ),
            Err(fault) => F::create_spec(settings, source, Err(fault)),
        },
{
    let mut settings = DataObj::new_unchecked(settings);
    let source = SourceContext::from_raw(source);
    let mut global = GlobalContext::default();
    match F::create(&mut settings, source, &mut global) {
        Ok(data) => Ok(DataWrapper::from(data)),
        Err(fault) => Err(fault),
    }
}

/// Reclaims the capsule and hands out what it held, so that the instance is
/// torn down by whoever lets the result go: once, and not before. A capsule
/// that was destroyed is gone; nothing can reach it again.
pub fn destroy<D>(wrapper: DataWrapper<D>) -> (instance: Option<D>)
    ensures
        instance == wrapper.data,
{
    wrapper.data
}

/// Hands changed settings to the instance. The settings stay the host's. A
/// fault is contained.
pub fn update<D, F: UpdateSource<D>>(
    wrapper: &mut DataWrapper<D>,
    settings: Handle,
    log: &mut FaultLog,
)
    ensures
        exists|outcome: Result<(), Fault>|
            {
                &&& #[trigger] F::update_spec(
                    old(wrapper).data,
                    settings,
                    final(wrapper).data,
                    outcome,
                )
                &&& final(log)@ == log_after(old(log)@, outcome)
            },
{
    let mut global = GlobalContext::default();
    let mut settings = DataObj::new_unchecked(settings);
    let outcome = F::update(&mut wrapper.data, &mut settings, &mut global);
    handle_unwind(outcome, log)
}

/// Lets the instance render video. A fault is contained.
pub fn video_render<D, F: VideoRenderSource<D>>(wrapper: &mut DataWrapper<D>, log: &mut FaultLog)
    ensures
        exists|outcome: Result<(), Fault>|
            {
                &&& #[trigger] F::video_render_spec(
                    old(wrapper).data,
                    final(wrapper).data,
                    outcome,
                )
                &&& final(log)@ == log_after(old(log)@, outcome)
            },
{
    let mut global = GlobalContext::default();
    let mut render = VideoRenderContext::default();
    let outcome = F::video_render(&mut wrapper.data, &mut global, &mut render);
    handle_unwind(outcome, log)
}

/// Lets the instance render audio. The host receives `true` whether the
/// capability returned or faulted; a fault is contained.
pub fn audio_render<D, F: AudioRenderSource<D>>(
    wrapper: &mut DataWrapper<D>,
    log: &mut FaultLog,
) -> (r: bool)
    ensures
        r,
        exists|outcome: Result<(), Fault>|
            {
                &&& #[trigger] F::audio_render_spec(
                    old(wrapper).data,
                    final(wrapper).data,
                    outcome,
                )
                &&& final(log)@ == log_after(old(log)@, outcome)
            },
{
    let mut global = GlobalContext::default();
    let outcome = F::audio_render(&mut wrapper.data, &mut global);
    let flag = match outcome {
        Ok(_) => Ok(true),
        Err(fault) => Err(fault),
    };
    handle_unwind_with_def(flag, true, log)
}

/// What becomes of the properties builder after the capability ran: forwarded
/// to the host when it returned, released when it faulted.
pub open spec fn properties_handoff(
    properties_after: Handle,
    outcome: Result<(), Fault>,
) -> Handoff {
    match outcome {
        Ok(_) => Handoff::forwarded(properties_after),
        Err(_) => Handoff::released(properties_after),
    }
}

/// The builder is never lost and never released twice: it is forwarded to the
/// host and not released, or released while the host receives null. A fault
/// always gives the second.
pub proof fn lemma_properties_handoff(properties_after: Handle, outcome: Result<(), Fault>)
    ensures
        outcome is Ok ==> properties_handoff(properties_after, outcome).to_host
            == properties_after && properties_handoff(properties_after, outcome).to_release
            is None,
        outcome is Err ==> properties_handoff(properties_after, outcome).to_host.is_null_spec()
            && properties_handoff(properties_after, outcome).to_release == Some(properties_after),
{
}

/// Lets the instance declare its properties on the builder behind `created`,
/// which the host made for this call. When the capability returns, the
/// builder goes to the host. When it faults, the host receives null and the
/// builder is to be released; the fault is contained.
pub fn get_properties<D, F: GetPropertiesSource<D>>(
    wrapper: &mut DataWrapper<D>,
    created: Handle,
    log: &mut FaultLog,
) -> (r: Handoff)
    ensures
        exists|properties_after: Handle, outcome: Result<(), Fault>|
            {
                &&& #[trigger] F::get_properties_spec(
                    old(wrapper).data,
                    created,
                    final(wrapper).data,
                    properties_after,
                    outcome,
                )
                &&& r == properties_handoff(properties_after, outcome)
                &&& final(log)@ == log_after(old(log)@, outcome)
            },
{
    let mut properties = Properties::from_raw(created);
    let outcome = F::get_properties(&mut wrapper.data, &mut properties);
    let raw = properties.into_raw();
    let forwarded = match outcome {
        Ok(_) => Ok(Handoff { to_host: raw, to_release: None }),
        Err(fault) => Err(fault),
    };
    handle_unwind_with_def(
        forwarded,
        Handoff { to_host: Handle::null(), to_release: Some(raw) },
        log,
    )
}

/// Lets the instance enumerate its active child sources. A fault is
/// contained.
pub fn enum_active_sources<D, F: EnumActiveSource<D>>(
    wrapper: &mut DataWrapper<D>,
    log: &mut FaultLog,
)
    ensures
        exists|outcome: Result<(), Fault>|
            {
                &&& #[trigger] F::enum_active_sources_spec(
                    old(wrapper).data,
                    final(wrapper).data,
                    outcome,
                )
                &&& final(log)@ == log_after(old(log)@, outcome)
            },
{
    let context = EnumActiveContext {  };
    let outcome = F::enum_active_sources(&mut wrapper.data, &context);
    handle_unwind(outcome, log)
}

/// Lets the instance enumerate all its child sources. A fault is contained.
pub fn enum_all_sources<D, F: EnumAllSource<D>>(wrapper: &mut DataWrapper<D>, log: &mut FaultLog)
    ensures
        exists|outcome: Result<(), Fault>|
            {
                &&& #[trigger] F::enum_all_sources_spec(
                    old(wrapper).data,
                    final(wrapper).data,
                    outcome,
                )
                &&& final(log)@ == log_after(old(log)@, outcome)
            },
{
    let context = EnumAllContext {  };
    let outcome = F::enum_all_sources(&mut wrapper.data, &context);
    handle_unwind(outcome, log)
}

/// Tells the instance that a transition starts. A fault is contained.
pub fn transition_start<D, F: TransitionStartSource<D>>(
    wrapper: &mut DataWrapper<D>,
    log: &mut FaultLog,
)
    ensures
        exists|outcome: Result<(), Fault>|
            {
                &&& #[trigger] F::transition_start_spec(
                    old(wrapper).data,
                    final(wrapper).data,
                    outcome,
                )
                &&& final(log)@ == log_after(old(log)@, outcome)
            },
{
    let outcome = F::transition_start(&mut wrapper.data);
    handle_unwind(outcome, log)
}

/// Tells the instance that a transition stops. A fault is contained.
pub fn transition_stop<D, F: TransitionStopSource<D>>(
    wrapper: &mut DataWrapper<D>,
    log: &mut FaultLog,
)
    ensures
        exists|outcome: Result<(), Fault>|
            {
                &&& #[trigger] F::transition_stop_spec(
                    old(wrapper).data,
                    final(wrapper).data,
                    outcome,
                )
                &&& final(log)@ == log_after(old(log)@, outcome)
            },
{
    let outcome = F::transition_stop(&mut wrapper.data);
    handle_unwind(outcome, log)
}

/// Tells the instance how much time passed. A fault is contained.
pub fn video_tick<D, F: VideoTickSource<D>>(
    wrapper: &mut DataWrapper<D>,
    seconds: Seconds,
    log: &mut FaultLog,
)
    ensures
        exists|outcome: Result<(), Fault>|
            {
                &&& #[trigger] F::video_tick_spec(
                    old(wrapper).data,
                    seconds,
                    final(wrapper).data,
                    outcome,
                )
                &&& final(log)@ == log_after(old(log)@, outcome)
            },
{
    let outcome = F::video_tick(&mut wrapper.data, seconds);
    handle_unwind(outcome, log)
}

/// The buffer handle the host receives after filtering: the one it gave when
/// the capability returned, null when it faulted.
pub open spec fn filtered_audio(audio: Handle, outcome: Result<(), Fault>) -> Handle {
    match outcome {
        Ok(_) => audio,
        Err(_) => Handle::null_spec(),
    }
}

/// The host gets its own buffer back exactly when the capability returned; a
/// fault gives null, whichever buffer was passed.
pub proof fn lemma_filtered_audio(audio: Handle, outcome: Result<(), Fault>)
    ensures
        outcome is Ok ==> filtered_audio(audio, outcome) == audio,
        outcome is Err ==> filtered_audio(audio, outcome).is_null_spec(),
{
}

/// Lets the instance filter the audio buffer behind `audio` in place. The
/// buffer stays the host's. A fault is contained.
pub fn filter_audio<D, F: FilterAudioSource<D>>(
    wrapper: &mut DataWrapper<D>,
    audio: Handle,
    log: &mut FaultLog,
) -> (r: Handle)
    ensures
        exists|outcome: Result<(), Fault>|
            {
                &&& #[trigger] F::filter_audio_spec(
                    old(wrapper).data,
                    audio,
                    final(wrapper).data,
                    outcome,
                )
                &&& r == filtered_audio(audio, outcome)
                &&& final(log)@ == log_after(old(log)@, outcome)
            },
{
    let mut context = AudioDataContext::from_raw(audio);
    let outcome = F::filter_audio(&mut wrapper.data, &mut context);
    let returned = match outcome {
        Ok(_) => Ok(audio),
        Err(fault) => Err(fault),
    };
    handle_unwind_with_def(returned, Handle::null(), log)
}

/// Pauses or resumes playback. A fault is not contained.
pub fn media_play_pause<D, F: MediaPlayPauseSource<D>>(
    wrapper: &mut DataWrapper<D>,
    pause: bool,
) -> (outcome: Result<(), Fault>)
    ensures
        F::play_pause_spec(old(wrapper).data, pause, final(wrapper).data, outcome),
{
    F::play_pause(&mut wrapper.data, pause)
}

/// What the host receives for a reported playback state: its native number.
pub open spec fn native_state(outcome: Result<MediaState, Fault>) -> Result<u32, Fault> {
    match outcome {
        Ok(state) => Ok(state.to_native_spec()),
        Err(fault) => Err(fault),
    }
}

/// The playback state of the instance in the host's native representation. A
/// fault is not contained.
pub fn media_get_state<D, F: MediaGetStateSource<D>>(
    wrapper: &mut DataWrapper<D>,
) -> (r: Result<u32, Fault>)
    ensures
        exists|outcome: Result<MediaState, Fault>|
            {
                &&& #[trigger] F::get_state_spec(old(wrapper).data, final(wrapper).data, outcome)
                &&& r == native_state(outcome)
            },
{
    match F::get_state(&mut wrapper.data) {
        Ok(state) => Ok(state.to_native()),
        Err(fault) => Err(fault),
    }
}

/// Stops playback. A fault is not contained.
pub fn media_stop<D, F: MediaStopSource<D>>(
    wrapper: &mut DataWrapper<D>,
) -> (outcome: Result<(), Fault>)
    ensures
        F::stop_spec(old(wrapper).data, final(wrapper).data, outcome),
{
    F::stop(&mut wrapper.data)
}

/// Restarts playback. A fault is not contained.
pub fn media_restart<D, F: MediaRestartSource<D>>(
    wrapper: &mut DataWrapper<D>,
) -> (outcome: Result<(), Fault>)
    ensures
        F::restart_spec(old(wrapper).data, final(wrapper).data, outcome),
{
    F::restart(&mut wrapper.data)
}

/// Skips to the next item. A fault is not contained.
pub fn media_next<D, F: MediaNextSource<D>>(
    wrapper: &mut DataWrapper<D>,
) -> (outcome: Result<(), Fault>)
    ensures
        F::next_spec(old(wrapper).data, final(wrapper).data, outcome),
{
    F::next(&mut wrapper.data)
}

/// Goes back to the previous item. A fault is not contained.
pub fn media_previous<D, F: MediaPreviousSource<D>>(
    wrapper: &mut DataWrapper<D>,
) -> (outcome: Result<(), Fault>)
    ensures
        F::previous_spec(old(wrapper).data, final(wrapper).data, outcome),
{
    F::previous(&mut wrapper.data)
}

/// The duration of the media. A fault is not contained.
pub fn media_get_duration<D, F: MediaGetDurationSource<D>>(
    wrapper: &mut DataWrapper<D>,
) -> (outcome: Result<i64, Fault>)
    ensures
        F::get_duration_spec(old(wrapper).data, final(wrapper).data, outcome),
{
    F::get_duration(&mut wrapper.data)
}

/// The playback position. A fault is not contained.
pub fn media_get_time<D, F: MediaGetTimeSource<D>>(
    wrapper: &mut DataWrapper<D>,
) -> (outcome: Result<i64, Fault>)
    ensures
        F::get_time_spec(old(wrapper).data, final(wrapper).data, outcome),
{
    F::get_time(&mut wrapper.data)
}

/// Fills the settings behind `settings` with the defaults of the plugin type.
/// The settings stay the host's. A fault is not contained.
pub fn get_defaults<D, F: GetDefaultsSource<D>>(settings: Handle) -> (outcome: Result<(), Fault>)
    ensures
        F::get_defaults_spec(settings, outcome),
{
    let mut settings = DataObj::new_unchecked(settings);
    F::get_defaults(&mut settings)
}

} // verus!
