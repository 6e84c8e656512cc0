use source_dispatch::capsule::DataWrapper;
use source_dispatch::context::{
    AudioDataContext, DataObj, Handle, Handoff, Properties, SourceContext,
};
use source_dispatch::fault::{Fault, FaultLog, FaultReport};
use source_dispatch::ffi::{filter_audio, get_defaults, get_name, get_properties};
use source_dispatch::traits::{
    FilterAudioSource, GetDefaultsSource, GetNameSource, GetPropertiesSource,
};

/// Remembers the handles it was shown.
#[derive(Debug, Default, PartialEq)]
struct Seen {
    builders: Vec<usize>,
    buffers: Vec<usize>,
}

struct Sound;

impl GetNameSource<Seen> for Sound {
    fn get_name() -> Result<&'static str, Fault> {
        Ok("Test Source")
    }
}

impl GetPropertiesSource<Seen> for Sound {
    fn get_properties(data: &mut Option<Seen>, properties: &mut Properties) -> Result<(), Fault> {
        data.get_or_insert_with(Seen::default).builders.push(properties.as_raw().addr);
        Ok(())
    }
}

impl FilterAudioSource<Seen> for Sound {
    fn filter_audio(data: &mut Option<Seen>, audio: &mut AudioDataContext) -> Result<(), Fault> {
        data.get_or_insert_with(Seen::default).buffers.push(audio.as_raw().addr);
        Ok(())
    }
}

impl GetDefaultsSource<Seen> for Sound {
    fn get_defaults(settings: &mut DataObj) -> Result<(), Fault> {
        if settings.as_raw().is_null() {
            Err(Fault {})
        } else {
            Ok(())
        }
    }
}

struct Faulty;

impl GetNameSource<Seen> for Faulty {
    fn get_name() -> Result<&'static str, Fault> {
        Err(Fault {})
    }
}

impl GetPropertiesSource<Seen> for Faulty {
    fn get_properties(data: &mut Option<Seen>, properties: &mut Properties) -> Result<(), Fault> {
        data.get_or_insert_with(Seen::default).builders.push(properties.as_raw().addr);
        Err(Fault {})
    }
}

impl FilterAudioSource<Seen> for Faulty {
    fn filter_audio(data: &mut Option<Seen>, audio: &mut AudioDataContext) -> Result<(), Fault> {
        data.get_or_insert_with(Seen::default).buffers.push(audio.as_raw().addr);
        Err(Fault {})
    }
}

#[test]
fn contexts_wrap_the_handle_they_were_given() {
    let raw = Handle { addr: 0xbeef };
    assert_eq!(DataObj::new_unchecked(raw).as_raw(), raw);
    assert_eq!(SourceContext::from_raw(raw).as_raw(), raw);
    assert_eq!(AudioDataContext::from_raw(raw).as_raw(), raw);
    assert_eq!(Properties::from_raw(raw).as_raw(), raw);
    assert_eq!(Properties::from_raw(raw).into_raw(), raw);
}

#[test]
fn get_name_returns_the_name_of_the_type() {
    assert_eq!(get_name::<Seen, Sound>(), Ok("Test Source"));
    assert_eq!(get_name::<Seen, Faulty>(), Err(Fault {}));
}

#[test]
fn get_properties_forwards_the_builder_to_the_host() {
    let mut capsule = DataWrapper::from(Seen::default());
    let mut log = FaultLog::new();
    let created = Handle { addr: 0x7000 };
    let handoff = get_properties::<Seen, Sound>(&mut capsule, created, &mut log);
    assert_eq!(handoff, Handoff { to_host: created, to_release: None });
    assert_eq!(capsule.data.as_ref().unwrap().builders, vec![0x7000]);
    assert_eq!(log.len(), 0);
}

#[test]
fn get_properties_on_a_fault_returns_null_and_releases_the_builder() {
    let mut capsule = DataWrapper::from(Seen::default());
    let mut log = FaultLog::new();
    let created = Handle { addr: 0x7000 };
    let handoff = get_properties::<Seen, Faulty>(&mut capsule, created, &mut log);
    assert!(handoff.to_host.is_null());
    assert_eq!(handoff.to_release, Some(created));
    assert_eq!(log.reports, vec![FaultReport::PanicInCallback]);
}

#[test]
fn filter_audio_returns_the_buffer_it_was_given() {
    let mut capsule = DataWrapper::from(Seen::default());
    let mut log = FaultLog::new();
    let first = filter_audio::<Seen, Sound>(&mut capsule, Handle { addr: 0x9000 }, &mut log);
    let second = filter_audio::<Seen, Sound>(&mut capsule, Handle { addr: 0x9040 }, &mut log);
    assert_eq!(first, Handle { addr: 0x9000 });
    assert_eq!(second, Handle { addr: 0x9040 });
    assert_eq!(capsule.data.as_ref().unwrap().buffers, vec![0x9000, 0x9040]);
    assert_eq!(log.len(), 0);
}

/// On a fault the default wins over "the same handle": the host gets null.
#[test]
fn filter_audio_on_a_fault_returns_null() {
    let mut capsule = DataWrapper::from(Seen::default());
    let mut log = FaultLog::new();
    let returned = filter_audio::<Seen, Faulty>(&mut capsule, Handle { addr: 0x9000 }, &mut log);
    assert_eq!(returned, Handle::null());
    assert_eq!(capsule.data.as_ref().unwrap().buffers, vec![0x9000]);
    assert_eq!(log.reports, vec![FaultReport::PanicInCallback]);
}

#[test]
fn get_defaults_needs_no_instance() {
    assert_eq!(get_defaults::<Seen, Sound>(Handle { addr: 0x5000 }), Ok(()));
    assert_eq!(get_defaults::<Seen, Sound>(Handle::null()), Err(Fault {}));
}
