use speech_bridge::registry::{
    finish_transcription, join_segments, LoadError, ModelRegistry, Segment, TranscribeError,
};

fn seg(start: i64, end: i64, text: &str) -> Segment {
    Segment { start, end, text: text.to_string() }
}

/// A stand-in engine: a model is its name, and it "recognizes" audio as
/// one segment tagged with that name.
fn stub_run(model: &mut String, samples: &[i16]) -> Result<Vec<Segment>, ()> {
    if samples.is_empty() {
        return Err(());
    }
    Ok(vec![seg(0, samples.len() as i64, &format!("{}:{}", model, samples.len()))])
}

fn transcribe(reg: &mut ModelRegistry<String>, samples: &[i16]) -> Result<String, TranscribeError> {
    let model = reg.model_mut()?;
    finish_transcription(stub_run(model, samples))
}

#[test]
fn transcribe_before_load_is_not_loaded() {
    let mut reg: ModelRegistry<String> = ModelRegistry::new();
    assert!(!reg.is_loaded());
    assert_eq!(transcribe(&mut reg, &[1, 2, 3]), Err(TranscribeError::NotLoaded));
}

#[test]
fn load_then_transcribe_uses_new_model_only() {
    let mut reg: ModelRegistry<String> = ModelRegistry::new();
    assert_eq!(reg.install(Ok::<String, ()>("small".to_string())), Ok(()));
    assert_eq!(transcribe(&mut reg, &[1, 2, 3]), Ok("small:3".to_string()));
    assert_eq!(reg.install(Ok::<String, ()>("large".to_string())), Ok(()));
    assert_eq!(transcribe(&mut reg, &[1, 2]), Ok("large:2".to_string()));
}

#[test]
fn failed_load_keeps_previous_model() {
    let mut reg: ModelRegistry<String> = ModelRegistry::new();
    assert_eq!(reg.install(Err::<String, &str>("bad file")), Err(LoadError::EngineInit));
    assert!(!reg.is_loaded());
    reg.install(Ok::<String, ()>("small".to_string())).unwrap();
    assert_eq!(reg.install(Err::<String, &str>("bad file")), Err(LoadError::EngineInit));
    assert_eq!(transcribe(&mut reg, &[7]), Ok("small:1".to_string()));
}

#[test]
fn engine_failure_is_reported() {
    let mut reg: ModelRegistry<String> = ModelRegistry::new();
    reg.install(Ok::<String, ()>("small".to_string())).unwrap();
    assert_eq!(transcribe(&mut reg, &[]), Err(TranscribeError::EngineFailure));
    assert_eq!(finish_transcription::<()>(Err(())), Err(TranscribeError::EngineFailure));
}

#[test]
fn segments_join_in_engine_order() {
    let segs = vec![seg(0, 2, "Hello, "), seg(2, 5, "world")];
    assert_eq!(join_segments(&segs), "Hello, world");
    assert_eq!(finish_transcription::<()>(Ok(segs)), Ok("Hello, world".to_string()));
}

#[test]
fn segments_out_of_time_order_are_joined_as_returned() {
    let segs = vec![seg(2, 5, "later"), seg(0, 2, "earlier")];
    assert_eq!(join_segments(&segs), "laterearlier");
}

#[test]
fn no_segments_give_empty_text() {
    assert_eq!(join_segments(&vec![]), "");
}

#[test]
fn error_messages_are_not_empty() {
    assert!(!LoadError::EngineInit.message().is_empty());
    assert!(!TranscribeError::NotLoaded.message().is_empty());
    assert!(!TranscribeError::EngineFailure.message().is_empty());
}
