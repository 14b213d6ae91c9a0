use arem::digits::u32_to_dec;
use arem::thumbnail::ConfigError;
use arem::thumbnail::EngineOutcome;
use arem::thumbnail::ExtractionError;
use arem::thumbnail::ThumbnailGenerator;
use arem::thumbnail::interpret_outcome;

#[test]
fn default_configuration() {
    let c = ThumbnailGenerator::new();
    assert_eq!(c.quality_value(), 80);
    assert_eq!(c.resolution_value(), (320, 240));
    let d = ThumbnailGenerator::default();
    assert_eq!(d.quality_value(), 80);
    assert_eq!(d.resolution_value(), (320, 240));
}

#[test]
fn quality_accepts_whole_valid_domain() {
    for q in 0..=100u8 {
        let c = ThumbnailGenerator::new().quality(q).unwrap();
        assert_eq!(c.quality_value(), q);
        assert_eq!(c.resolution_value(), (320, 240));
    }
}

#[test]
fn quality_rejects_out_of_range() {
    assert_eq!(
        ThumbnailGenerator::new().quality(101).unwrap_err(),
        ConfigError::QualityOutOfRange
    );
    assert_eq!(
        ThumbnailGenerator::new().quality(255).unwrap_err(),
        ConfigError::QualityOutOfRange
    );
}

#[test]
fn resolution_round_trips_exactly() {
    let c = ThumbnailGenerator::new().resolution(640, 480).unwrap();
    assert_eq!(c.resolution_value(), (640, 480));
    assert_eq!(c.quality_value(), 80);
    let tiny = ThumbnailGenerator::new().resolution(1, 1).unwrap();
    assert_eq!(tiny.resolution_value(), (1, 1));
    let big = ThumbnailGenerator::new()
        .resolution(u32::MAX, u32::MAX)
        .unwrap();
    assert_eq!(big.resolution_value(), (u32::MAX, u32::MAX));
}

#[test]
fn resolution_rejects_zero_dimension() {
    assert_eq!(
        ThumbnailGenerator::new().resolution(0, 240).unwrap_err(),
        ConfigError::InvalidResolution
    );
    assert_eq!(
        ThumbnailGenerator::new().resolution(320, 0).unwrap_err(),
        ConfigError::InvalidResolution
    );
    assert_eq!(
        ThumbnailGenerator::new().resolution(0, 0).unwrap_err(),
        ConfigError::InvalidResolution
    );
}

#[test]
fn chained_builders_leave_original_unchanged() {
    let base = ThumbnailGenerator::new();
    let derived = base
        .clone()
        .quality(50)
        .unwrap()
        .resolution(640, 480)
        .unwrap();
    assert_eq!(derived.quality_value(), 50);
    assert_eq!(derived.resolution_value(), (640, 480));
    assert_eq!(base.quality_value(), 80);
    assert_eq!(base.resolution_value(), (320, 240));
}

#[test]
fn missing_input_is_reported_without_invocation() {
    let c = ThumbnailGenerator::new();
    let r = c.plan_invocation("missing.mp4", "out.webp", false);
    match r {
        Ok(_) => panic!("an invocation was planned for a missing input"),
        Err(ExtractionError::InputNotFound { path }) => assert_eq!(path, "missing.mp4"),
        Err(e) => panic!("wrong error for a missing input: {:?}", e),
    }
}

#[test]
fn zero_exit_is_success_for_any_valid_config() {
    let configs = [
        ThumbnailGenerator::new(),
        ThumbnailGenerator::new().quality(0).unwrap(),
        ThumbnailGenerator::new()
            .quality(100)
            .unwrap()
            .resolution(1, 1)
            .unwrap(),
        ThumbnailGenerator::new().resolution(1920, 1080).unwrap(),
    ];
    for c in configs {
        let planned = c.plan_invocation("in.mp4", "out.webp", true);
        assert!(planned.is_ok());
        let r = interpret_outcome(EngineOutcome::Exited { code: 0 });
        assert!(r.is_ok());
    }
}

#[test]
fn exit_code_one_maps_to_engine_failed() {
    let r = interpret_outcome(EngineOutcome::Exited { code: 1 });
    assert!(matches!(
        r,
        Err(ExtractionError::EngineFailed { exit_code: 1 })
    ));
}

#[test]
fn missing_exit_code_maps_to_sentinel() {
    let r = interpret_outcome(EngineOutcome::Terminated);
    assert!(matches!(
        r,
        Err(ExtractionError::EngineFailed { exit_code: -1 })
    ));
}

#[test]
fn spawn_error_carries_the_description() {
    let r = interpret_outcome(EngineOutcome::SpawnError {
        message: "No such file or directory".to_string(),
    });
    match r {
        Err(ExtractionError::SpawnFailed { message }) => {
            assert_eq!(message, "No such file or directory")
        }
        other => panic!("wrong mapping for a spawn error: {:?}", other),
    }
}

#[test]
fn engine_args_are_exact() {
    let c = ThumbnailGenerator::new();
    let args = c.engine_args("in.mp4", "out.webp");
    let expected = vec![
        "-i",
        "in.mp4",
        "-vf",
        "scale=320x240",
        "-q:v",
        "80",
        "-frames:v",
        "1",
        "out.webp",
    ];
    assert_eq!(args, expected);
}

#[test]
fn engine_args_follow_the_config() {
    let c = ThumbnailGenerator::new()
        .quality(5)
        .unwrap()
        .resolution(1920, 1080)
        .unwrap();
    let args = c.engine_args("clip.mkv", "still.jpg");
    let expected = vec![
        "-i",
        "clip.mkv",
        "-vf",
        "scale=1920x1080",
        "-q:v",
        "5",
        "-frames:v",
        "1",
        "still.jpg",
    ];
    assert_eq!(args, expected);
}

#[test]
fn planned_invocation_equals_engine_args() {
    let c = ThumbnailGenerator::new();
    let planned = c.plan_invocation("in.mp4", "out.webp", true).unwrap();
    assert_eq!(planned, c.engine_args("in.mp4", "out.webp"));
}

#[test]
fn decimal_rendering_is_exact() {
    assert_eq!(u32_to_dec(0), "0");
    assert_eq!(u32_to_dec(7), "7");
    assert_eq!(u32_to_dec(10), "10");
    assert_eq!(u32_to_dec(80), "80");
    assert_eq!(u32_to_dec(240), "240");
    assert_eq!(u32_to_dec(1080), "1080");
    assert_eq!(u32_to_dec(u32::MAX), "4294967295");
}
