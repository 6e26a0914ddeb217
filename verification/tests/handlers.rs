use media_pipeline_service::handlers::media::{
    admit_job, plan_conversion_as, plan_stream_as, plan_thumbnail_as, Job,
    DEFAULT_THUMBNAIL_HEIGHT, DEFAULT_THUMBNAIL_WIDTH,
};
use media_pipeline_service::handlers::pipeline::analysis_target_of;
use media_pipeline_service::handlers::{
    analysis_target, analyze_media, analyze_media_at, convert_media, create_pipeline, create_stream,
    generate_thumbnail, get_pipeline, health_check, list_pipelines, list_sample_media,
    plan_conversion, plan_stream, plan_thumbnail, refuse, refuse_with, stop_pipeline,
    HttpStatus,
};
use media_pipeline_service::models::{
    ApiError, ConvertRequest, CreatePipelineRequest, PipelineState, StreamRequest,
    ThumbnailRequest,
};
use media_pipeline_service::registry::Registry;
use media_pipeline_service::services::pipeline::BusMessage;
use media_pipeline_service::services::probe::{
    Capability, GraphSnapshot, Probe, ProbeError, ProbeEvent,
};
use media_pipeline_service::services::validation::EngineVerdict;
use media_pipeline_service::services::MediaInfo;

const BUNNY: &str =
    "https://commondatastorage.googleapis.com/gtv-videos-bucket/sample/BigBuckBunny.mp4";

fn convert_request(source_url: &str, output_format: &str) -> ConvertRequest {
    ConvertRequest {
        source_url: source_url.to_string(),
        output_format: output_format.to_string(),
    }
}

fn rejected(detail: &str) -> EngineVerdict {
    EngineVerdict::Rejected(detail.to_string())
}

#[test]
fn test_pipeline_lifecycle_integration() {
    let mut registry = Registry::new();

    let created = create_pipeline(
        &mut registry,
        CreatePipelineRequest {
            description: "Test audio extraction pipeline".to_string(),
            pipeline: "fakesrc ! fakesink".to_string(),
        },
        &EngineVerdict::Accepted,
    );
    assert!(created.is_ok());
    let pipeline_id = created.unwrap().id;

    assert!(get_pipeline(&registry, &pipeline_id).is_ok());

    let pipelines = list_pipelines(&registry);
    assert!(pipelines.iter().any(|p| p.id == pipeline_id));

    assert!(stop_pipeline(&mut registry, &pipeline_id).is_ok());

    let stopped = get_pipeline(&registry, &pipeline_id).unwrap();
    assert!(matches!(stopped.state, PipelineState::Stopped));
}

#[test]
fn test_convert_media_integration() {
    let mut registry = Registry::new();
    let plan = plan_conversion(&convert_request(BUNNY, "webm")).unwrap();
    let response = convert_media(&mut registry, plan, &EngineVerdict::Accepted).unwrap();

    assert!(!response.pipeline_id.is_empty());
    assert_eq!(response.status, "created");
    assert!(response.message.contains("webm"));
    assert!(response.estimated_duration.is_some());

    let pipeline = get_pipeline(&registry, &response.pipeline_id).unwrap();
    assert_eq!(pipeline.id, response.pipeline_id);
    assert!(matches!(pipeline.state, PipelineState::Created));
    assert!(pipeline.description.contains("webm"));
}

#[test]
fn test_analyze_endpoint_integration() {
    let test_url = BUNNY;
    let encoded_url = urlencoding::encode(test_url).into_owned();

    let target = analysis_target(&encoded_url).unwrap();
    let probe = Probe::new(&target, 10000)
        .advance(ProbeEvent::Started)
        .advance(ProbeEvent::Polled(Some(BusMessage::AsyncDone), 300))
        .advance(ProbeEvent::Inspected(GraphSnapshot {
            duration_seconds: Some(596),
            detected: Some(vec![Capability {
                label: "video/quicktime".to_string(),
                width: None,
                height: None,
            }]),
            endpoints: Vec::new(),
        }))
        .advance(ProbeEvent::TornDown(Ok(())));
    let report = analyze_media(&target, probe.outcome().unwrap()).unwrap();

    assert_eq!(report.url, test_url);
    let format = report.format.as_str();
    assert_ne!(format, "unknown");
    assert!(format.contains("video") || format.contains("mp4"));
    assert!(chrono::DateTime::parse_from_rfc3339(&report.analysis_timestamp).is_ok());

    let target = analysis_target("not-a-valid-url").unwrap();
    let probe = Probe::new(&target, 10000)
        .advance(ProbeEvent::Started)
        .advance(ProbeEvent::Polled(
            Some(BusMessage::Error("Could not resolve server name.".to_string())),
            20,
        ))
        .advance(ProbeEvent::TornDown(Ok(())));
    let failure = analyze_media(&target, probe.outcome().unwrap()).unwrap_err();
    assert_eq!(failure.status.code(), 422);
    assert_eq!(failure.body.error, "Failed to analyze media");
}

#[test]
fn test_health_endpoint() {
    let report = health_check("GStreamer 1.22.0");
    assert_eq!(report.status, "healthy");
    assert!(!report.gstreamer_version.is_empty());
    assert!(!report.endpoints.is_empty());
}

#[test]
fn test_samples_endpoint() {
    let samples = list_sample_media();
    assert!(!samples.is_empty());
    for sample in &samples {
        assert!(!sample.name.is_empty());
        assert!(!sample.url.is_empty());
        assert!(!sample.media_type.is_empty());
        assert!(!sample.description.is_empty());
    }
}

#[test]
fn api_errors_carry_their_texts() {
    let plain = ApiError::new("Pipeline not found");
    assert_eq!(plain.error, "Pipeline not found");
    assert_eq!(plain.details, None);
    let detailed = ApiError::with_details("Invalid pipeline configuration", "no good");
    assert_eq!(detailed.error, "Invalid pipeline configuration");
    assert_eq!(detailed.details, Some("no good".to_string()));
    let empty = ApiError::with_details("", "");
    assert_eq!(empty.error, "");
    assert_eq!(empty.details, Some(String::new()));
}

#[test]
fn statuses_have_their_numbers() {
    assert_eq!(HttpStatus::BadRequest.code(), 400);
    assert_eq!(HttpStatus::NotFound.code(), 404);
    assert_eq!(HttpStatus::UnprocessableEntity.code(), 422);
    assert_eq!(HttpStatus::InternalServerError.code(), 500);
    let f = refuse(HttpStatus::NotFound, "gone");
    assert_eq!(f.status, HttpStatus::NotFound);
    assert_eq!(f.body.error, "gone");
    assert_eq!(f.body.details, None);
    let f = refuse_with(HttpStatus::BadRequest, "bad", "why");
    assert_eq!(f.status, HttpStatus::BadRequest);
    assert_eq!(f.body.error, "bad");
    assert_eq!(f.body.details, Some("why".to_string()));
}

#[test]
fn an_invalid_custom_pipeline_is_a_bad_request() {
    let mut registry = Registry::new();
    let failure = create_pipeline(
        &mut registry,
        CreatePipelineRequest { description: "d".to_string(), pipeline: "   ".to_string() },
        &EngineVerdict::Accepted,
    )
    .unwrap_err();
    assert_eq!(failure.status, HttpStatus::BadRequest);
    assert_eq!(failure.body.error, "Invalid pipeline configuration");
    assert_eq!(
        failure.body.details,
        Some("Pipeline string cannot be empty".to_string())
    );

    let failure = create_pipeline(
        &mut registry,
        CreatePipelineRequest { description: "d".to_string(), pipeline: "a b".to_string() },
        &EngineVerdict::Accepted,
    )
    .unwrap_err();
    assert_eq!(
        failure.body.details,
        Some("Pipeline must contain at least one element connection (!)".to_string())
    );

    let failure = create_pipeline(
        &mut registry,
        CreatePipelineRequest { description: "d".to_string(), pipeline: "a ! b".to_string() },
        &rejected("no element \"a\""),
    )
    .unwrap_err();
    assert_eq!(failure.status.code(), 400);
    assert_eq!(
        failure.body.details,
        Some("Invalid pipeline syntax: no element \"a\"".to_string())
    );
    assert!(list_pipelines(&registry).is_empty());
}

#[test]
fn a_custom_pipeline_is_recorded_without_a_source() {
    let mut registry = Registry::new();
    let record = create_pipeline(
        &mut registry,
        CreatePipelineRequest {
            description: "Audio extraction".to_string(),
            pipeline: "fakesrc ! fakesink".to_string(),
        },
        &EngineVerdict::Accepted,
    )
    .unwrap();
    assert_eq!(record.description, "Audio extraction");
    assert_eq!(record.pipeline_string, "fakesrc ! fakesink");
    assert_eq!(record.source_url, None);
    assert!(matches!(record.state, PipelineState::Created));
    assert_eq!(record.id.len(), 36);
    assert!(chrono::DateTime::parse_from_rfc3339(&record.created_at).is_ok());
    assert_eq!(list_pipelines(&registry).len(), 1);
}

#[test]
fn an_unknown_pipeline_is_not_found() {
    let mut registry = Registry::new();
    let failure = get_pipeline(&registry, "nope").unwrap_err();
    assert_eq!(failure.status, HttpStatus::NotFound);
    assert_eq!(failure.body.error, "Pipeline not found");
    assert_eq!(failure.body.details, None);
    let failure = stop_pipeline(&mut registry, "nope").unwrap_err();
    assert_eq!(failure.status.code(), 404);
    assert_eq!(failure.body.error, "Pipeline not found");
    assert_eq!(failure.body.details, None);
}

#[test]
fn stopping_confirms_and_may_be_repeated() {
    let mut registry = Registry::new();
    let record = create_pipeline(
        &mut registry,
        CreatePipelineRequest { description: "t".to_string(), pipeline: "src ! sink".to_string() },
        &EngineVerdict::Accepted,
    )
    .unwrap();
    let done = stop_pipeline(&mut registry, &record.id).unwrap();
    assert_eq!(done.message, "Pipeline stopped successfully");
    assert_eq!(done.pipeline_id, record.id);
    let again = stop_pipeline(&mut registry, &record.id).unwrap();
    assert_eq!(again.message, "Pipeline stopped successfully");
    assert!(matches!(
        get_pipeline(&registry, &record.id).unwrap().state,
        PipelineState::Stopped
    ));
}

#[test]
fn a_conversion_is_planned_under_its_id() {
    let plan = plan_conversion_as(&convert_request("https://e.com/v.mp4", "webm"), "id-1".to_string())
        .unwrap();
    assert_eq!(plan.job.id, "id-1");
    assert_eq!(plan.job.description, "Convert to webm");
    assert_eq!(plan.job.source_url, "https://e.com/v.mp4");
    assert_eq!(
        plan.job.descriptor,
        "souphttpsrc location=https://e.com/v.mp4 ! decodebin ! videoconvert ! vp8enc ! webmmux ! filesink location=output_id-1.webm"
    );
    assert_eq!(plan.response.pipeline_id, "id-1");
    assert_eq!(plan.response.status, "created");
    assert_eq!(plan.response.message, "Conversion to webm initiated");
    assert_eq!(plan.response.estimated_duration, Some("2-5 minutes".to_string()));
}

#[test]
fn a_conversion_request_may_be_refused() {
    let failure = plan_conversion(&convert_request("ftp://e.com/v.mp4", "webm")).unwrap_err();
    assert_eq!(failure.status, HttpStatus::BadRequest);
    assert_eq!(failure.body.error, "Source URL must be a valid HTTP(S) URL");
    assert_eq!(failure.body.details, None);

    let failure = plan_conversion(&convert_request("ftp://e.com/v.mp4", "mkv")).unwrap_err();
    assert_eq!(failure.body.error, "Source URL must be a valid HTTP(S) URL");

    let failure = plan_conversion(&convert_request("https://e.com/v.mp4", "mkv")).unwrap_err();
    assert_eq!(failure.status, HttpStatus::BadRequest);
    assert_eq!(failure.body.error, "Unsupported format conversion");
    assert_eq!(
        failure.body.details,
        Some("Unsupported output format: mkv".to_string())
    );
}

#[test]
fn a_conversion_that_the_engine_refuses_is_the_services_fault() {
    let mut registry = Registry::new();
    let plan = plan_conversion(&convert_request(BUNNY, "mp4")).unwrap();
    let id = plan.job.id.clone();
    let failure = convert_media(&mut registry, plan, &rejected("no element \"x264enc\"")).unwrap_err();
    assert_eq!(failure.status, HttpStatus::InternalServerError);
    assert_eq!(failure.body.error, "Generated invalid pipeline");
    assert_eq!(
        failure.body.details,
        Some("Invalid pipeline syntax: no element \"x264enc\"".to_string())
    );
    assert!(get_pipeline(&registry, &id).is_err());
    assert!(list_pipelines(&registry).is_empty());
}

#[test]
fn a_conversion_is_recorded_as_planned() {
    let mut registry = Registry::new();
    let plan = plan_conversion_as(&convert_request(BUNNY, "avi"), "id-9".to_string()).unwrap();
    let descriptor = plan.job.descriptor.clone();
    let response = convert_media(&mut registry, plan, &EngineVerdict::Accepted).unwrap();
    assert_eq!(response.pipeline_id, "id-9");
    assert_eq!(response.message, "Conversion to avi initiated");
    let record = get_pipeline(&registry, "id-9").unwrap();
    assert_eq!(record.description, "Convert to avi");
    assert_eq!(record.pipeline_string, descriptor);
    assert_eq!(record.source_url, Some(BUNNY.to_string()));
    assert!(matches!(record.state, PipelineState::Created));
    assert!(chrono::DateTime::parse_from_rfc3339(&record.created_at).is_ok());
}

#[test]
fn a_thumbnail_is_planned_with_defaults() {
    assert_eq!(DEFAULT_THUMBNAIL_WIDTH, 320);
    assert_eq!(DEFAULT_THUMBNAIL_HEIGHT, 240);
    let plan = plan_thumbnail_as(
        &ThumbnailRequest {
            source_url: "http://e.com/v.mp4".to_string(),
            timestamp: None,
            width: None,
            height: None,
        },
        "id-2".to_string(),
    )
    .unwrap();
    assert_eq!(plan.job.id, "id-2");
    assert_eq!(plan.job.description, "Generate thumbnail");
    assert_eq!(plan.job.source_url, "http://e.com/v.mp4");
    assert_eq!(
        plan.job.descriptor,
        "souphttpsrc location=http://e.com/v.mp4 ! decodebin ! videoconvert ! videoscale ! video/x-raw,width=320,height=240 ! pngenc ! filesink location=thumb_id-2.png"
    );
    assert_eq!(plan.response.pipeline_id, "id-2");
    assert_eq!(plan.response.status, "created");
    assert_eq!(plan.response.message, "Thumbnail generation initiated");
    let info = plan.response.output_info.unwrap();
    assert_eq!(info.width, 320);
    assert_eq!(info.height, 240);
    assert_eq!(info.format, "PNG");
    assert_eq!(info.timestamp, "00:00:10");
}

#[test]
fn a_thumbnail_is_planned_as_asked() {
    let plan = plan_thumbnail(&ThumbnailRequest {
        source_url: BUNNY.to_string(),
        timestamp: Some("00:01:30".to_string()),
        width: Some(640),
        height: Some(480),
    })
    .unwrap();
    assert_eq!(plan.job.id.len(), 36);
    assert!(plan.job.descriptor.contains("width=640,height=480"));
    assert!(plan.job.descriptor.ends_with(&format!("thumb_{}.png", plan.job.id)));
    let info = plan.response.output_info.as_ref().unwrap();
    assert_eq!(info.width, 640);
    assert_eq!(info.height, 480);
    assert_eq!(info.timestamp, "00:01:30");

    let mut registry = Registry::new();
    let id = plan.job.id.clone();
    let response = generate_thumbnail(&mut registry, plan, &EngineVerdict::Accepted).unwrap();
    assert_eq!(response.pipeline_id, id);
    let record = get_pipeline(&registry, &id).unwrap();
    assert_eq!(record.description, "Generate thumbnail");
    assert_eq!(record.source_url, Some(BUNNY.to_string()));
}

#[test]
fn a_thumbnail_request_may_be_refused() {
    let failure = plan_thumbnail(&ThumbnailRequest {
        source_url: "file:///v.mp4".to_string(),
        timestamp: None,
        width: None,
        height: None,
    })
    .unwrap_err();
    assert_eq!(failure.status, HttpStatus::BadRequest);
    assert_eq!(failure.body.error, "Source URL must be a valid HTTP(S) URL");

    let mut registry = Registry::new();
    let plan = plan_thumbnail(&ThumbnailRequest {
        source_url: BUNNY.to_string(),
        timestamp: None,
        width: None,
        height: None,
    })
    .unwrap();
    let failure = generate_thumbnail(&mut registry, plan, &rejected("boom")).unwrap_err();
    assert_eq!(failure.status.code(), 500);
    assert_eq!(failure.body.error, "Generated invalid thumbnail pipeline");
    assert_eq!(
        failure.body.details,
        Some("Invalid pipeline syntax: boom".to_string())
    );
    assert!(list_pipelines(&registry).is_empty());
}

#[test]
fn a_stream_is_planned_and_recorded() {
    let plan = plan_stream_as(
        &StreamRequest { source_url: BUNNY.to_string(), stream_type: "hls".to_string() },
        "id-3".to_string(),
    )
    .unwrap();
    assert_eq!(plan.job.description, "HLS streaming");
    assert_eq!(
        plan.job.descriptor,
        format!(
            "souphttpsrc location={} ! decodebin ! videoconvert ! x264enc bitrate=1000 ! mpegtsmux ! hlssink location=stream_id-3/segment_%05d.ts playlist-location=stream_id-3/playlist.m3u8 max-files=10",
            BUNNY
        )
    );
    assert_eq!(plan.response.pipeline_id, "id-3");
    assert_eq!(plan.response.status, "created");
    assert_eq!(
        plan.response.stream_url,
        Some("http://localhost:8080/stream/id-3/playlist.m3u8".to_string())
    );
    assert_eq!(plan.response.message, "HLS stream created successfully");

    let mut registry = Registry::new();
    let response = create_stream(&mut registry, plan, &EngineVerdict::Accepted).unwrap();
    assert_eq!(response.pipeline_id, "id-3");
    let record = get_pipeline(&registry, "id-3").unwrap();
    assert_eq!(record.description, "HLS streaming");
    assert!(matches!(record.state, PipelineState::Created));
}

#[test]
fn a_stream_request_may_be_refused() {
    let failure = plan_stream(&StreamRequest {
        source_url: "rtsp://e.com/live".to_string(),
        stream_type: "hls".to_string(),
    })
    .unwrap_err();
    assert_eq!(failure.status, HttpStatus::BadRequest);
    assert_eq!(failure.body.error, "Source URL must be a valid HTTP(S) URL");

    let failure = plan_stream(&StreamRequest {
        source_url: BUNNY.to_string(),
        stream_type: "dash".to_string(),
    })
    .unwrap_err();
    assert_eq!(failure.status, HttpStatus::BadRequest);
    assert_eq!(failure.body.error, "Unsupported stream type. Currently supported: hls");
    assert_eq!(failure.body.details, None);

    let failure = plan_stream(&StreamRequest {
        source_url: BUNNY.to_string(),
        stream_type: "HLS".to_string(),
    })
    .unwrap_err();
    assert_eq!(failure.body.error, "Unsupported stream type. Currently supported: hls");

    let mut registry = Registry::new();
    let plan = plan_stream(&StreamRequest {
        source_url: BUNNY.to_string(),
        stream_type: "hls".to_string(),
    })
    .unwrap();
    let failure = create_stream(&mut registry, plan, &rejected("no hlssink")).unwrap_err();
    assert_eq!(failure.status, HttpStatus::InternalServerError);
    assert_eq!(failure.body.error, "Generated invalid streaming pipeline");
    assert!(list_pipelines(&registry).is_empty());
}

#[test]
fn a_job_with_a_bad_shape_is_not_admitted() {
    let mut registry = Registry::new();
    let failure = admit_job(
        &mut registry,
        Job {
            id: "id-4".to_string(),
            description: "d".to_string(),
            descriptor: "nothing connected".to_string(),
            source_url: BUNNY.to_string(),
        },
        &EngineVerdict::Accepted,
        "Generated invalid pipeline",
    )
    .unwrap_err();
    assert_eq!(failure.status, HttpStatus::InternalServerError);
    assert_eq!(
        failure.body.details,
        Some("Pipeline must contain at least one element connection (!)".to_string())
    );
    assert!(get_pipeline(&registry, "id-4").is_err());
}

#[test]
fn percent_decoding_gives_the_target() {
    assert_eq!(analysis_target("hello%20world").unwrap(), "hello world");
    assert_eq!(
        analysis_target("https%3A%2F%2Fe.com%2Fv.mp4").unwrap(),
        "https://e.com/v.mp4"
    );
    assert_eq!(analysis_target("https%3A//e.com/v.mp4").unwrap(), "https://e.com/v.mp4");
    assert_eq!(analysis_target("plain").unwrap(), "plain");
    assert_eq!(analysis_target("").unwrap(), "");
    assert_eq!(analysis_target("a+b").unwrap(), "a+b");
    assert_eq!(analysis_target("100%").unwrap(), "100%");
    assert_eq!(analysis_target("%zz").unwrap(), "%zz");
    assert_eq!(analysis_target("%C3%A9").unwrap(), "\u{E9}");
}

#[test]
fn bytes_that_are_no_text_are_a_bad_request() {
    let failure = analysis_target("%FF").unwrap_err();
    assert_eq!(failure.status, HttpStatus::BadRequest);
    assert_eq!(failure.body.error, "Invalid URL encoding");
    assert_eq!(failure.body.details, None);
    let failure = analysis_target("a%C3").unwrap_err();
    assert_eq!(failure.status.code(), 400);

    let failure = analysis_target_of(None).unwrap_err();
    assert_eq!(failure.body.error, "Invalid URL encoding");
    assert_eq!(analysis_target_of(Some("x".to_string())).unwrap(), "x");
}

#[test]
fn an_analysis_reports_each_field() {
    let report = analyze_media(
        "https://e.com/v.mp4",
        Ok(MediaInfo {
            duration: Some(634),
            width: Some(1280),
            height: Some(720),
            bitrate: Some(2000000),
            format: "video/mp4".to_string(),
        }),
    )
    .unwrap();
    assert_eq!(report.url, "https://e.com/v.mp4");
    assert_eq!(report.format, "video/mp4");
    assert_eq!(report.duration, Some(634));
    assert_eq!(report.width, Some(1280));
    assert_eq!(report.height, Some(720));
    assert_eq!(report.bitrate, Some(2000000));
    assert!(chrono::DateTime::parse_from_rfc3339(&report.analysis_timestamp).is_ok());
}

#[test]
fn a_failed_analysis_cannot_be_processed() {
    let failure = analyze_media(
        "https://e.com/v.mp4",
        Err(ProbeError::EngineError("Pipeline error: Not Found".to_string())),
    )
    .unwrap_err();
    assert_eq!(failure.status, HttpStatus::UnprocessableEntity);
    assert_eq!(failure.body.error, "Failed to analyze media");
    assert_eq!(
        failure.body.details,
        Some("Could not retrieve media information: Pipeline error: Not Found".to_string())
    );
}

#[test]
fn the_samples_are_the_four() {
    let samples = list_sample_media();
    assert_eq!(samples.len(), 4);
    assert_eq!(samples[0].name, "Big Buck Bunny");
    assert_eq!(samples[0].url, BUNNY);
    assert_eq!(samples[0].media_type, "video");
    assert_eq!(samples[0].duration, Some("10:34".to_string()));
    assert_eq!(
        samples[0].description,
        "Blender Foundation's famous open-source short film"
    );
    assert_eq!(samples[1].name, "Elephant's Dream");
    assert_eq!(samples[1].url, "https://archive.org/download/ElephantsDream/ed_hd.mp4");
    assert_eq!(samples[1].duration, Some("10:53".to_string()));
    assert_eq!(samples[2].name, "Classical Music Sample");
    assert_eq!(samples[2].media_type, "audio");
    assert_eq!(
        samples[2].url,
        "https://archive.org/download/testmp3testfile/mpthreetest.mp3"
    );
    assert_eq!(samples[2].duration, Some("0:30".to_string()));
    assert_eq!(samples[3].name, "Nature Documentary");
    assert_eq!(samples[3].url, "https://archive.org/download/night-15441/night-15441.mp4");
    assert_eq!(samples[3].duration, Some("2:15".to_string()));
    assert_eq!(samples[3].description, "Public domain nature footage");
}

#[test]
fn the_health_report_lists_the_operations() {
    let report = health_check("GStreamer 1.24.2");
    assert_eq!(report.status, "healthy");
    assert_eq!(report.service, "Rust Media Pipeline Service");
    assert_eq!(report.gstreamer_version, "GStreamer 1.24.2");
    assert_eq!(
        report.endpoints,
        vec![
            "GET /health - Health check",
            "GET /samples - List sample media",
            "POST /convert - Convert media format",
            "POST /thumbnail - Generate thumbnail",
            "POST /stream - Create streaming pipeline",
            "GET /pipelines - List active pipelines",
            "POST /pipelines - Create custom pipeline",
            "GET /pipelines/{id} - Get pipeline status",
            "DELETE /pipelines/{id} - Stop pipeline"
        ]
    );
}

#[test]
fn a_job_whose_id_is_in_use_is_not_admitted() {
    let mut registry = Registry::new();
    let first = plan_conversion_as(&convert_request(BUNNY, "webm"), "id-5".to_string()).unwrap();
    assert!(convert_media(&mut registry, first, &EngineVerdict::Accepted).is_ok());

    let second = plan_stream_as(
        &StreamRequest { source_url: BUNNY.to_string(), stream_type: "hls".to_string() },
        "id-5".to_string(),
    )
    .unwrap();
    let failure = create_stream(&mut registry, second, &EngineVerdict::Accepted).unwrap_err();
    assert_eq!(failure.status, HttpStatus::InternalServerError);
    assert_eq!(failure.body.error, "Pipeline id is already in use");
    assert_eq!(failure.body.details, None);
    assert_eq!(get_pipeline(&registry, "id-5").unwrap().description, "Convert to webm");
    assert_eq!(list_pipelines(&registry).len(), 1);

    let third = plan_stream_as(
        &StreamRequest { source_url: BUNNY.to_string(), stream_type: "hls".to_string() },
        "id-5".to_string(),
    )
    .unwrap();
    let failure = create_stream(&mut registry, third, &rejected("no hlssink")).unwrap_err();
    assert_eq!(failure.body.error, "Generated invalid streaming pipeline");
}

#[test]
fn an_analysis_is_stamped_with_the_reading() {
    let report = analyze_media_at(
        "https://e.com/v.mp4",
        Ok(MediaInfo {
            duration: None,
            width: None,
            height: None,
            bitrate: None,
            format: "unknown".to_string(),
        }),
        1000000000555000000,
    )
    .unwrap();
    assert_eq!(report.analysis_timestamp, "2001-09-09T01:46:40.555+00:00");
    assert_eq!(report.format, "unknown");

    let failure = analyze_media_at(
        "https://e.com/v.mp4",
        Err(ProbeError::EngineError("gone".to_string())),
        0,
    )
    .unwrap_err();
    assert_eq!(failure.status.code(), 422);
}

#[test]
fn custom_pipelines_get_different_ids_and_times_in_order() {
    let mut registry = Registry::new();
    let mut last = chrono::DateTime::parse_from_rfc3339("1970-01-01T00:00:00+00:00").unwrap();
    let mut ids: Vec<String> = Vec::new();
    let mut n = 0;
    while n < 10 {
        let record = create_pipeline(
            &mut registry,
            CreatePipelineRequest {
                description: format!("job {}", n),
                pipeline: format!("src{} ! sink", n),
            },
            &EngineVerdict::Accepted,
        )
        .unwrap();
        assert!(!ids.contains(&record.id));
        let created = chrono::DateTime::parse_from_rfc3339(&record.created_at).unwrap();
        assert!(created >= last);
        last = created;
        ids.push(record.id);
        n += 1;
    }
    assert_eq!(list_pipelines(&registry).len(), 10);
    for (n, id) in ids.iter().enumerate() {
        let found = get_pipeline(&registry, id).unwrap();
        assert_eq!(&found.id, id);
        assert_eq!(found.pipeline_string, format!("src{} ! sink", n));
    }
}
