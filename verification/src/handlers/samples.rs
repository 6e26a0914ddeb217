//! The list of sample media and the health report.

use crate::models::pipeline::optional_text;
use crate::models::responses::SampleMedia;
use vstd::prelude::*;

verus! {

/// What the service reports of itself.
#[derive(Debug)]
pub struct HealthReport {
    pub status: String,
    pub service: String,
    pub gstreamer_version: String,
    pub endpoints: Vec<String>,
}

/// The mathematical value of a [`SampleMedia`].
pub struct Sample {
    pub name: Seq<char>,
    pub url: Seq<char>,
    pub media_type: Seq<char>,
    pub duration: Option<Seq<char>>,
    pub description: Seq<char>,
}

impl View for SampleMedia {
    type V = Sample;

    open spec fn view(&self) -> Sample {
        Sample {
            name: self.name@,
            url: self.url@,
            media_type: self.media_type@,
            duration: optional_text(self.duration),
            description: self.description@,
        }
    }
}

/// The sample media: public files to try the service with.
pub open spec fn samples() -> Seq<Sample> {
    seq![
        Sample {
            name: "Big Buck Bunny"@,
            url: "https://commondatastorage.googleapis.com/gtv-videos-bucket/sample/BigBuckBunny.mp4"@,
            media_type: "video"@,
            duration: Some("10:34"@),
            description: "Blender Foundation's famous open-source short film"@,
        },
        Sample {
            name: "Elephant's Dream"@,
            url: "https://archive.org/download/ElephantsDream/ed_hd.mp4"@,
            media_type: "video"@,
            duration: Some("10:53"@),
            description: "First open movie made entirely with Free Software"@,
        },
        Sample {
            name: "Classical Music Sample"@,
            url: "https://archive.org/download/testmp3testfile/mpthreetest.mp3"@,
            media_type: "audio"@,
            duration: Some("0:30"@),
            description: "Public domain classical music sample"@,
        },
        Sample {
            name: "Nature Documentary"@,
            url: "https://archive.org/download/night-15441/night-15441.mp4"@,
            media_type: "video"@,
            duration: Some("2:15"@),
            description: "Public domain nature footage"@,
        },
    ]
}

/// The lines that describe the operations of the service.
pub open spec fn endpoint_lines() -> Seq<Seq<char>> {
    seq![
        "GET /health - Health check"@,
        "GET /samples - List sample media"@,
        "POST /convert - Convert media format"@,
        "POST /thumbnail - Generate thumbnail"@,
        "POST /stream - Create streaming pipeline"@,
        "GET /pipelines - List active pipelines"@,
        "POST /pipelines - Create custom pipeline"@,
        "GET /pipelines/{id} - Get pipeline status"@,
        "DELETE /pipelines/{id} - Stop pipeline"@,
    ]
}

/// One sample.
fn sample(name: &str, url: &str, media_type: &str, duration: &str, description: &str) -> (s:
    SampleMedia)
    ensures
        s@ == (Sample {
            name: name@,
            url: url@,
            media_type: media_type@,
            duration: Some(duration@),
            description: description@,
        }),
{
    SampleMedia {
        name: name.to_owned(),
        url: url.to_owned(),
        media_type: media_type.to_owned(),
        duration: Some(duration.to_owned()),
        description: description.to_owned(),
    }
}

/// The sample media, in their fixed order.
pub fn list_sample_media() -> (list: Vec<SampleMedia>)
    ensures
        list@.len() == samples().len(),
        forall|i: int| 0 <= i < list@.len() ==> (#[trigger] list@[i])@ == samples()[i],
{
    let mut list: Vec<SampleMedia> = Vec::new();
    list.push(
        sample(
            "Big Buck Bunny",
            "https://commondatastorage.googleapis.com/gtv-videos-bucket/sample/BigBuckBunny.mp4",
            "video",
            "10:34",
            "Blender Foundation's famous open-source short film",
        ),
    );
    list.push(
        sample(
            "Elephant's Dream",
            "https://archive.org/download/ElephantsDream/ed_hd.mp4",
            "video",
            "10:53",
            "First open movie made entirely with Free Software",
        ),
    );
    list.push(
        sample(
            "Classical Music Sample",
            "https://archive.org/download/testmp3testfile/mpthreetest.mp3",
            "audio",
            "0:30",
            "Public domain classical music sample",
        ),
    );
    list.push(
        sample(
            "Nature Documentary",
            "https://archive.org/download/night-15441/night-15441.mp4",
            "video",
            "2:15",
            "Public domain nature footage",
        ),
    );
    list
}

/// The health report, given the version text of the engine.
pub fn health_check(engine_version: &str) -> (report: HealthReport)
    ensures
        report.status@ == "healthy"@,
        report.service@ == "Rust Media Pipeline Service"@,
        report.gstreamer_version@ == engine_version@,
        report.endpoints@.len() == endpoint_lines().len(),
        forall|i: int|
            0 <= i < report.endpoints@.len() ==> (#[trigger] report.endpoints@[i])@
                == endpoint_lines()[i],
{
    let mut endpoints: Vec<String> = Vec::new();
    endpoints.push(String::from_str("GET /health - Health check"));
    endpoints.push(String::from_str("GET /samples - List sample media"));
    endpoints.push(String::from_str("POST /convert - Convert media format"));
    endpoints.push(String::from_str("POST /thumbnail - Generate thumbnail"));
    endpoints.push(String::from_str("POST /stream - Create streaming pipeline"));
    endpoints.push(String::from_str("GET /pipelines - List active pipelines"));
    endpoints.push(String::from_str("POST /pipelines - Create custom pipeline"));
    endpoints.push(String::from_str("GET /pipelines/{id} - Get pipeline status"));
    endpoints.push(String::from_str("DELETE /pipelines/{id} - Stop pipeline"));
    HealthReport {
        status: String::from_str("healthy"),
        service: String::from_str("Rust Media Pipeline Service"),
        gstreamer_version: engine_version.to_owned(),
        endpoints,
    }
}

} // verus!
