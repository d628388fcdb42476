use voxtus::formats::{Metadata, Segment, Transcript};

#[test]
fn test_segment_creation() {
    let segment = Segment::new(1500, 3000, "Test text");
    assert_eq!(segment.start, 1500);
    assert_eq!(segment.end, 3000);
    assert_eq!(segment.text, "Test text");
}

#[test]
fn test_metadata_creation() {
    let metadata = Metadata::new(
        "Title",
        "source.mp3",
        Some(60000),
        "small",
        Some("en".to_string()),
    );
    assert_eq!(metadata.title, "Title");
    assert_eq!(metadata.source, "source.mp3");
    assert_eq!(metadata.duration, Some(60000));
    assert_eq!(metadata.model, "small");
    assert_eq!(metadata.language, Some("en".to_string()));
}

#[test]
fn test_transcript_to_txt() {
    let transcript = Transcript::new(
        vec![
            Segment::new(0, 5200, "Hello world"),
            Segment::new(5200, 10500, "This is a test"),
        ],
        Metadata::new("Test Video", "test.mp3", Some(10500), "tiny", Some("en".to_string())),
    );
    let output = transcript.to_txt();
    assert!(output.contains("[0.00 - 5.20]: Hello world"));
    assert!(output.contains("[5.20 - 10.50]: This is a test"));
}

#[test]
fn test_transcript_to_json() {
    let transcript = Transcript::new(
        vec![
            Segment::new(0, 5200, "Hello world"),
            Segment::new(5200, 10500, "This is a test"),
        ],
        Metadata::new("Test Video", "test.mp3", Some(10500), "tiny", Some("en".to_string())),
    );
    let output = transcript.to_json();
    assert!(output.contains("\"transcript\""));
    assert!(output.contains("\"metadata\""));
    assert!(output.contains("Hello world"));
}

#[test]
fn test_transcript_to_srt() {
    let transcript = Transcript::new(
        vec![
            Segment::new(0, 5200, "Hello world"),
            Segment::new(5200, 10500, "This is a test"),
        ],
        Metadata::new("Test Video", "test.mp3", Some(10500), "tiny", Some("en".to_string())),
    );
    let output = transcript.to_srt();
    assert!(output.contains("00:00:00,000 --> 00:00:05,200"));
    assert!(output.contains("Hello world"));
}

#[test]
fn test_transcript_to_vtt() {
    let transcript = Transcript::new(
        vec![
            Segment::new(0, 5200, "Hello world"),
            Segment::new(5200, 10500, "This is a test"),
        ],
        Metadata::new("Test Video", "test.mp3", Some(10500), "tiny", Some("en".to_string())),
    );
    let output = transcript.to_vtt();
    assert!(output.starts_with("WEBVTT"));
    assert!(output.contains("00:00:00.000 --> 00:00:05.200"));
    assert!(output.contains("Hello world"));
}

#[test]
fn test_format_round_trip_scenario() {
    let transcript = Transcript::new(
        vec![
            Segment::new(0, 5200, "Hello world"),
            Segment::new(5200, 10500, "This is a test"),
        ],
        Metadata::new("Test Video", "test.mp3", Some(10500), "tiny", Some("en".to_string())),
    );

    assert_eq!(
        transcript.to_txt(),
        "[0.00 - 5.20]: Hello world\n[5.20 - 10.50]: This is a test"
    );

    let srt = transcript.to_srt();
    assert!(srt.starts_with("1\n00:00:00,000 --> 00:00:05,200\nHello world"));

    let vtt = transcript.to_vtt();
    assert!(vtt.starts_with("WEBVTT"));
    assert!(vtt.contains("00:00:00.000 --> 00:00:05.200\nHello world"));

    let parsed: serde_json::Value = serde_json::from_str(&transcript.to_json()).unwrap();
    assert_eq!(
        parsed.get("transcript").unwrap().as_array().unwrap().len(),
        2
    );
    assert_eq!(
        parsed
            .get("metadata")
            .unwrap()
            .get("language")
            .unwrap()
            .as_str()
            .unwrap(),
        "en"
    );
}

#[test]
fn test_empty_transcript_renders() {
    let transcript = Transcript::new(
        vec![],
        Metadata::new("Empty", "test.mp3", None, "tiny", None),
    );
    assert_eq!(transcript.to_txt(), "");
    assert_eq!(transcript.to_srt(), "");
    let vtt = transcript.to_vtt();
    assert!(vtt.starts_with("WEBVTT"));
    assert!(!vtt.contains(" --> "));
    let parsed: serde_json::Value = serde_json::from_str(&transcript.to_json()).unwrap();
    assert!(parsed.get("transcript").unwrap().as_array().unwrap().is_empty());
}
