use voxtus::formats::json::format_transcript;
use voxtus::formats::{Metadata, Segment};

#[test]
fn test_json_structure() {
    let segments = vec![
        Segment::new(0, 2000, "Segment 1 text"),
        Segment::new(2000, 4000, "Segment 2 text"),
        Segment::new(4000, 6000, "Segment 3 text"),
    ];
    let metadata = Metadata::new(
        "Test Title",
        "test.mp3",
        Some(6000),
        "base",
        Some("en".to_string()),
    );
    let json = format_transcript(&segments, &metadata);
    let parsed: serde_json::Value = serde_json::from_str(&json).unwrap();

    assert!(parsed.get("transcript").is_some());
    assert!(parsed.get("metadata").is_some());
}

#[test]
fn test_json_transcript_array() {
    let segments = vec![
        Segment::new(0, 2000, "Segment 1 text"),
        Segment::new(2000, 4000, "Segment 2 text"),
        Segment::new(4000, 6000, "Segment 3 text"),
    ];
    let metadata = Metadata::new(
        "Test Title",
        "test.mp3",
        Some(6000),
        "base",
        Some("en".to_string()),
    );
    let json = format_transcript(&segments, &metadata);
    let parsed: serde_json::Value = serde_json::from_str(&json).unwrap();

    let transcript = parsed.get("transcript").unwrap().as_array().unwrap();
    assert_eq!(transcript.len(), 3);

    let first = &transcript[0];
    assert_eq!(first.get("id").unwrap().as_u64().unwrap(), 1);
    assert_eq!(first.get("start").unwrap().as_f64().unwrap(), 0.0);
    assert_eq!(first.get("end").unwrap().as_f64().unwrap(), 2.0);
    assert_eq!(
        first.get("text").unwrap().as_str().unwrap(),
        "Segment 1 text"
    );
}

#[test]
fn test_json_metadata() {
    let segments = vec![
        Segment::new(0, 2000, "Segment 1 text"),
        Segment::new(2000, 4000, "Segment 2 text"),
        Segment::new(4000, 6000, "Segment 3 text"),
    ];
    let metadata = Metadata::new(
        "Test Title",
        "test.mp3",
        Some(6000),
        "base",
        Some("en".to_string()),
    );
    let json = format_transcript(&segments, &metadata);
    let parsed: serde_json::Value = serde_json::from_str(&json).unwrap();

    let md = parsed.get("metadata").unwrap();
    assert_eq!(md.get("title").unwrap().as_str().unwrap(), "Test Title");
    assert_eq!(md.get("source").unwrap().as_str().unwrap(), "test.mp3");
    assert_eq!(md.get("duration").unwrap().as_f64().unwrap(), 6.0);
    assert_eq!(md.get("model").unwrap().as_str().unwrap(), "base");
    assert_eq!(md.get("language").unwrap().as_str().unwrap(), "en");
}

#[test]
fn test_json_segment_ids_sequential() {
    let segments = vec![
        Segment::new(0, 2000, "Segment 1 text"),
        Segment::new(2000, 4000, "Segment 2 text"),
        Segment::new(4000, 6000, "Segment 3 text"),
    ];
    let metadata = Metadata::new(
        "Test Title",
        "test.mp3",
        Some(6000),
        "base",
        Some("en".to_string()),
    );
    let json = format_transcript(&segments, &metadata);
    let parsed: serde_json::Value = serde_json::from_str(&json).unwrap();

    let transcript = parsed.get("transcript").unwrap().as_array().unwrap();
    for (i, segment) in transcript.iter().enumerate() {
        assert_eq!(segment.get("id").unwrap().as_u64().unwrap(), (i + 1) as u64);
    }
}

#[test]
fn test_json_with_unicode() {
    let segments = vec![Segment::new(0, 3000, "Café résumé 中文 🎵")];
    let metadata = Metadata::new(
        "Unicode Test",
        "test.mp3",
        Some(3000),
        "tiny",
        Some("zh".to_string()),
    );

    let json = format_transcript(&segments, &metadata);
    assert!(json.contains("Café résumé 中文 🎵"));
    assert!(json.contains("\"language\": \"zh\""));
}

#[test]
fn test_json_with_null_duration() {
    let segments = vec![Segment::new(0, 5000, "Test")];
    let metadata = Metadata::new("Test", "test.mp3", None, "tiny", Some("en".to_string()));

    let json = format_transcript(&segments, &metadata);
    let parsed: serde_json::Value = serde_json::from_str(&json).unwrap();

    assert!(
        parsed
            .get("metadata")
            .unwrap()
            .get("duration")
            .unwrap()
            .is_null()
    );
}

#[test]
fn test_json_default_language() {
    let segments = vec![Segment::new(0, 5000, "Test")];
    let metadata = Metadata::new("Test", "test.mp3", Some(5000), "tiny", None);

    let json = format_transcript(&segments, &metadata);
    let parsed: serde_json::Value = serde_json::from_str(&json).unwrap();

    assert_eq!(
        parsed
            .get("metadata")
            .unwrap()
            .get("language")
            .unwrap()
            .as_str()
            .unwrap(),
        "en"
    );
}

#[test]
fn test_json_empty_segments() {
    let segments: Vec<Segment> = vec![];
    let metadata = Metadata::new(
        "Empty",
        "test.mp3",
        Some(0),
        "tiny",
        Some("en".to_string()),
    );

    let json = format_transcript(&segments, &metadata);
    let parsed: serde_json::Value = serde_json::from_str(&json).unwrap();

    let transcript = parsed.get("transcript").unwrap().as_array().unwrap();
    assert!(transcript.is_empty());
}

#[test]
fn test_json_escapes_quotes_and_newlines() {
    let segments = vec![Segment::new(0, 1000, "say \"hi\"\nback\\slash")];
    let metadata = Metadata::new("T", "s", None, "tiny", None);
    let json = format_transcript(&segments, &metadata);
    let parsed: serde_json::Value = serde_json::from_str(&json).unwrap();
    let text = parsed.get("transcript").unwrap().as_array().unwrap()[0]
        .get("text")
        .unwrap()
        .as_str()
        .unwrap()
        .to_string();
    assert_eq!(text, "say \"hi\"\nback\\slash");
}

#[test]
fn test_json_exact_document() {
    let segments = vec![Segment::new(0, 5200, "Hello")];
    let metadata = Metadata::new("T", "s", Some(5200), "tiny", Some("en".to_string()));
    let json = format_transcript(&segments, &metadata);
    let expected = "{
  \"transcript\": [
    {
      \"id\": 1,
      \"start\": 0.0,
      \"end\": 5.2,
      \"text\": \"Hello\"
    }
  ],
  \"metadata\": {
    \"title\": \"T\",
    \"source\": \"s\",
    \"duration\": 5.2,
    \"model\": \"tiny\",
    \"language\": \"en\"
  }
}";
    assert_eq!(json, expected);
}
