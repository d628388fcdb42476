use voxtus::formats::srt::{format_segment, format_timestamp, format_transcript};
use voxtus::formats::Segment;

#[test]
fn srt_test_format_timestamp_zero() {
    assert_eq!(format_timestamp(0), "00:00:00,000");
}

#[test]
fn srt_test_format_timestamp_seconds() {
    assert_eq!(format_timestamp(5500), "00:00:05,500");
    assert_eq!(format_timestamp(59999), "00:00:59,999");
}

#[test]
fn srt_test_format_timestamp_minutes() {
    assert_eq!(format_timestamp(65500), "00:01:05,500");
    assert_eq!(format_timestamp(125000), "00:02:05,000");
}

#[test]
fn srt_test_format_timestamp_hours() {
    assert_eq!(format_timestamp(3661123), "01:01:01,123");
    assert_eq!(format_timestamp(7200000), "02:00:00,000");
}

#[test]
fn srt_test_format_timestamp_edge_cases() {
    assert_eq!(format_timestamp(999), "00:00:00,999");
    assert_eq!(format_timestamp(3599999), "00:59:59,999");
}

#[test]
fn srt_test_format_segment_basic() {
    let segment = Segment::new(0, 5200, "Hello world");
    let result = format_segment(&segment, 1);
    let expected = "1\n00:00:00,000 --> 00:00:05,200\nHello world";
    assert_eq!(result, expected);
}

#[test]
fn srt_test_format_segment_strips_whitespace() {
    let segment = Segment::new(10500, 15750, "  Text with spaces  ");
    let result = format_segment(&segment, 42);
    let expected = "42\n00:00:10,500 --> 00:00:15,750\nText with spaces";
    assert_eq!(result, expected);
}

#[test]
fn test_format_segment_long_duration() {
    let segment = Segment::new(3661500, 3665000, "Long duration subtitle");
    let result = format_segment(&segment, 1);
    assert!(result.contains("01:01:01,500 --> 01:01:05,000"));
}

#[test]
fn srt_test_format_transcript_structure() {
    let segments = vec![
        Segment::new(0, 2000, "Subtitle 1"),
        Segment::new(2000, 4000, "Subtitle 2"),
        Segment::new(4000, 6000, "Subtitle 3"),
    ];

    let result = format_transcript(&segments);

    assert!(result.contains("1\n00:00:00,000 --> 00:00:02,000\nSubtitle 1"));
    assert!(result.contains("2\n00:00:02,000 --> 00:00:04,000\nSubtitle 2"));
    assert!(result.contains("3\n00:00:04,000 --> 00:00:06,000\nSubtitle 3"));

    assert!(result.contains("\n\n"));
}

#[test]
fn srt_test_format_transcript_single() {
    let segments = vec![Segment::new(0, 5000, "Single subtitle")];
    let result = format_transcript(&segments);
    assert_eq!(result, "1\n00:00:00,000 --> 00:00:05,000\nSingle subtitle");
}

#[test]
fn srt_test_format_transcript_empty() {
    let segments: Vec<Segment> = vec![];
    let result = format_transcript(&segments);
    assert_eq!(result, "");
}

#[test]
fn srt_test_format_with_unicode() {
    let segment = Segment::new(0, 3000, "Café résumé naïve 中文 🎵");
    let result = format_segment(&segment, 1);
    assert!(result.contains("Café résumé naïve 中文 🎵"));
}

#[test]
fn test_srt_timestamp_shape_sampled() {
    let mut ms: u64 = 0;
    while ms < 100_000_000 {
        let t = format_timestamp(ms);
        let chars: Vec<char> = t.chars().collect();
        assert_eq!(chars.len(), 12);
        assert_eq!(chars[2], ':');
        assert_eq!(chars[5], ':');
        assert_eq!(chars[8], ',');
        for (i, c) in chars.iter().enumerate() {
            if i != 2 && i != 5 && i != 8 {
                assert!(c.is_ascii_digit());
            }
        }
        let minutes: u64 = t[3..5].parse().unwrap();
        let seconds: u64 = t[6..8].parse().unwrap();
        let millis: u64 = t[9..12].parse().unwrap();
        assert!(minutes < 60);
        assert!(seconds < 60);
        assert!(millis < 1000);
        ms += 977_777;
    }
}

#[test]
fn test_srt_timestamp_largest_input() {
    assert_eq!(format_timestamp(u64::MAX), "5124095576030:25:51,615");
}
