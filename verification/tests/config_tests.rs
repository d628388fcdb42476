use voxtus::config::{
    expand_tilde, get_final_name, is_url, parse_formats, strip_txt_extension, validate_model,
    OutputFormat,
};
use voxtus::error::Error;

#[test]
fn test_parse_single_format() {
    let formats = parse_formats("txt", false).unwrap();
    assert_eq!(formats, vec![OutputFormat::Txt]);
}

#[test]
fn test_parse_multiple_formats() {
    let formats = parse_formats("txt,json", false).unwrap();
    assert_eq!(formats, vec![OutputFormat::Txt, OutputFormat::Json]);
}

#[test]
fn test_parse_formats_with_spaces() {
    let formats = parse_formats("txt, json", false).unwrap();
    assert_eq!(formats, vec![OutputFormat::Txt, OutputFormat::Json]);
}

#[test]
fn test_parse_formats_case_insensitive() {
    let formats = parse_formats("TXT,JSON", false).unwrap();
    assert_eq!(formats, vec![OutputFormat::Txt, OutputFormat::Json]);
}

#[test]
fn test_invalid_format_error() {
    let result = parse_formats("invalid", false);
    assert!(matches!(result, Err(Error::InvalidFormat(_))));
}

#[test]
fn test_multiple_formats_with_stdout_error() {
    let result = parse_formats("txt,json", true);
    assert!(matches!(result, Err(Error::MultipleFormatsWithStdout)));
}

#[test]
fn test_single_format_with_stdout_allowed() {
    let formats = parse_formats("json", true).unwrap();
    assert_eq!(formats, vec![OutputFormat::Json]);
}

#[test]
fn test_parse_formats_all_four() {
    let formats = parse_formats("srt,vtt,txt,json", false).unwrap();
    assert_eq!(
        formats,
        vec![OutputFormat::Srt, OutputFormat::Vtt, OutputFormat::Txt, OutputFormat::Json]
    );
}

#[test]
fn test_parse_formats_empty_spec_accepted() {
    assert_eq!(parse_formats("", false).unwrap(), vec![]);
    assert_eq!(parse_formats("  ,  ", false).unwrap(), vec![]);
}

#[test]
fn test_parse_formats_reports_first_bad_token() {
    match parse_formats("txt,bogus,json", false) {
        Err(Error::InvalidFormat(t)) => assert_eq!(t, "bogus"),
        other => panic!("expected InvalidFormat, got {:?}", other),
    }
}

#[test]
fn test_validate_model_valid() {
    assert_eq!(validate_model("tiny").unwrap(), "tiny");
    assert_eq!(validate_model("small").unwrap(), "small");
    assert_eq!(validate_model("large-v3").unwrap(), "large-v3");
}

#[test]
fn test_validate_model_normalizes_large() {
    assert_eq!(validate_model("large").unwrap(), "large-v3");
}

#[test]
fn test_validate_model_invalid() {
    let result = validate_model("invalid-model");
    assert!(matches!(result, Err(Error::InvalidModel(_))));
}

#[test]
fn test_validate_model_whole_catalog() {
    let names = [
        "tiny", "tiny.en", "base", "base.en", "small", "small.en", "medium", "medium.en",
        "large-v2", "large-v3",
    ];
    for name in names {
        assert_eq!(validate_model(name).unwrap(), name);
    }
}

#[test]
fn test_strip_txt_extension() {
    assert_eq!(strip_txt_extension("my_file.txt"), "my_file");
    assert_eq!(strip_txt_extension("my_file"), "my_file");
    assert_eq!(strip_txt_extension("my_file.json"), "my_file.json");
}

#[test]
fn test_strip_txt_extension_once_only() {
    assert_eq!(strip_txt_extension("notes.txt.txt"), "notes.txt");
}

#[test]
fn test_get_final_name_uses_custom_name() {
    assert_eq!(
        get_final_name("original_title", Some("custom_name")),
        "custom_name"
    );
}

#[test]
fn test_get_final_name_uses_title_when_no_custom() {
    assert_eq!(get_final_name("original_title", None), "original_title");
}

#[test]
fn test_get_final_name_empty_custom_uses_title() {
    assert_eq!(get_final_name("original_title", Some("")), "original_title");
}

#[test]
fn test_expand_tilde() {
    let expanded = expand_tilde("~/test", Some("/home/tester"));
    assert_eq!(expanded, "/home/tester/test");
    assert!(!expanded.starts_with('~'));
}

#[test]
fn test_expand_tilde_no_tilde() {
    let path = "/absolute/path";
    assert_eq!(expand_tilde(path, Some("/home/tester")), path);
}

#[test]
fn test_expand_tilde_without_home() {
    assert_eq!(expand_tilde("~/test", None), "~/test");
}

#[test]
fn test_is_url() {
    assert!(is_url("https://example.com/video.mp4"));
    assert!(is_url("http://localhost:8080/file.mp3"));
    assert!(!is_url("/local/path/file.mp3"));
    assert!(!is_url("file.mp3"));
}

#[test]
fn test_output_format_extension() {
    assert_eq!(OutputFormat::Txt.extension(), "txt");
    assert_eq!(OutputFormat::Json.extension(), "json");
    assert_eq!(OutputFormat::Srt.extension(), "srt");
    assert_eq!(OutputFormat::Vtt.extension(), "vtt");
}
