use media_pipeline::duration::DurationFault;
use media_pipeline::probe::{
    duration_query, get_metadata, get_video_path, metadata_query, MetadataError, MetadataResult,
    OutputStream, ToolQuery, ToolReply, ToolSearch,
};

fn found(text: &str) -> ToolReply {
    ToolReply::Found(text.to_string())
}

#[test]
fn metadata_query_arguments() {
    assert_eq!(
        metadata_query("/media/in.mp4"),
        vec![
            "-v",
            "quiet",
            "-print_format",
            "json",
            "-show_chapters",
            "-show_format",
            "-show_streams",
            "-loglevel",
            "error",
            "/media/in.mp4"
        ]
    );
}

#[test]
fn duration_query_arguments() {
    assert_eq!(
        duration_query("/media/in.mp4"),
        vec![
            "-v",
            "error",
            "-show_entries",
            "format=duration",
            "-of",
            "default=noprint_wrappers=1:nokey=1",
            "/media/in.mp4"
        ]
    );
}

#[test]
fn output_is_returned_verbatim() {
    let result = get_metadata(b"{\"format\": {}}\n".to_vec(), "avertissement: \u{e9}".as_bytes().to_vec());
    assert_eq!(
        result,
        Ok(MetadataResult {
            stdout: "{\"format\": {}}\n".to_string(),
            stderr: "avertissement: \u{e9}".to_string(),
        })
    );
}

fn encoding_fault(result: Result<MetadataResult, MetadataError>) -> (OutputStream, String) {
    match result {
        Err(MetadataError::InvalidUtf8 { stream, reason }) => (stream, reason),
        other => panic!("expected an encoding error, got {:?}", other),
    }
}

#[test]
fn output_that_is_not_utf8_is_an_encoding_error() {
    let (stream, reason) = encoding_fault(get_metadata(vec![0xff], Vec::new()));
    assert_eq!(stream, OutputStream::Stdout);
    assert_eq!(reason, String::from_utf8(vec![0xff]).unwrap_err().to_string());
    let (stream, reason) = encoding_fault(get_metadata(b"{}".to_vec(), vec![0x61, 0x80]));
    assert_eq!(stream, OutputStream::Stderr);
    assert_eq!(reason, String::from_utf8(vec![0x61, 0x80]).unwrap_err().to_string());
    let (stream, _) = encoding_fault(get_metadata(vec![0xc3, 0x28], vec![0x80]));
    assert_eq!(stream, OutputStream::Stdout);
    assert_eq!(get_metadata(Vec::new(), Vec::new()).map(|m| m.stdout), Ok(String::new()));
}

#[test]
fn encoding_error_text_names_the_stream_and_the_reason() {
    let reason = String::from_utf8(vec![0xff]).unwrap_err().to_string();
    assert_eq!(
        get_metadata(vec![0xff], Vec::new()).unwrap_err().message(),
        format!("Failed to parse ffprobe output as UTF-8: {}", reason)
    );
    assert_eq!(
        get_metadata(Vec::new(), vec![0xff]).unwrap_err().message(),
        format!("Failed to parse ffprobe error output as UTF-8: {}", reason)
    );
}

#[test]
fn video_path_is_a_file_address() {
    assert_eq!(get_video_path("/media/in.mp4"), "file:///media/in.mp4");
    assert_eq!(get_video_path(""), "file://");
}

#[test]
fn search_path_comes_first() {
    let search = ToolSearch::start();
    assert_eq!(search.query(), Some(ToolQuery::SearchPath("ffprobe".to_string())));
    assert_eq!(search.ffprobe_path(), None);
    let search = search.answer(found("/snap/bin/ffprobe"));
    assert_eq!(search.query(), None);
    assert_eq!(search.ffprobe_path(), Some(Ok("/snap/bin/ffprobe".to_string())));
}

#[test]
fn common_locations_come_second_in_order() {
    let expected = [
        "/usr/bin/ffprobe",
        "/usr/local/bin/ffprobe",
        "/opt/homebrew/bin/ffprobe",
        "C:\\Program Files\\ffmpeg\\bin\\ffprobe.exe",
    ];
    for hit in 0..expected.len() {
        let mut search = ToolSearch::start().answer(ToolReply::Missing);
        for candidate in expected.iter().take(hit) {
            assert_eq!(search.query(), Some(ToolQuery::FileExists(candidate.to_string())));
            search = search.answer(ToolReply::Missing);
        }
        assert_eq!(search.query(), Some(ToolQuery::FileExists(expected[hit].to_string())));
        let search = search.answer(found("anything"));
        assert_eq!(search.query(), None);
        assert_eq!(search.ffprobe_path(), Some(Ok(expected[hit].to_string())));
    }
}

fn exhaust_locations() -> ToolSearch {
    let mut search = ToolSearch::start().answer(ToolReply::Missing);
    for _ in 0..4 {
        search = search.answer(ToolReply::Missing);
    }
    search
}

#[test]
fn override_comes_last_and_must_name_a_file() {
    let search = exhaust_locations();
    assert_eq!(search.query(), Some(ToolQuery::Environment("FFPROBE_PATH".to_string())));
    let search = search.answer(found("/custom/ffprobe"));
    assert_eq!(search.query(), Some(ToolQuery::FileExists("/custom/ffprobe".to_string())));
    assert_eq!(search.ffprobe_path(), None);
    let hit = search.answer(found(""));
    assert_eq!(hit.ffprobe_path(), Some(Ok("/custom/ffprobe".to_string())));

    let search = exhaust_locations().answer(found("/custom/ffprobe"));
    let miss = search.answer(ToolReply::Missing);
    assert_eq!(miss.query(), None);
    assert_eq!(miss.ffprobe_path(), Some(Err(MetadataError::ToolNotFound)));
}

#[test]
fn tool_is_not_found_where_nothing_answers() {
    let search = exhaust_locations().answer(ToolReply::Missing);
    assert_eq!(search.query(), None);
    assert_eq!(search.ffprobe_path(), Some(Err(MetadataError::ToolNotFound)));
}

#[test]
fn finished_search_ignores_further_answers() {
    let search = ToolSearch::start().answer(found("/bin/ffprobe")).answer(ToolReply::Missing);
    assert_eq!(search.ffprobe_path(), Some(Ok("/bin/ffprobe".to_string())));
    let search = exhaust_locations().answer(ToolReply::Missing).answer(found("/bin/ffprobe"));
    assert_eq!(search.ffprobe_path(), Some(Err(MetadataError::ToolNotFound)));
}

#[test]
fn metadata_error_messages() {
    assert_eq!(MetadataError::ToolNotFound.message(), "ffprobe not found");
    assert_eq!(
        MetadataError::CommandFailed("No such file or directory (os error 2)".to_string()).message(),
        "Failed to execute ffprobe: No such file or directory (os error 2)"
    );
    assert_eq!(
        MetadataError::InvalidUtf8 { stream: OutputStream::Stdout, reason: "bad byte".to_string() }
            .message(),
        "Failed to parse ffprobe output as UTF-8: bad byte"
    );
    assert_eq!(
        MetadataError::InvalidUtf8 { stream: OutputStream::Stderr, reason: "bad byte".to_string() }
            .message(),
        "Failed to parse ffprobe error output as UTF-8: bad byte"
    );
    assert_eq!(
        MetadataError::OutputParseError(DurationFault::NotANumber).message(),
        "Failed to parse duration: invalid float literal"
    );
    assert_eq!(
        MetadataError::OutputParseError(DurationFault::Zero).message(),
        "Failed to parse duration: duration is zero"
    );
}
