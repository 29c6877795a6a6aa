use media_pipeline::output::{
    choose_directory, choose_identifier, describe_output, episode_identifier, output_file_name,
    output_from_parts, NamingPolicy,
};

fn is_timestamp(text: &str) -> bool {
    let chars: Vec<char> = text.chars().collect();
    chars.len() == 15
        && chars.iter().enumerate().all(|(i, c)| if i == 8 { *c == '_' } else { c.is_ascii_digit() })
}

#[test]
fn leading_digits_are_the_identifier() {
    assert_eq!(episode_identifier("42-episode", NamingPolicy::NumericId), "42");
    assert_eq!(episode_identifier("007", NamingPolicy::NumericId), "007");
    assert_eq!(episode_identifier("2024 recap 17", NamingPolicy::NumericId), "2024");
    assert_eq!(episode_identifier("9a8", NamingPolicy::NumericId), "9");
}

#[test]
fn name_without_leading_digits_falls_back_to_a_timestamp() {
    assert!(is_timestamp(&episode_identifier("episode", NamingPolicy::NumericId)));
    assert!(is_timestamp(&episode_identifier("episode-42", NamingPolicy::NumericId)));
    assert!(is_timestamp(&episode_identifier(" 42", NamingPolicy::NumericId)));
    assert!(is_timestamp(&episode_identifier("", NamingPolicy::NumericId)));
}

#[test]
fn output_for_a_numbered_source() {
    let d = describe_output("/videos/42-episode.mp4", NamingPolicy::NumericId).unwrap();
    assert_eq!(d.stream_id, "42-episode");
    assert_eq!(d.episode_id, "42");
    assert_eq!(d.file_name, "Syntax_-_42.mp3");
    assert_eq!(std::path::Path::new(&d.path), std::path::Path::new("/videos").join("Syntax_-_42.mp3"));
    assert_eq!(std::path::Path::new(&d.parent_dir), std::path::Path::new("/videos"));
    assert!(d.path.contains("42"));
}

#[test]
fn output_for_an_unnumbered_source() {
    let d = describe_output("/videos/episode.mp4", NamingPolicy::NumericId).unwrap();
    assert_eq!(d.stream_id, "episode");
    assert!(is_timestamp(&d.episode_id));
    assert_eq!(d.file_name, format!("Syntax_-_{}.mp3", d.episode_id));
    assert_eq!(
        std::path::Path::new(&d.path),
        std::path::Path::new("/videos").join(&d.file_name)
    );
}

#[test]
fn output_lies_beside_a_source_without_directory() {
    let d = describe_output("7.mov", NamingPolicy::NumericId).unwrap();
    assert_eq!(d.episode_id, "7");
    assert_eq!(d.path, "Syntax_-_7.mp3");
}

#[test]
fn path_without_a_file_name_has_no_output() {
    assert_eq!(describe_output("", NamingPolicy::NumericId), None);
    assert_eq!(describe_output("/", NamingPolicy::Timestamp), None);
    assert_eq!(describe_output("..", NamingPolicy::NumericId), None);
}

#[test]
fn file_name_wraps_the_identifier() {
    assert_eq!(output_file_name("42"), "Syntax_-_42.mp3");
    assert_eq!(output_file_name("20240131_235959"), "Syntax_-_20240131_235959.mp3");
    assert_eq!(output_file_name(""), "Syntax_-_.mp3");
}

#[test]
fn numeric_policy_prefers_the_digits() {
    let stamp = "20240131_235959".to_string();
    assert_eq!(
        choose_identifier(NamingPolicy::NumericId, Some("42".to_string()), stamp.clone()),
        "42"
    );
    assert_eq!(choose_identifier(NamingPolicy::NumericId, None, stamp.clone()), stamp);
}

#[test]
fn timestamp_policy_ignores_the_digits() {
    let stamp = "20240131_235959".to_string();
    assert_eq!(
        choose_identifier(NamingPolicy::Timestamp, Some("42".to_string()), stamp.clone()),
        stamp
    );
    assert_eq!(choose_identifier(NamingPolicy::Timestamp, None, stamp.clone()), stamp);
    assert!(is_timestamp(&episode_identifier("42-episode", NamingPolicy::Timestamp)));
    let d = describe_output("/videos/42-episode.mp4", NamingPolicy::Timestamp).unwrap();
    assert_eq!(d.stream_id, "42-episode");
    assert!(is_timestamp(&d.episode_id));
    assert_eq!(d.file_name, format!("Syntax_-_{}.mp3", d.episode_id));
}

#[test]
fn directory_defaults_to_the_current_one() {
    assert_eq!(choose_directory(Some("/videos".to_string())), "/videos");
    assert_eq!(choose_directory(Some(String::new())), "");
    assert_eq!(choose_directory(None), ".");
}

#[test]
fn parts_with_a_stem_give_an_output() {
    let d = output_from_parts(
        Some("42-episode".to_string()),
        Some("/videos".to_string()),
        NamingPolicy::NumericId,
    )
    .unwrap();
    assert_eq!(d.stream_id, "42-episode");
    assert_eq!(d.parent_dir, "/videos");
    assert_eq!(d.episode_id, "42");
    assert_eq!(d.file_name, "Syntax_-_42.mp3");
    assert_eq!(std::path::Path::new(&d.path), std::path::Path::new("/videos").join("Syntax_-_42.mp3"));
}

#[test]
fn parts_without_a_parent_use_the_current_directory() {
    let d = output_from_parts(Some("7".to_string()), None, NamingPolicy::NumericId).unwrap();
    assert_eq!(d.parent_dir, ".");
    assert_eq!(d.file_name, "Syntax_-_7.mp3");
    assert_eq!(std::path::Path::new(&d.path), std::path::Path::new(".").join("Syntax_-_7.mp3"));
}

#[test]
fn parts_under_the_timestamp_policy_are_named_after_the_time() {
    let d = output_from_parts(Some("42-episode".to_string()), None, NamingPolicy::Timestamp)
        .unwrap();
    assert_eq!(d.stream_id, "42-episode");
    assert!(is_timestamp(&d.episode_id));
    assert_eq!(d.file_name, format!("Syntax_-_{}.mp3", d.episode_id));
}

#[test]
fn parts_without_a_stem_give_no_output() {
    assert_eq!(output_from_parts(None, Some("/videos".to_string()), NamingPolicy::NumericId), None);
    assert_eq!(output_from_parts(None, None, NamingPolicy::Timestamp), None);
}
