use tubecast::links::is_youtube_link;
use tubecast::token::is_token_format;

#[test]
fn token_accepts_three_segments() {
    assert!(is_token_format("aaa.bbb.ccc"));
}

#[test]
fn token_accepts_empty_signature() {
    assert!(is_token_format("aaa.bbb."));
}

#[test]
fn token_accepts_signature_symbols() {
    assert!(is_token_format("A1_=.Z9=.x-+/="));
}

#[test]
fn token_rejects_empty() {
    assert!(!is_token_format(""));
}

#[test]
fn token_rejects_plain_word() {
    assert!(!is_token_format("notavalidtoken"));
}

#[test]
fn token_rejects_two_segments() {
    assert!(!is_token_format("aaa.bbb"));
}

#[test]
fn token_rejects_empty_first_segment() {
    assert!(!is_token_format(".bbb.ccc"));
}

#[test]
fn token_rejects_empty_second_segment() {
    assert!(!is_token_format("aaa..ccc"));
}

#[test]
fn token_rejects_dot_in_signature() {
    assert!(!is_token_format("a.b.c.d"));
}

#[test]
fn token_rejects_space_in_signature() {
    assert!(!is_token_format("aaa.bbb.c c"));
}

#[test]
fn token_rejects_non_ascii() {
    assert!(!is_token_format("ααα.bbb.ccc"));
}

#[test]
fn link_accepts_short_form_with_scheme() {
    assert!(is_youtube_link("https://youtu.be/xyz123"));
}

#[test]
fn link_accepts_short_form_http() {
    assert!(is_youtube_link("http://youtu.be/a"));
}

#[test]
fn link_accepts_short_form_without_scheme() {
    assert!(is_youtube_link("youtu.be/abc"));
}

#[test]
fn link_accepts_watch_query() {
    assert!(is_youtube_link("www.youtube.com/watch?v=abc123"));
}

#[test]
fn link_accepts_mobile_host() {
    assert!(is_youtube_link("https://m.youtube.com/v/abc"));
}

#[test]
fn link_accepts_embed_path() {
    assert!(is_youtube_link("youtube.com/embed/abc"));
}

#[test]
fn link_accepts_php_suffix() {
    assert!(is_youtube_link("https://www.youtube.com/watch.php?v=x"));
}

#[test]
fn link_accepts_query_with_other_parameters() {
    assert!(is_youtube_link("youtube.com/watch?foo=bar&v=abc"));
}

#[test]
fn link_accepts_occurrence_inside_text() {
    assert!(is_youtube_link("check this https://youtu.be/id out"));
}

#[test]
fn link_rejects_other_host() {
    assert!(!is_youtube_link("https://example.com/video"));
}

#[test]
fn link_rejects_watch_without_video() {
    assert!(!is_youtube_link("youtube.com/watch"));
}

#[test]
fn link_rejects_short_form_without_id() {
    assert!(!is_youtube_link("youtu.be/"));
}

#[test]
fn link_rejects_query_without_id() {
    assert!(!is_youtube_link("youtube.com/watch?v="));
}

#[test]
fn link_rejects_plain_text() {
    assert!(!is_youtube_link("hello"));
}

#[test]
fn link_rejects_newline_in_query() {
    assert!(!is_youtube_link("youtube.com/watch?\nv=abc"));
}

#[test]
fn link_rejects_wrong_path_verb() {
    assert!(!is_youtube_link("www.youtube.com/clip/abc"));
}
