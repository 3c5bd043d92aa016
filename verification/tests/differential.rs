// The two grammars of the library, held against their regular-expression
// notation on a spread of inputs.

use regex::Regex;

use tubecast::links::is_youtube_link;
use tubecast::token::is_token_format;

const TOKEN_PATTERN: &str = r"^[A-Za-z0-9_=]+\.[A-Za-z0-9_=]+\.[A-Za-z0-9_\-+/=]*$";
const LINK_PATTERN: &str = r"(?:https?://)?(?:youtu\.be/|(?:www\.|m\.)?youtube\.com/(?:watch|v|embed)(?:\.php)?(?:\?.*v=|/))([a-zA-Z0-9_-]+)";

#[test]
fn token_format_agrees_with_its_pattern() {
    let re = Regex::new(TOKEN_PATTERN).unwrap();
    let samples = [
        "",
        "aaa.bbb.ccc",
        "aaa.bbb.",
        "aaa.bbb",
        "a.b.",
        "a.b.c",
        ".b.c",
        "a..c",
        "a.b.c.d",
        "A1_=.Z9=.x-+/=",
        "notavalidtoken",
        "aaa.bbb.c c",
        "aaa bbb.ccc.ddd",
        "aaa.bbb.ccc extra",
        "xxx.yyy.zzz",
        "ααα.bbb.ccc",
        "a.b.\n",
        "..",
        "...",
        "=._.=",
        "a-b.c.d",
        "a.b-c.d",
        "a.b.c-d",
        "a.b.c/d=e+f",
    ];
    for s in samples {
        assert_eq!(
            is_token_format(s),
            re.is_match(s),
            "token grammar disagrees with its pattern on {s:?}"
        );
    }
}

#[test]
fn link_shape_agrees_with_its_pattern() {
    let re = Regex::new(LINK_PATTERN).unwrap();
    let samples = [
        "",
        "hello",
        "https://youtu.be/xyz123",
        "http://youtu.be/a",
        "youtu.be/abc",
        "youtu.be/",
        "myoutu.be/x",
        "https://example.com/video",
        "www.youtube.com/watch?v=abc123",
        "m.youtube.com/watch?v=abc123",
        "youtube.com/watch?v=abc123",
        "youtube.com/watch?v=",
        "youtube.com/watch",
        "youtube.com/watch/",
        "youtube.com/watch/abc",
        "youtube.com/watch.php?v=x",
        "youtube.com/watch.phpx",
        "youtube.com/watch.php/xyz",
        "youtube.com/v/abc",
        "youtube.com/vwatch",
        "youtube.com/embed/abc",
        "youtube.com/embed?list=1&v=abc",
        "youtube.com/clip/abc",
        "www.youtube.com/embed/abc",
        "wwwyoutube.com/watch/abc",
        "m.youtube.com/v/abc",
        "https://www.youtube.com/watch.php?v=x",
        "https://m.youtube.com/embed?v=id",
        "http://youtube.com/watch?a=b&v=c",
        "https//youtube.com/watch?v=abc",
        "check this https://youtu.be/id out",
        "youtube.com/watch?\nv=abc",
        "youtube.com/watch?x\ny&v=abc",
        "prefix youtube.com/watch?v=tail",
        "youtu.be/ゆ",
        "https://youtu.be/xyz123?t=10",
        "youtube.com/watch?v==abc",
        "youtube.com/watch?vv=abc",
        "youtube.com/watch?v-abc",
        "http:/youtube.com/watch?v=abc",
        "https://youtube.com/watchv=abc",
    ];
    for s in samples {
        assert_eq!(
            is_youtube_link(s),
            re.is_match(s),
            "link grammar disagrees with its pattern on {s:?}"
        );
    }
}
