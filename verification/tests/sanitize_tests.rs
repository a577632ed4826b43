use ax_notes::models::CreateNoteRequest;
use ax_notes::sanitize::{contains_script_tag, escape_html, sanitize_note};

fn note(title: &str, content: &str) -> CreateNoteRequest {
    CreateNoteRequest { title: title.to_string(), content: content.to_string() }
}

#[test]
fn script_tag_is_escaped() {
    let out = escape_html("<script>alert('miaou')</script>Normal");
    assert!(!out.contains("<script>"));
    assert_eq!(out, "&lt;script&gt;alert(&#x27;miaou&#x27;)&lt;/script&gt;Normal");
}

#[test]
fn escape_covers_each_special_character() {
    assert_eq!(escape_html("a&b"), "a&amp;b");
    assert_eq!(escape_html("\"q\""), "&quot;q&quot;");
    assert_eq!(escape_html("x > y"), "x &gt; y");
    assert_eq!(escape_html(""), "");
    assert_eq!(escape_html("plain text é"), "plain text é");
}

#[test]
fn script_tag_is_found() {
    assert!(contains_script_tag("<script>"));
    assert!(contains_script_tag("ab<script>cd"));
    assert!(!contains_script_tag("<scrip>"));
    assert!(!contains_script_tag("<SCRIPT>"));
    assert!(!contains_script_tag(""));
    assert!(!contains_script_tag("<scrip"));
    assert!(contains_script_tag("é<script>"));
}

#[test]
fn stored_xss_note_is_cleaned() {
    let clean = sanitize_note(note("XSS", "<script>alert('miaou')</script>Normal"));
    assert_eq!(clean.title, "XSS");
    assert!(!clean.content.contains("<script>"));
    assert!(clean.content.ends_with("Normal"));
}

#[test]
fn ordinary_note_is_stored_as_sent() {
    let clean = sanitize_note(note("a&b <i>", "don't & \"quote\" <b>bold</b>"));
    assert_eq!(clean.title, "a&b <i>");
    assert_eq!(clean.content, "don't & \"quote\" <b>bold</b>");
}

#[test]
fn resaving_a_stored_note_keeps_it() {
    let once = sanitize_note(note("t", "<script>x</script> & y"));
    let twice = sanitize_note(note("t", &once.content));
    assert_eq!(once.content, twice.content);
}
