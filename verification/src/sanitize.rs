use vstd::prelude::*;
use crate::models::CreateNoteRequest;

verus! {

/// The HTML text escape of one character: `&`, `<`, `>`, `"` and `'` become
/// entities, every other character stays.
pub open spec fn escape_char(c: char) -> Seq<char> {
    if c == '&' {
        seq!['&', 'a', 'm', 'p', ';']
    } else if c == '<' {
        seq!['&', 'l', 't', ';']
    } else if c == '>' {
        seq!['&', 'g', 't', ';']
    } else if c == '"' {
        seq!['&', 'q', 'u', 'o', 't', ';']
    } else if c == '\'' {
        seq!['&', '#', 'x', '2', '7', ';']
    } else {
        seq![c]
    }
}

/// The HTML text escape of a text, character by character.
pub open spec fn escape_html_spec(s: Seq<char>) -> Seq<char>
    decreases s.len(),
{
    if s.len() == 0 {
        seq![]
    } else {
        escape_html_spec(s.drop_last()) + escape_char(s.last())
    }
}

/// The text begins with `prefix`.
pub open spec fn starts_with(s: Seq<char>, prefix: Seq<char>) -> bool {
    s.len() >= prefix.len() && s.subrange(0, prefix.len() as int) == prefix
}

/// Reads HTML text back: the entities `&amp;`, `&lt;`, `&gt;`, `&quot;` and
/// `&#x27;` stand for `&`, `<`, `>`, `"` and `'`; every other character
/// stands for itself.
pub open spec fn unescape_html(s: Seq<char>) -> Seq<char>
    decreases s.len(),
{
    if s.len() == 0 {
        seq![]
    } else if starts_with(s, seq!['&', 'a', 'm', 'p', ';']) {
        seq!['&'] + unescape_html(s.skip(5))
    } else if starts_with(s, seq!['&', 'l', 't', ';']) {
        seq!['<'] + unescape_html(s.skip(4))
    } else if starts_with(s, seq!['&', 'g', 't', ';']) {
        seq!['>'] + unescape_html(s.skip(4))
    } else if starts_with(s, seq!['&', 'q', 'u', 'o', 't', ';']) {
        seq!['"'] + unescape_html(s.skip(6))
    } else if starts_with(s, seq!['&', '#', 'x', '2', '7', ';']) {
        seq!['\''] + unescape_html(s.skip(6))
    } else {
        seq![s[0]] + unescape_html(s.skip(1))
    }
}

/// Escaping works character by character from the front as well.
proof fn escape_front(c: char, s: Seq<char>)
    ensures
        escape_html_spec(seq![c] + s) == escape_char(c) + escape_html_spec(s),
    decreases s.len(),
{
    if s.len() == 0 {
        assert((seq![c] + s).drop_last() =~= Seq::<char>::empty());
        assert(escape_html_spec(Seq::<char>::empty()) =~= Seq::<char>::empty());
        assert(escape_char(c) + escape_html_spec(s) =~= escape_char(c));
        assert(Seq::<char>::empty() + escape_char(c) =~= escape_char(c));
    } else {
        escape_front(c, s.drop_last());
        assert((seq![c] + s).drop_last() =~= seq![c] + s.drop_last());
        assert((seq![c] + s).last() == s.last());
        assert(escape_char(c) + escape_html_spec(s.drop_last()) + escape_char(s.last())
            =~= escape_char(c) + (escape_html_spec(s.drop_last()) + escape_char(s.last())));
    }
}

/// The escape of one character reads back as that character.
proof fn unescape_escaped_char(c: char, t: Seq<char>)
    ensures
        unescape_html(escape_char(c) + t) == seq![c] + unescape_html(t),
{
    let x = escape_char(c) + t;
    let amp = seq!['&', 'a', 'm', 'p', ';'];
    let lt = seq!['&', 'l', 't', ';'];
    let gt = seq!['&', 'g', 't', ';'];
    let quot = seq!['&', 'q', 'u', 'o', 't', ';'];
    let apos = seq!['&', '#', 'x', '2', '7', ';'];
    let e = escape_char(c);
    assert(x.len() == e.len() + t.len());
    assert forall|i: int| 0 <= i < e.len() implies #[trigger] x[i] == e[i] by {}
    if c == '&' {
        assert(x.subrange(0, 5) =~= amp);
        assert(x.skip(5) =~= t);
    } else if c == '<' {
        assert(x[1] == 'l');
        if x.len() >= 5 {
            assert(x.subrange(0, 5)[1] == x[1]);
        }
        assert(!starts_with(x, amp));
        assert(x.subrange(0, 4) =~= lt);
        assert(x.skip(4) =~= t);
    } else if c == '>' {
        assert(x[1] == 'g');
        if x.len() >= 5 {
            if x.len() >= 5 {
            assert(x.subrange(0, 5)[1] == x[1]);
        }
        }
        assert(!starts_with(x, amp));
        if x.len() >= 4 {
            assert(x.subrange(0, 4)[1] == x[1]);
        }
        assert(!starts_with(x, lt));
        assert(x.subrange(0, 4) =~= gt);
        assert(x.skip(4) =~= t);
    } else if c == '"' {
        assert(x[1] == 'q');
        if x.len() >= 5 {
            assert(x.subrange(0, 5)[1] == x[1]);
        }
        assert(!starts_with(x, amp));
        if x.len() >= 4 {
            assert(x.subrange(0, 4)[1] == x[1]);
        }
        assert(!starts_with(x, lt));
        assert(!starts_with(x, gt));
        assert(x.subrange(0, 6) =~= quot);
        assert(x.skip(6) =~= t);
    } else if c == '\'' {
        assert(x[1] == '#');
        if x.len() >= 5 {
            assert(x.subrange(0, 5)[1] == x[1]);
        }
        assert(!starts_with(x, amp));
        if x.len() >= 4 {
            assert(x.subrange(0, 4)[1] == x[1]);
        }
        assert(!starts_with(x, lt));
        assert(!starts_with(x, gt));
        if x.len() >= 6 {
            assert(x.subrange(0, 6)[1] == x[1]);
        }
        assert(!starts_with(x, quot));
        assert(x.subrange(0, 6) =~= apos);
        assert(x.skip(6) =~= t);
    } else {
        assert(x[0] == c);
        if x.len() >= 5 {
            assert(x.subrange(0, 5)[0] == x[0]);
        }
        if x.len() >= 4 {
            assert(x.subrange(0, 4)[0] == x[0]);
        }
        if x.len() >= 6 {
            assert(x.subrange(0, 6)[0] == x[0]);
        }
        assert(!starts_with(x, amp));
        assert(!starts_with(x, lt));
        assert(!starts_with(x, gt));
        assert(!starts_with(x, quot));
        assert(!starts_with(x, apos));
        assert(x.skip(1) =~= t);
    }
}

/// HTML escaping loses nothing: reading the escaped text back gives the
/// text, every character (line breaks and all) in order.
pub proof fn unescape_inverts_escape(s: Seq<char>)
    ensures
        unescape_html(escape_html_spec(s)) == s,
    decreases s.len(),
{
    if s.len() > 0 {
        let rest = s.skip(1);
        assert(s =~= seq![s[0]] + rest);
        escape_front(s[0], rest);
        unescape_escaped_char(s[0], escape_html_spec(rest));
        unescape_inverts_escape(rest);
    }
}

/// No character of the text opens or closes a tag.
pub open spec fn has_no_angle_brackets(s: Seq<char>) -> bool {
    forall|j: int| 0 <= j < s.len() ==> s[j] != '<' && s[j] != '>'
}

/// The text holds `pattern` somewhere.
pub open spec fn contains_text(s: Seq<char>, pattern: Seq<char>) -> bool {
    exists|i: int| 0 <= i && i + pattern.len() <= s.len() && #[trigger] s.subrange(i, i + pattern.len()) == pattern
}

/// Escaped text holds no `<` and no `>`.
pub proof fn escaped_text_has_no_angle_brackets(s: Seq<char>)
    ensures
        has_no_angle_brackets(escape_html_spec(s)),
    decreases s.len(),
{
    if s.len() > 0 {
        escaped_text_has_no_angle_brackets(s.drop_last());
        let a = escape_html_spec(s.drop_last());
        let b = escape_char(s.last());
        assert forall|j: int| 0 <= j < (a + b).len() implies (a + b)[j] != '<' && (a + b)[j] != '>' by {
            if j >= a.len() {
                assert((a + b)[j] == b[j - a.len()]);
            }
        }
    }
}

/// The opening tag of a script.
pub open spec fn script_tag() -> Seq<char> {
    seq!['<', 's', 'c', 'r', 'i', 'p', 't', '>']
}

/// The content that is stored for a note: as sent, unless it holds a
/// `<script>` tag, in which case it is HTML-escaped as a whole.
pub open spec fn sanitized_content(c: Seq<char>) -> Seq<char> {
    if contains_text(c, script_tag()) {
        escape_html_spec(c)
    } else {
        c
    }
}

/// Text with no `<` holds no HTML tag, `<script>` among them.
pub proof fn text_without_brackets_holds_no_script_tag(s: Seq<char>)
    requires
        has_no_angle_brackets(s),
    ensures
        !contains_text(s, script_tag()),
{
    let pattern = script_tag();
    if contains_text(s, pattern) {
        let i = choose|i: int| 0 <= i && i + pattern.len() <= s.len() && #[trigger] s.subrange(i, i + pattern.len()) == pattern;
        assert(s.subrange(i, i + 8)[0] == s[i]);
        assert(false);
    }
}

/// Calls `String::push`.
#[verifier::external_body]
fn push_char(s: &mut String, c: char)
    ensures
        final(s)@ == old(s)@.push(c),
{
    s.push(c);
}

/// Escapes a text for HTML, so that stored text cannot carry markup
/// (stored XSS): the result holds no `<` or `>`, hence no `<script>` tag.
pub fn escape_html(text: &str) -> (res: String)
    ensures
        res@ == escape_html_spec(text@),
        unescape_html(res@) == text@,
        has_no_angle_brackets(res@),
        !contains_text(res@, script_tag()),
{
    broadcast use vstd::string::group_string_axioms;
    let mut res = String::new();
    for c in iter: text.chars()
        invariant
            iter.seq() == text@,
            res@ == escape_html_spec(text@.take(iter.index() as int)),
    {
        proof {
            let i = iter.index() as int;
            assert(text@.take(i + 1).drop_last() =~= text@.take(i));
        }
        if c == '&' {
            push_char(&mut res, '&');
            push_char(&mut res, 'a');
            push_char(&mut res, 'm');
            push_char(&mut res, 'p');
            push_char(&mut res, ';');
        } else if c == '<' {
            push_char(&mut res, '&');
            push_char(&mut res, 'l');
            push_char(&mut res, 't');
            push_char(&mut res, ';');
        } else if c == '>' {
            push_char(&mut res, '&');
            push_char(&mut res, 'g');
            push_char(&mut res, 't');
            push_char(&mut res, ';');
        } else if c == '"' {
            push_char(&mut res, '&');
            push_char(&mut res, 'q');
            push_char(&mut res, 'u');
            push_char(&mut res, 'o');
            push_char(&mut res, 't');
            push_char(&mut res, ';');
        } else if c == '\'' {
            push_char(&mut res, '&');
            push_char(&mut res, '#');
            push_char(&mut res, 'x');
            push_char(&mut res, '2');
            push_char(&mut res, '7');
            push_char(&mut res, ';');
        } else {
            push_char(&mut res, c);
        }
    }
    proof {
        assert(text@.take(text@.len() as int) =~= text@);
        unescape_inverts_escape(text@);
        escaped_text_has_no_angle_brackets(text@);
        text_without_brackets_holds_no_script_tag(res@);
    }
    res
}

/// The characters of a text, in order.
fn chars_of(text: &str) -> (res: Vec<char>)
    ensures
        res@ == text@,
{
    broadcast use vstd::string::group_string_axioms;
    let mut res: Vec<char> = Vec::new();
    for c in iter: text.chars()
        invariant
            iter.seq() == text@,
            res@ == text@.take(iter.index() as int),
    {
        proof {
            let i = iter.index() as int;
            assert(text@.take(i + 1) =~= text@.take(i).push(text@[i]));
        }
        res.push(c);
    }
    proof {
        assert(text@.take(text@.len() as int) =~= text@);
    }
    res
}

/// Whether a text holds a `<script>` tag.
pub fn contains_script_tag(text: &str) -> (res: bool)
    ensures
        res == contains_text(text@, script_tag()),
{
    let v = chars_of(text);
    let n = v.len();
    let ghost tag = script_tag();
    let mut i: usize = 0;
    while n >= 8 && i <= n - 8
        invariant
            i <= n,
            n == v@.len(),
            v@ == text@,
            tag == script_tag(),
            forall|j: int| 0 <= j < i && j + 8 <= n ==> #[trigger] v@.subrange(j, j + 8) != tag,
        decreases n - i,
    {
        assert forall|k: int| 0 <= k < 8 implies #[trigger] v@.subrange(i as int, i + 8)[k] == v@[i + k] by {}
        if v[i] == '<' && v[i + 1] == 's' && v[i + 2] == 'c' && v[i + 3] == 'r' && v[i + 4] == 'i'
            && v[i + 5] == 'p' && v[i + 6] == 't' && v[i + 7] == '>' {
            assert(v@.subrange(i as int, i + 8) =~= tag);
            return true;
        }
        assert(v@.subrange(i as int, i + 8) != tag) by {
            if v@.subrange(i as int, i + 8) == tag {
                assert(v@[i + 0] == tag[0]);
                assert(v@[i + 1] == tag[1]);
                assert(v@[i + 2] == tag[2]);
                assert(v@[i + 3] == tag[3]);
                assert(v@[i + 4] == tag[4]);
                assert(v@[i + 5] == tag[5]);
                assert(v@[i + 6] == tag[6]);
                assert(v@[i + 7] == tag[7]);
            }
        }
        i = i + 1;
    }
    false
}

/// A note as it is stored: the title as sent, the content as sent unless it
/// holds a `<script>` tag, which is then neutralised by HTML-escaping the
/// content (stored XSS).
pub fn sanitize_note(req: CreateNoteRequest) -> (res: CreateNoteRequest)
    ensures
        res.title == req.title,
        res.content@ == sanitized_content(req.content@),
        unescape_html(res.content@) == req.content@ || res.content@ == req.content@,
        !contains_text(req.content@, script_tag()) ==> res.content@ == req.content@,
        !contains_text(res.content@, script_tag()),
{
    let content = if contains_script_tag(req.content.as_str()) {
        escape_html(req.content.as_str())
    } else {
        req.content
    };
    CreateNoteRequest { title: req.title, content }
}

/// Storing a stored note again leaves it as it is.
pub proof fn sanitizing_is_idempotent(c: Seq<char>)
    ensures
        sanitized_content(sanitized_content(c)) == sanitized_content(c),
{
    if contains_text(c, script_tag()) {
        escaped_text_has_no_angle_brackets(c);
        text_without_brackets_holds_no_script_tag(escape_html_spec(c));
    }
}

} // verus!
