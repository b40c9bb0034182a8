//! A scan of text for element tags, which tells whether every tag that opens
//! an element is matched by the tag that closes it.
//!
//! The scan reads character by character. `<` begins a tag and the next `>`
//! ends it. A tag whose first character is `/` closes the element that was
//! opened last and is still open, and must give that element's name; every
//! other tag opens an element, whose name is what the tag holds before its
//! first blank.

use vstd::prelude::*;
use crate::text::concat;

verus! {

/// Where a scan stands.
pub struct TagScan {
    /// The names of the elements that are open, outermost first.
    pub open: Seq<Seq<char>>,
    /// Inside a tag: the characters read since its `<`.
    pub tag: Option<Seq<char>>,
    /// Whether a tag was met that matches nothing, or a `<` inside a tag.
    pub broken: bool,
}

/// Between tags, with the elements `open` open and nothing amiss.
pub open spec fn at_text(open: Seq<Seq<char>>) -> TagScan {
    TagScan { open, tag: None, broken: false }
}

/// Inside a tag of which `body` has been read.
pub open spec fn in_tag(open: Seq<Seq<char>>, body: Seq<char>) -> TagScan {
    TagScan { open, tag: Some(body), broken: false }
}

/// The number of characters of `body` before its first blank.
pub open spec fn name_len(body: Seq<char>) -> nat
    decreases body.len(),
{
    if body.len() == 0 || body[0] == ' ' {
        0
    } else {
        1 + name_len(body.drop_first())
    }
}

/// The name of the element that a tag with this body opens.
pub open spec fn tag_name(body: Seq<char>) -> Seq<char> {
    body.take(name_len(body) as int)
}

/// The scan after the `>` of a tag with this body.
pub open spec fn end_tag(open: Seq<Seq<char>>, body: Seq<char>) -> TagScan {
    if body.len() > 0 && body[0] == '/' {
        if open.len() > 0 && open.last() == body.drop_first() {
            at_text(open.drop_last())
        } else {
            TagScan { open, tag: None, broken: true }
        }
    } else {
        at_text(open.push(tag_name(body)))
    }
}

/// The scan after one more character.
pub open spec fn scan_char(scan: TagScan, c: char) -> TagScan {
    if scan.broken {
        scan
    } else {
        match scan.tag {
            None => if c == '<' {
                in_tag(scan.open, Seq::empty())
            } else {
                scan
            },
            Some(body) => if c == '<' {
                TagScan { open: scan.open, tag: scan.tag, broken: true }
            } else if c == '>' {
                end_tag(scan.open, body)
            } else {
                in_tag(scan.open, body.push(c))
            },
        }
    }
}

/// The scan after the characters of `text`, read in order.
pub open spec fn scan_text(scan: TagScan, text: Seq<char>) -> TagScan
    decreases text.len(),
{
    if text.len() == 0 {
        scan
    } else {
        scan_char(scan_text(scan, text.drop_last()), text.last())
    }
}

/// Whether every tag of `text` has its match: read from the start, the text
/// ends between tags, with no element left open, and nothing was amiss on the
/// way.
pub open spec fn tags_match(text: Seq<char>) -> bool {
    scan_text(at_text(Seq::empty()), text) == at_text(Seq::empty())
}

/// Whether `text` is whole in itself: read between tags, it leaves the scan
/// where it found it, whichever elements are open around it.
pub open spec fn contained(text: Seq<char>) -> bool {
    forall|open: Seq<Seq<char>>| #[trigger] scan_text(at_text(open), text) == at_text(open)
}

/// Whether `text` is free of the character `c`.
pub open spec fn lacks(text: Seq<char>, c: char) -> bool {
    forall|i: int| 0 <= i < text.len() ==> #[trigger] text[i] != c
}

/// Whether `name` can be an element's name in a tag: not empty, not beginning
/// with `/`, and free of blanks and angle brackets.
pub open spec fn is_name(name: Seq<char>) -> bool {
    &&& name.len() > 0
    &&& name[0] != '/'
    &&& lacks(name, ' ')
    &&& lacks(name, '<')
    &&& lacks(name, '>')
}

/// The tag that opens the element `name` without attributes.
pub open spec fn open_tag(name: Seq<char>) -> Seq<char> {
    seq!['<'] + name + seq!['>']
}

/// The tag that opens the element `name` with the attributes `attributes`.
pub open spec fn open_tag_with(name: Seq<char>, attributes: Seq<char>) -> Seq<char> {
    seq!['<'] + name + seq![' '] + attributes + seq!['>']
}

/// The tag that closes the element `name`.
pub open spec fn close_tag(name: Seq<char>) -> Seq<char> {
    seq!['<', '/'] + name + seq!['>']
}

/// Scanning one text after another is scanning them as one.
pub proof fn lemma_scan_add(scan: TagScan, a: Seq<char>, b: Seq<char>)
    ensures
        scan_text(scan, a + b) == scan_text(scan_text(scan, a), b),
    decreases b.len(),
{
    if b.len() > 0 {
        lemma_scan_add(scan, a, b.drop_last());
        assert((a + b).drop_last() =~= a + b.drop_last());
    }
}

/// Scanning a text is scanning its first character and then the rest.
pub proof fn lemma_scan_first(scan: TagScan, text: Seq<char>)
    requires
        text.len() > 0,
    ensures
        scan_text(scan, text) == scan_text(scan_char(scan, text[0]), text.drop_first()),
{
    let head = seq![text[0]];
    assert(scan_text(scan, head) == scan_char(scan_text(scan, head.drop_last()), head.last()));
    assert(text =~= head + text.drop_first());
    lemma_scan_add(scan, head, text.drop_first());
}

/// Text without `<` holds no tag: between tags it changes nothing.
pub proof fn lemma_scan_plain(open: Seq<Seq<char>>, text: Seq<char>)
    requires
        lacks(text, '<'),
    ensures
        scan_text(at_text(open), text) == at_text(open),
    decreases text.len(),
{
    if text.len() > 0 {
        lemma_scan_plain(open, text.drop_last());
    }
}

/// A name is the whole of what stands before the first blank.
pub proof fn lemma_name_len(name: Seq<char>, rest: Seq<char>)
    requires
        lacks(name, ' '),
        rest.len() == 0 || rest[0] == ' ',
    ensures
        name_len(name + rest) == name.len(),
        tag_name(name + rest) == name,
    decreases name.len(),
{
    if name.len() > 0 {
        assert((name + rest).drop_first() =~= name.drop_first() + rest);
        lemma_name_len(name.drop_first(), rest);
    }
}

/// Inside a tag, characters other than angle brackets join the tag's body.
pub proof fn lemma_scan_body(open: Seq<Seq<char>>, body: Seq<char>, more: Seq<char>)
    requires
        lacks(more, '<'),
        lacks(more, '>'),
    ensures
        scan_text(in_tag(open, body), more) == in_tag(open, body + more),
    decreases more.len(),
{
    if more.len() > 0 {
        lemma_scan_body(open, body, more.drop_last());
        assert(body + more =~= (body + more.drop_last()).push(more.last()));
    }
}

/// Inside the tag that opens `name`, after the blank behind the name: whatever
/// follows up to the tag's end, the element `name` is open afterwards. A `>`
/// among the attributes ends the tag early, and the rest is text.
proof fn lemma_scan_attributes(
    open: Seq<Seq<char>>,
    name: Seq<char>,
    seen: Seq<char>,
    rest: Seq<char>,
)
    requires
        is_name(name),
        lacks(rest, '<'),
    ensures
        scan_text(in_tag(open, name + seq![' '] + seen), rest + seq!['>']) == at_text(
            open.push(name),
        ),
    decreases rest.len(),
{
    let body = name + seq![' '] + seen;
    let here = in_tag(open, body);
    let text = rest + seq!['>'];
    lemma_scan_first(here, text);
    assert(body =~= name + (seq![' '] + seen));
    lemma_name_len(name, seq![' '] + seen);
    if rest.len() > 0 {
        if rest[0] == '>' {
            lemma_scan_plain(open.push(name), text.drop_first());
        } else {
            assert(text.drop_first() =~= rest.drop_first() + seq!['>']);
            lemma_scan_attributes(open, name, seen.push(rest[0]), rest.drop_first());
        }
    }
}

/// A tag that opens `name` with attributes leaves `name` open.
pub proof fn lemma_scan_open_tag_with(
    open: Seq<Seq<char>>,
    name: Seq<char>,
    attributes: Seq<char>,
)
    requires
        is_name(name),
        lacks(attributes, '<'),
    ensures
        scan_text(at_text(open), open_tag_with(name, attributes)) == at_text(open.push(name)),
{
    let head = seq!['<'] + name + seq![' '];
    let tail = attributes + seq!['>'];
    assert(open_tag_with(name, attributes) =~= head + tail);
    lemma_scan_add(at_text(open), head, tail);
    lemma_scan_first(at_text(open), head);
    assert(head.drop_first() =~= name + seq![' ']);
    lemma_scan_body(open, Seq::empty(), name + seq![' ']);
    lemma_scan_attributes(open, name, Seq::empty(), attributes);
}

/// A tag that opens `name` leaves `name` open.
pub proof fn lemma_scan_open_tag(open: Seq<Seq<char>>, name: Seq<char>)
    requires
        is_name(name),
    ensures
        scan_text(at_text(open), open_tag(name)) == at_text(open.push(name)),
{
    let head = seq!['<'] + name;
    assert(open_tag(name) =~= head.push('>'));
    assert(head.push('>').drop_last() =~= head);
    lemma_scan_first(at_text(open), head);
    assert(head.drop_first() =~= name);
    lemma_scan_body(open, Seq::empty(), name);
    lemma_name_len(name, Seq::empty());
}

/// The tag that closes the innermost open element closes it.
pub proof fn lemma_scan_close_tag(open: Seq<Seq<char>>, name: Seq<char>)
    requires
        is_name(name),
    ensures
        scan_text(at_text(open.push(name)), close_tag(name)) == at_text(open),
{
    let head = seq!['<', '/'] + name;
    let body = seq!['/'] + name;
    assert(close_tag(name) =~= head.push('>'));
    assert(head.push('>').drop_last() =~= head);
    lemma_scan_first(at_text(open.push(name)), head);
    assert(head.drop_first() =~= body);
    lemma_scan_body(open.push(name), Seq::empty(), body);
    assert(body.drop_first() =~= name);
    assert(open.push(name).drop_last() =~= open);
}

/// Text without `<` is whole in itself.
pub proof fn lemma_contained_plain(text: Seq<char>)
    requires
        lacks(text, '<'),
    ensures
        contained(text),
{
    assert forall|open: Seq<Seq<char>>| #[trigger]
        scan_text(at_text(open), text) == at_text(open) by {
        lemma_scan_plain(open, text);
    }
}

/// Two texts that are whole in themselves are so together.
pub proof fn lemma_contained_add(a: Seq<char>, b: Seq<char>)
    requires
        contained(a),
        contained(b),
    ensures
        contained(a + b),
{
    assert forall|open: Seq<Seq<char>>| #[trigger]
        scan_text(at_text(open), a + b) == at_text(open) by {
        lemma_scan_add(at_text(open), a, b);
    }
}

/// Pieces that are whole in themselves are so together.
pub proof fn lemma_contained_concat(pieces: Seq<Seq<char>>)
    requires
        forall|i: int| 0 <= i < pieces.len() ==> contained(#[trigger] pieces[i]),
    ensures
        contained(concat(pieces)),
    decreases pieces.len(),
{
    if pieces.len() > 0 {
        lemma_contained_concat(pieces.drop_last());
        lemma_contained_add(concat(pieces.drop_last()), pieces.last());
    }
}

/// An element is whole in itself where its content is: the tag that opens it,
/// the content, the tag that closes it.
pub proof fn lemma_contained_element(name: Seq<char>, inner: Seq<char>)
    requires
        is_name(name),
        contained(inner),
    ensures
        contained(open_tag(name) + inner + close_tag(name)),
{
    assert forall|open: Seq<Seq<char>>| #[trigger]
        scan_text(at_text(open), open_tag(name) + inner + close_tag(name)) == at_text(open) by {
        lemma_scan_add(at_text(open), open_tag(name) + inner, close_tag(name));
        lemma_scan_add(at_text(open), open_tag(name), inner);
        lemma_scan_open_tag(open, name);
        lemma_scan_close_tag(open, name);
    }
}

/// An element with attributes is whole in itself where its content is and
/// its attributes hold no `<`.
pub proof fn lemma_contained_element_with(
    name: Seq<char>,
    attributes: Seq<char>,
    inner: Seq<char>,
)
    requires
        is_name(name),
        lacks(attributes, '<'),
        contained(inner),
    ensures
        contained(open_tag_with(name, attributes) + inner + close_tag(name)),
{
    assert forall|open: Seq<Seq<char>>| #[trigger]
        scan_text(at_text(open), open_tag_with(name, attributes) + inner + close_tag(name))
            == at_text(open) by {
        lemma_scan_add(at_text(open), open_tag_with(name, attributes) + inner, close_tag(name));
        lemma_scan_add(at_text(open), open_tag_with(name, attributes), inner);
        lemma_scan_open_tag_with(open, name, attributes);
        lemma_scan_close_tag(open, name);
    }
}

} // verus!
