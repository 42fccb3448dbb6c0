//! The hashline edit format: a file header, edit commands and the lines
//! they add or remove.
//!
//! ```text
//! [src/main.rs#A1B2]
//! replace 1..3:
//! +new line one
//! +new line two
//! ```

use vstd::prelude::*;

use crate::chars::{
    before_char, contains_char, spec_before, spec_char_vec_views, spec_is_first_index, spec_lines, spec_starts_with,
    spec_trim, spec_trim_start_char, split_lines, starts_with, trim, trim_start_char,
};
use crate::text::{chars_of, string_of};

verus! {

/// Kind of one edited line.
#[derive(Debug, Clone, Copy, PartialEq, Eq, Structural)]
pub enum HashlineEditType {
    /// Line was added (+).
    Addition,
    /// Line was deleted (-).
    Deletion,
    /// Line was replaced.
    Replacement,
    /// Context line shown for reference (no change).
    Context,
    /// Content was inserted.
    Insertion,
}

/// One edited line.
#[derive(Debug, Clone, PartialEq, Eq)]
pub struct HashlineEdit {
    pub edit_type: HashlineEditType,
    pub content: String,
    pub line_number: Option<u32>,
    pub path: Option<String>,
}

/// The view of one edited line.
pub ghost struct HashlineEditView {
    pub edit_type: HashlineEditType,
    pub content: Seq<char>,
    pub line_number: Option<u32>,
    pub path: Option<Seq<char>>,
}

impl View for HashlineEdit {
    type V = HashlineEditView;

    open spec fn view(&self) -> HashlineEditView {
        HashlineEditView {
            edit_type: self.edit_type,
            content: self.content@,
            line_number: self.line_number,
            path: match self.path {
                Some(p) => Some(p@),
                None => None,
            },
        }
    }
}

/// The edits of one file.
#[derive(Debug, Clone, PartialEq, Eq)]
pub struct HashlineEditBlock {
    pub path: String,
    pub edits: Vec<HashlineEdit>,
    pub start_line: u32,
    pub end_line: u32,
}

/// The view of an edit block.
pub ghost struct HashlineEditBlockView {
    pub path: Seq<char>,
    pub edits: Seq<HashlineEditView>,
    pub start_line: u32,
    pub end_line: u32,
}

impl View for HashlineEditBlock {
    type V = HashlineEditBlockView;

    open spec fn view(&self) -> HashlineEditBlockView {
        HashlineEditBlockView {
            path: self.path@,
            edits: self.edits@.map_values(|e: HashlineEdit| e@),
            start_line: self.start_line,
            end_line: self.end_line,
        }
    }
}

/// Whether a line is a file header: it starts with `[` and holds a `]`.
pub open spec fn spec_is_header(l: Seq<char>) -> bool {
    l.len() > 0 && l[0] == '[' && l.contains(']')
}

/// The path a header names: after the opening brackets, before the first
/// `]` and then before the first `#`, without surrounding whitespace.
pub open spec fn spec_header_path(l: Seq<char>) -> Seq<char> {
    spec_trim(spec_before(spec_before(spec_trim_start_char(l, '['), ']'), '#'))
}

/// Whether a trimmed line is an edit command.
pub open spec fn spec_is_command(t: Seq<char>) -> bool {
    spec_starts_with(t, "replace"@) || spec_starts_with(t, "delete"@) || spec_starts_with(t, "insert"@)
}

/// The edit a trimmed line carries, if any: `+` adds, `-` deletes.
pub open spec fn spec_line_edit(t: Seq<char>) -> Option<HashlineEditView> {
    if spec_is_command(t) || t.len() == 0 {
        None
    } else if t[0] == '+' {
        Some(HashlineEditView { edit_type: HashlineEditType::Addition, content: t.drop_first(), line_number: None, path: None })
    } else if t[0] == '-' {
        Some(HashlineEditView { edit_type: HashlineEditType::Deletion, content: t.drop_first(), line_number: None, path: None })
    } else {
        None
    }
}

/// Whether a trimmed line marks the text as an edit: a command, an added
/// line or a deleted line.
pub open spec fn spec_is_marker(t: Seq<char>) -> bool {
    spec_is_command(t) || spec_line_edit(t) is Some
}

/// The edits of a sequence of body lines, in order.
pub open spec fn spec_body_edits(body: Seq<Seq<char>>) -> Seq<HashlineEditView>
    decreases body.len(),
{
    if body.len() == 0 {
        Seq::empty()
    } else {
        let before = spec_body_edits(body.drop_last());
        match spec_line_edit(spec_trim(body.last())) {
            Some(e) => before.push(e),
            None => before,
        }
    }
}

/// Whether some body line marks an edit.
pub open spec fn spec_has_marker(body: Seq<Seq<char>>) -> bool {
    exists|i: int| 0 <= i < body.len() && spec_is_marker(spec_trim(#[trigger] body[i]))
}

/// The block a text describes in the hashline format, if it describes one:
/// an optional header line, then body lines of which at least one marks an
/// edit.
pub open spec fn spec_parse(content: Seq<char>) -> Option<HashlineEditBlockView> {
    let ls = spec_lines(content);
    let has_header = ls.len() > 0 && spec_is_header(ls[0]);
    let path = if has_header { spec_header_path(ls[0]) } else { Seq::empty() };
    let body = if has_header { ls.drop_first() } else { ls };
    if spec_has_marker(body) {
        Some(HashlineEditBlockView { path, edits: spec_body_edits(body), start_line: 1, end_line: 1 })
    } else {
        None
    }
}

/// Parser for the hashline format.
#[derive(Debug, Default)]
pub struct HashlineParser;

fn is_command(t: &[char]) -> (r: bool)
    ensures
        r == spec_is_command(t@),
{
    starts_with(t, "replace") || starts_with(t, "delete") || starts_with(t, "insert")
}

fn line_edit(t: &[char]) -> (r: Option<HashlineEdit>)
    ensures
        match spec_line_edit(t@) {
            Some(e) => r matches Some(x) && x@ == e,
            None => r is None,
        },
{
    if is_command(t) || t.len() == 0 {
        return None;
    }
    let edit_type = if t[0] == '+' {
        HashlineEditType::Addition
    } else if t[0] == '-' {
        HashlineEditType::Deletion
    } else {
        return None;
    };
    let rest = crate::chars::copy_range(t, 1, t.len());
    proof {
        assert(rest@ =~= t@.drop_first());
    }
    Some(HashlineEdit { edit_type, content: string_of(rest.as_slice()), line_number: None, path: None })
}

impl HashlineParser {
    /// A parser.
    pub fn new() -> (r: Self) {
        HashlineParser
    }

    /// The block a text describes in the hashline format, or `None` where no
    /// line of it marks an edit.
    pub fn parse(content: &str) -> (r: Option<HashlineEditBlock>)
        ensures
            match spec_parse(content@) {
                Some(b) => r matches Some(x) && x@ == b,
                None => r is None,
            },
    {
        let text = chars_of(content);
        let lines = split_lines(text.as_slice());
        let ghost ls = spec_lines(content@);
        let mut path_chars: Vec<char> = Vec::new();
        let mut start: usize = 0;
        if lines.len() > 0 {
            let first = &lines[0];
            proof {
                assert(ls[0] == first@);
            }
            if first.len() > 0 && first[0] == '[' && contains_char(first.as_slice(), ']') {
                let inner = trim_start_char(first.as_slice(), '[');
                let inner = before_char(inner.as_slice(), ']');
                let part = before_char(inner.as_slice(), '#');
                path_chars = trim(part.as_slice());
                start = 1;
            }
        }
        let ghost has_header = ls.len() > 0 && spec_is_header(ls[0]);
        let ghost body = if has_header { ls.drop_first() } else { ls };
        let ghost path = if has_header { spec_header_path(ls[0]) } else { Seq::<char>::empty() };
        proof {
            assert(path_chars@ =~= path);
            assert(has_header <==> start == 1);
            assert(body =~= spec_char_vec_views(lines@).skip(start as int));
            assert(body.take(0) =~= Seq::<Seq<char>>::empty());
        }
        let mut edits: Vec<HashlineEdit> = Vec::new();
        let mut has_markers = false;
        let mut i: usize = start;
        while i < lines.len()
            invariant
                start <= i <= lines@.len(),
                path_chars@ == path,
                body == spec_char_vec_views(lines@).skip(start as int),
                edits@.map_values(|e: HashlineEdit| e@) == spec_body_edits(body.take(i - start)),
                has_markers <==> exists|k: int| 0 <= k < i - start && spec_is_marker(spec_trim(#[trigger] body[k])),
            decreases lines@.len() - i,
        {
            let t = trim(lines[i].as_slice());
            proof {
                assert(body[i - start] == lines@[i as int]@);
                assert(body.take(i - start + 1).drop_last() =~= body.take(i - start));
                assert(body.take(i - start + 1).last() == lines@[i as int]@);
            }
            let is_cmd = is_command(t.as_slice());
            let ghost prev = edits@;
            match line_edit(t.as_slice()) {
                Some(e) => {
                    edits.push(e);
                    proof {
                        assert(edits@.map_values(|e: HashlineEdit| e@) =~= prev.map_values(|e: HashlineEdit| e@).push(e@));
                    }
                    has_markers = true;
                },
                None => {
                    if is_cmd {
                        has_markers = true;
                    }
                },
            }
            proof {
                assert(spec_is_marker(spec_trim(body[i - start])) ==> (exists|k: int| 0 <= k < i - start + 1 && spec_is_marker(spec_trim(#[trigger] body[k]))));
            }
            i = i + 1;
        }
        proof {
            assert(body.take(i - start) =~= body);
        }
        if !has_markers {
            proof {
                assert(spec_parse(content@) is None);
            }
            return None;
        }
        let r = HashlineEditBlock { path: string_of(path_chars.as_slice()), edits, start_line: 1, end_line: 1 };
        proof {
            assert(r@.path == path);
            assert(r@.edits == spec_body_edits(body));
            let k = choose|k: int| 0 <= k < i - start && spec_is_marker(spec_trim(#[trigger] body[k]));
            assert(0 <= k < body.len() && spec_is_marker(spec_trim(body[k])));
            assert(spec_parse(content@).unwrap() == r@);
        }
        Some(r)
    }
}


/// Law: a body line reading `-` then `s` deletes the text `s`, and one
/// reading `+` then `s` adds it; the marker is not part of the text.
pub proof fn lemma_marker_lines(s: Seq<char>)
    ensures
        spec_line_edit(seq!['-'] + s) == Some(HashlineEditView {
            edit_type: HashlineEditType::Deletion, content: s, line_number: None, path: None,
        }),
        spec_line_edit(seq!['+'] + s) == Some(HashlineEditView {
            edit_type: HashlineEditType::Addition, content: s, line_number: None, path: None,
        }),
{
    lemma_marked_not_command(s, '-');
    lemma_marked_not_command(s, '+');
    assert((seq!['-'] + s).drop_first() =~= s);
    assert((seq!['+'] + s).drop_first() =~= s);
}

/// Law: a body line whose trimmed text is `-` then `s` adds a deletion of
/// `s` after the edits of the lines before it (and `+` an addition).
pub proof fn lemma_body_line_edit(body: Seq<Seq<char>>, line: Seq<char>, s: Seq<char>, sign: char)
    requires
        sign == '-' || sign == '+',
        spec_trim(line) == seq![sign] + s,
    ensures
        spec_body_edits(body.push(line)) == spec_body_edits(body).push(HashlineEditView {
            edit_type: if sign == '-' { HashlineEditType::Deletion } else { HashlineEditType::Addition },
            content: s,
            line_number: None,
            path: None,
        }),
{
    lemma_marker_lines(s);
    assert(body.push(line).drop_last() =~= body);
}

proof fn lemma_marked_not_command(s: Seq<char>, sign: char)
    requires
        sign == '-' || sign == '+',
    ensures
        !spec_is_command(seq![sign] + s),
        (seq![sign] + s).len() > 0,
        (seq![sign] + s)[0] == sign,
{
    reveal_strlit("replace");
    reveal_strlit("delete");
    reveal_strlit("insert");
    let t = seq![sign] + s;
    assert(t[0] == sign);
    if spec_starts_with(t, "replace"@) {
        assert(t[0] == "replace"@[0]);
    }
    if spec_starts_with(t, "delete"@) {
        assert(t[0] == "delete"@[0]);
    }
    if spec_starts_with(t, "insert"@) {
        assert(t[0] == "insert"@[0]);
    }
}


proof fn lemma_before_at(s: Seq<char>, c: char, i: int)
    requires
        spec_is_first_index(s, c, i),
    ensures
        spec_before(s, c) == s.take(i),
{
    assert(s.contains(c)) by {
        assert(s[i] == c);
    }
    let j = choose|j: int| spec_is_first_index(s, c, j);
    assert(spec_is_first_index(s, c, j));
    if j < i {
        assert(s[j] != c);
    } else if j > i {
        assert(s[i] != c);
    }
}

/// Law: a header `[<path>#<hash>]` names the path written before the `#`.
pub proof fn lemma_header_names_path(p: Seq<char>, h: Seq<char>)
    requires
        p.len() > 0,
        p[0] != '[',
        !p.contains(']'),
        !p.contains('#'),
        !h.contains(']'),
        spec_trim(p) == p,
    ensures
        spec_is_header(seq!['['] + p + seq!['#'] + h + seq![']']),
        spec_header_path(seq!['['] + p + seq!['#'] + h + seq![']']) == p,
{
    let l = seq!['['] + p + seq!['#'] + h + seq![']'];
    let rest = p + seq!['#'] + h + seq![']'];
    assert(l.drop_first() =~= rest);
    assert(l[0] == '[');
    assert(rest[0] == p[0]);
    assert(spec_trim_start_char(rest, '[') == rest);
    assert(spec_trim_start_char(l, '[') == rest);
    let i0: int = (p.len() + 1 + h.len()) as int;
    assert(rest[i0] == ']');
    assert forall|j: int| 0 <= j < i0 implies rest[j] != ']' by {
        if j < p.len() {
            assert(rest[j] == p[j]);
            if p[j] == ']' {
                assert(p.contains(']'));
            }
        } else if j == p.len() {
            assert(rest[j] == '#');
        } else {
            assert(rest[j] == h[j - p.len() - 1]);
            if h[j - p.len() - 1] == ']' {
                assert(h.contains(']'));
            }
        }
    }
    lemma_before_at(rest, ']', i0);
    let mid = rest.take(i0);
    assert(mid =~= p + seq!['#'] + h);
    let k = p.len() as int;
    assert(mid[k] == '#');
    assert forall|j: int| 0 <= j < k implies mid[j] != '#' by {
        assert(mid[j] == p[j]);
        if p[j] == '#' {
            assert(p.contains('#'));
        }
    }
    lemma_before_at(mid, '#', k);
    assert(mid.take(k) =~= p);
    assert(l[l.len() - 1] == ']');
    assert(l.contains(']'));
}

/// Law: a body line that is neither a command nor marked `+` or `-` adds no
/// edit.
pub proof fn lemma_plain_line_adds_nothing(body: Seq<Seq<char>>, line: Seq<char>)
    requires
        !spec_is_command(spec_trim(line)),
        spec_trim(line).len() == 0 || (spec_trim(line)[0] != '+' && spec_trim(line)[0] != '-'),
    ensures
        spec_body_edits(body.push(line)) == spec_body_edits(body),
{
    assert(body.push(line).drop_last() =~= body);
}

} // verus!
