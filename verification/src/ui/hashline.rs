//! The rows of a hashline edit view: a gutter with the line number and the
//! kind of edit, and the edited text split so string literals can be
//! coloured apart.

use vstd::prelude::*;

use crate::chars::copy_range;
use crate::state::color::Color;
use crate::state::hashline::{HashlineEditBlock, HashlineEditType};
use crate::text::{chars_of, decimal, spec_decimal, string_of};

verus! {

/// A piece of a line: a string literal or the text between them.
#[derive(Debug, Clone, PartialEq, Eq)]
pub struct Token {
    pub text: String,
    pub is_string: bool,
}

/// The tokens as texts and flags.
pub open spec fn spec_token_views(v: Seq<Token>) -> Seq<(Seq<char>, bool)> {
    v.map_values(|t: Token| (t.text@, t.is_string))
}

/// The texts of the tokens, one after another.
pub open spec fn spec_flatten(ts: Seq<(Seq<char>, bool)>) -> Seq<char>
    decreases ts.len(),
{
    if ts.len() == 0 {
        Seq::empty()
    } else {
        spec_flatten(ts.drop_last()) + ts.last().0
    }
}

/// A quote at position `j` of `t` that closes a string: it does not follow
/// a backslash.
pub open spec fn spec_closes_at(t: Seq<char>, j: int) -> bool {
    1 <= j < t.len() && t[j] == '"' && t[j - 1] != '\\'
}

/// A string token: an opening quote, then everything up to and including
/// the first closing quote; the last token may run to the end of the line
/// without one.
pub open spec fn spec_string_token(t: Seq<char>, last: bool) -> bool {
    &&& t.len() >= 1
    &&& t[0] == '"'
    &&& forall|j: int| 1 <= j < t.len() - 1 ==> !#[trigger] spec_closes_at(t, j)
    &&& (spec_closes_at(t, t.len() - 1) || last)
}

/// A plain token: text without quotes.
pub open spec fn spec_plain_token(t: Seq<char>) -> bool {
    &&& t.len() >= 1
    &&& forall|j: int| 0 <= j < t.len() ==> #[trigger] t[j] != '"'
}

/// The `k`th token is well formed.
pub open spec fn spec_token_ok(ts: Seq<(Seq<char>, bool)>, k: int) -> bool {
    if ts[k].1 {
        spec_string_token(ts[k].0, k == ts.len() - 1)
    } else {
        spec_plain_token(ts[k].0)
    }
}

/// `ts` splits `line`: the tokens put together give the line, each is well
/// formed, and no two plain tokens follow each other.
pub open spec fn spec_tokenizes(line: Seq<char>, ts: Seq<(Seq<char>, bool)>) -> bool {
    &&& spec_flatten(ts) == line
    &&& forall|k: int| 0 <= k < ts.len() ==> #[trigger] spec_token_ok(ts, k)
    &&& forall|k: int| 0 <= k < ts.len() - 1 ==> (#[trigger] ts[k]).1 || ts[k + 1].1
}

proof fn lemma_flatten_push(ts: Seq<(Seq<char>, bool)>, t: (Seq<char>, bool))
    ensures
        spec_flatten(ts.push(t)) == spec_flatten(ts) + t.0,
{
    assert(ts.push(t).drop_last() =~= ts);
}

/// Splits a line into string literals and the text between them.
pub fn tokenize_line(line: &str) -> (r: Vec<Token>)
    ensures
        spec_tokenizes(line@, spec_token_views(r@)),
{
    let chars = chars_of(line);
    let n = chars.len();
    let mut tokens: Vec<Token> = Vec::new();
    let mut cur: Vec<char> = Vec::new();
    let mut i: usize = 0;
    while i < n
        invariant
            n == chars@.len(),
            chars@ == line@,
            i <= n,
            spec_flatten(spec_token_views(tokens@)) + cur@ == chars@.take(i as int),
            forall|k: int| 0 <= k < tokens@.len() - 1 ==> #[trigger] spec_token_ok(spec_token_views(tokens@), k),
            tokens@.len() > 0 ==> {
                let ts = spec_token_views(tokens@);
                let l = ts.last();
                l.1 && spec_string_token(l.0, i == n && cur@.len() == 0)
            },
            forall|k: int| 0 <= k < tokens@.len() - 1 ==> (#[trigger] spec_token_views(tokens@)[k]).1
                || spec_token_views(tokens@)[k + 1].1,
            forall|j: int| 0 <= j < cur@.len() ==> #[trigger] cur@[j] != '"',
        decreases n - i,
    {
        let c = chars[i];
        let ghost before = spec_token_views(tokens@);
        if c == '"' {
            if cur.len() > 0 {
                let t = Token { text: string_of(&cur), is_string: false };
                tokens.push(t);
                proof {
                    let ts = spec_token_views(tokens@);
                    assert(ts =~= before.push((cur@, false)));
                    lemma_flatten_push(before, (cur@, false));
                    assert forall|k: int| 0 <= k < ts.len() - 1 implies #[trigger] spec_token_ok(ts, k) by {
                        assert(ts[k] == before[k]);
                        if k < before.len() - 1 {
                            assert(spec_token_ok(before, k));
                        }
                    }
                    assert forall|k: int| 0 <= k < ts.len() - 1 implies (#[trigger] ts[k]).1 || ts[k + 1].1 by {
                        assert(ts[k] == before[k]);
                        if k < before.len() - 1 {
                            assert(before[k].1 || before[k + 1].1);
                        }
                    }
                }
                cur = Vec::new();
            }
            let ghost mid = spec_token_views(tokens@);
            let start = i;
            i = i + 1;
            let mut closed = false;
            while i < n && !closed
                invariant
                    n == chars@.len(),
                    start < i <= n,
                    chars@[start as int] == '"',
                    forall|j: int| 1 <= j < i - start - 1 ==> !#[trigger] spec_closes_at(chars@.subrange(start as int, i as int), j),
                    closed == spec_closes_at(chars@.subrange(start as int, i as int), i - start - 1),
                decreases n - i,
            {
                let ghost prev = chars@.subrange(start as int, i as int);
                let ghost next = chars@.subrange(start as int, i + 1);
                proof {
                    assert forall|j: int| 1 <= j < i - start implies #[trigger] spec_closes_at(next, j) == spec_closes_at(prev, j) by {
                        assert(next[j] == prev[j] && next[j - 1] == prev[j - 1]);
                    }
                    assert(!spec_closes_at(prev, i - start - 1));
                }
                if chars[i] == '"' && chars[i - 1] != '\\' {
                    closed = true;
                }
                proof {
                    assert(next[i - start] == chars@[i as int]);
                    assert(next[i - start - 1] == chars@[i - 1]);
                }
                i = i + 1;
            }
            let piece = copy_range(&chars, start, i);
            let t = Token { text: string_of(&piece), is_string: true };
            tokens.push(t);
            proof {
                let ts = spec_token_views(tokens@);
                assert(ts =~= mid.push((piece@, true)));
                lemma_flatten_push(mid, (piece@, true));
                assert(chars@.take(i as int) =~= chars@.take(start as int) + piece@);
                assert(spec_string_token(piece@, i == n));
                assert forall|k: int| 0 <= k < ts.len() - 1 implies #[trigger] spec_token_ok(ts, k) by {
                    assert(ts[k] == mid[k]);
                    if k < mid.len() - 1 {
                        assert(spec_token_ok(mid, k));
                    }
                }
                assert forall|k: int| 0 <= k < ts.len() - 1 implies (#[trigger] ts[k]).1 || ts[k + 1].1 by {
                    if k == ts.len() - 2 {
                        assert(ts[k + 1].1);
                    } else {
                        assert(ts[k] == mid[k] && ts[k + 1] == mid[k + 1]);
                        assert(mid[k].1 || mid[k + 1].1);
                    }
                }
            }
        } else {
            let ghost old_cur = cur@;
            cur.push(c);
            proof {
                assert(chars@.take(i + 1) =~= chars@.take(i as int).push(c));
                assert(cur@ =~= old_cur.push(c));
                assert(spec_flatten(before) + cur@ =~= (spec_flatten(before) + old_cur).push(c));
                if tokens@.len() > 0 {
                    let l = before.last();
                    assert(spec_string_token(l.0, false));
                }
            }
            i = i + 1;
        }
    }
    if cur.len() > 0 {
        let ghost before = spec_token_views(tokens@);
        let t = Token { text: string_of(&cur), is_string: false };
        tokens.push(t);
        proof {
            let ts = spec_token_views(tokens@);
            assert(ts =~= before.push((cur@, false)));
            lemma_flatten_push(before, (cur@, false));
            assert forall|k: int| 0 <= k < ts.len() implies #[trigger] spec_token_ok(ts, k) by {
                if k < ts.len() - 1 {
                    assert(ts[k] == before[k]);
                    if k < before.len() - 1 {
                        assert(spec_token_ok(before, k));
                    } else {
                        let l = before.last();
                        assert(l.1);
                        assert(spec_string_token(l.0, false));
                    }
                }
            }
            assert forall|k: int| 0 <= k < ts.len() - 1 implies (#[trigger] ts[k]).1 || ts[k + 1].1 by {
                assert(ts[k] == before[k]);
                if k < before.len() - 1 {
                    assert(before[k].1 || before[k + 1].1);
                }
            }
        }
    } else {
        proof {
            let ts = spec_token_views(tokens@);
            assert(spec_flatten(ts) + cur@ =~= spec_flatten(ts));
            assert forall|k: int| 0 <= k < ts.len() implies #[trigger] spec_token_ok(ts, k) by {
                if k < ts.len() - 1 {
                    assert(spec_token_ok(ts, k));
                }
            }
        }
    }
    proof {
        assert(chars@.take(n as int) =~= chars@);
    }
    tokens
}


/// Colours of the edit view.
#[derive(Debug, Clone, Copy, PartialEq, Eq)]
pub struct HashlineColors {
    pub addition_fg: Color,
    pub addition_bg: Color,
    pub deletion_fg: Color,
    pub deletion_bg: Color,
    pub replacement_fg: Color,
    pub context_fg: Color,
    pub path_header_fg: Color,
    pub gutter_fg: Color,
    pub string_fg: Color,
}

/// The default colours: green additions, red deletions, yellow
/// replacements, grey context, a blue header, an orange for strings.
pub open spec fn spec_default_hashline_colors() -> HashlineColors {
    HashlineColors {
        addition_fg: Color::Rgb(0x4a, 0xcb, 0x62),
        addition_bg: Color::Rgb(0x1b, 0x3a, 0x22),
        deletion_fg: Color::Rgb(0xe5, 0x5c, 0x5c),
        deletion_bg: Color::Rgb(0x3a, 0x1b, 0x1b),
        replacement_fg: Color::Rgb(0xe5, 0xc0, 0x5c),
        context_fg: Color::Rgb(0xaa, 0xaa, 0xaa),
        path_header_fg: Color::Rgb(0x5c, 0xae, 0xe5),
        gutter_fg: Color::Rgb(0x66, 0x66, 0x66),
        string_fg: Color::Rgb(0xce, 0x91, 0x78),
    }
}

impl Default for HashlineColors {
    fn default() -> (r: Self)
        ensures
            r == spec_default_hashline_colors(),
    {
        HashlineColors {
            addition_fg: Color::Rgb(0x4a, 0xcb, 0x62),
            addition_bg: Color::Rgb(0x1b, 0x3a, 0x22),
            deletion_fg: Color::Rgb(0xe5, 0x5c, 0x5c),
            deletion_bg: Color::Rgb(0x3a, 0x1b, 0x1b),
            replacement_fg: Color::Rgb(0xe5, 0xc0, 0x5c),
            context_fg: Color::Rgb(0xaa, 0xaa, 0xaa),
            path_header_fg: Color::Rgb(0x5c, 0xae, 0xe5),
            gutter_fg: Color::Rgb(0x66, 0x66, 0x66),
            string_fg: Color::Rgb(0xce, 0x91, 0x78),
        }
    }
}

/// The view of hashline edits.
#[derive(Debug, Clone, Copy, PartialEq, Eq)]
pub struct HashlineViewer {
    pub colors: HashlineColors,
    pub show_gutter: bool,
}

/// One row of the view: the gutter (line number and edit mark), the colour
/// of the edited text, and its tokens.
#[derive(Debug, Clone, PartialEq, Eq)]
pub struct HashlineRow {
    pub gutter: Option<String>,
    pub content_color: Color,
    pub tokens: Vec<Token>,
}

/// The mark and text colour of each kind of edit.
pub open spec fn spec_edit_style(c: HashlineColors, t: HashlineEditType) -> (Seq<char>, Color) {
    match t {
        HashlineEditType::Addition => ("+"@, c.addition_fg),
        HashlineEditType::Deletion => ("-"@, c.deletion_fg),
        HashlineEditType::Replacement => ("~"@, c.replacement_fg),
        HashlineEditType::Insertion => (">"@, c.addition_fg),
        HashlineEditType::Context => (" "@, c.context_fg),
    }
}

/// `s` padded on the left with spaces to at least `w` characters.
pub open spec fn spec_pad_left(s: Seq<char>, w: nat) -> Seq<char> {
    if s.len() >= w { s } else { Seq::new((w - s.len()) as nat, |_i: int| ' ') + s }
}

/// The gutter of line `n` with mark `mark`: the number right-aligned in
/// four columns, the mark, a space.
pub open spec fn spec_gutter(n: nat, mark: Seq<char>) -> Seq<char> {
    spec_pad_left(spec_decimal(n), 4) + mark + " "@
}

/// The title of an edit block: its path between spaces, or " Edit ".
pub open spec fn spec_block_title(path: Seq<char>) -> Seq<char> {
    if path.len() == 0 { " Edit "@ } else { " "@ + path + " "@ }
}

/// `s` padded on the left with spaces to at least `w` characters.
fn pad_left(s: &str, w: usize) -> (r: String)
    ensures
        r@ == spec_pad_left(s@, w as nat),
{
    let cs = chars_of(s);
    if cs.len() >= w {
        return string_of(&cs);
    }
    let mut out: Vec<char> = Vec::new();
    let fill = w - cs.len();
    let mut i: usize = 0;
    while i < fill
        invariant
            i <= fill,
            out@ == Seq::new(i as nat, |_j: int| ' '),
        decreases fill - i,
    {
        out.push(' ');
        proof {
            assert(out@ =~= Seq::new((i + 1) as nat, |_j: int| ' '));
        }
        i = i + 1;
    }
    let mut k: usize = 0;
    while k < cs.len()
        invariant
            k <= cs@.len(),
            out@ == Seq::new(fill as nat, |_j: int| ' ') + cs@.take(k as int),
        decreases cs@.len() - k,
    {
        out.push(cs[k]);
        proof {
            assert(cs@.take(k + 1) =~= cs@.take(k as int).push(cs@[k as int]));
            assert(out@ =~= Seq::new(fill as nat, |_j: int| ' ') + cs@.take(k + 1));
        }
        k = k + 1;
    }
    proof {
        assert(cs@.take(cs@.len() as int) =~= cs@);
    }
    string_of(&out)
}

impl HashlineViewer {
    /// A view with the default colours and a gutter.
    pub fn new() -> (r: Self)
        ensures
            r.colors == spec_default_hashline_colors(),
            r.show_gutter,
    {
        HashlineViewer { colors: HashlineColors::default(), show_gutter: true }
    }

    /// A view with the given colours and a gutter.
    pub fn with_colors(colors: HashlineColors) -> (r: Self)
        ensures
            r.colors == colors,
            r.show_gutter,
    {
        HashlineViewer { colors, show_gutter: true }
    }

    /// The view with the gutter shown or not.
    pub fn show_gutter(self, show: bool) -> (r: Self)
        ensures
            r == (HashlineViewer { show_gutter: show, ..self }),
    {
        HashlineViewer { show_gutter: show, ..self }
    }

    /// The mark and text colour of a kind of edit.
    pub fn style_for_type(&self, edit_type: HashlineEditType) -> (r: (&'static str, Color))
        ensures
            (r.0@, r.1) == spec_edit_style(self.colors, edit_type),
    {
        match edit_type {
            HashlineEditType::Addition => ("+", self.colors.addition_fg),
            HashlineEditType::Deletion => ("-", self.colors.deletion_fg),
            HashlineEditType::Replacement => ("~", self.colors.replacement_fg),
            HashlineEditType::Insertion => (">", self.colors.addition_fg),
            HashlineEditType::Context => (" ", self.colors.context_fg),
        }
    }

    /// The title of an edit block.
    pub fn title(&self, block: &HashlineEditBlock) -> (r: String)
        ensures
            r@ == spec_block_title(block.path@),
    {
        let cs = chars_of(block.path.as_str());
        if cs.len() == 0 {
            return crate::text::owned(" Edit ");
        }
        let head = crate::text::concat(" ", block.path.as_str());
        crate::text::concat(head.as_str(), " ")
    }

    /// The rows of an edit block, one per edit, numbered from its first line.
    pub fn build_lines(&self, block: &HashlineEditBlock) -> (r: Vec<HashlineRow>)
        requires
            block.start_line as int + block.edits@.len() <= u32::MAX as int + 1,
        ensures
            r@.len() == block.edits@.len(),
            forall|i: int| 0 <= i < r@.len() ==> {
                let e = #[trigger] block.edits@[i];
                let (mark, color) = spec_edit_style(self.colors, e.edit_type);
                &&& r@[i].content_color == color
                &&& spec_tokenizes(e.content@, spec_token_views(r@[i].tokens@))
                &&& if self.show_gutter {
                    r@[i].gutter matches Some(g) && g@ == spec_gutter((block.start_line + i) as nat, mark)
                } else {
                    r@[i].gutter is None
                }
            },
    {
        let mut out: Vec<HashlineRow> = Vec::new();
        let mut i: usize = 0;
        while i < block.edits.len()
            invariant
                i <= block.edits@.len(),
                block.start_line as int + block.edits@.len() <= u32::MAX as int + 1,
                out@.len() == i,
                forall|k: int| 0 <= k < i ==> {
                    let e = #[trigger] block.edits@[k];
                    let (mark, color) = spec_edit_style(self.colors, e.edit_type);
                    &&& out@[k].content_color == color
                    &&& spec_tokenizes(e.content@, spec_token_views(out@[k].tokens@))
                    &&& if self.show_gutter {
                        out@[k].gutter matches Some(g) && g@ == spec_gutter((block.start_line + k) as nat, mark)
                    } else {
                        out@[k].gutter is None
                    }
                },
            decreases block.edits@.len() - i,
        {
            let edit = &block.edits[i];
            let line_num: u32 = block.start_line + i as u32;
            let (mark, color) = self.style_for_type(edit.edit_type);
            let gutter = if self.show_gutter {
                let num = pad_left(decimal(line_num as u64).as_str(), 4);
                let with_mark = crate::text::concat(num.as_str(), mark);
                Some(crate::text::concat(with_mark.as_str(), " "))
            } else {
                None
            };
            let tokens = tokenize_line(edit.content.as_str());
            out.push(HashlineRow { gutter, content_color: color, tokens });
            proof {
                assert(out@[i as int].content_color == color);
            }
            i = i + 1;
        }
        out
    }
}

} // verus!
