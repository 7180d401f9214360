//! The short Markdown preview shown under each note: at most four blocks,
//! read line by line from the note body.
use vstd::prelude::*;

use crate::text::{
    chars_of, chars_start_with, extend_chars, join, lemma_chars_deep_view, split_lines, starts_with,
    string_from_chars, sub_chars, trim, trim_bounds, trim_chars, truncate_char_vec, truncated, lines,
};

verus! {

/// Most blocks a preview shows.
pub const PREVIEW_BLOCK_LIMIT: usize = 4;

/// Most lines of a fenced code block that a preview keeps.
pub const CODE_LINE_LIMIT: usize = 3;

/// Most characters of a block's text before it is cut.
pub const TEXT_LIMIT: usize = 120;

/// One block of a note preview.
#[derive(Clone, Debug, PartialEq, Eq)]
pub enum MarkdownPreviewBlock {
    Heading { level: u8, text: String },
    Bullet(String),
    Quote(String),
    Code(String),
    Paragraph(String),
}

/// What a preview block shows, with its text as characters.
pub enum PreviewBlockModel {
    Heading { level: u8, text: Seq<char> },
    Bullet(Seq<char>),
    Quote(Seq<char>),
    Code(Seq<char>),
    Paragraph(Seq<char>),
}

impl DeepView for MarkdownPreviewBlock {
    type V = PreviewBlockModel;

    open spec fn deep_view(&self) -> PreviewBlockModel {
        match self {
            MarkdownPreviewBlock::Heading { level, text } => PreviewBlockModel::Heading {
                level: *level,
                text: text@,
            },
            MarkdownPreviewBlock::Bullet(text) => PreviewBlockModel::Bullet(text@),
            MarkdownPreviewBlock::Quote(text) => PreviewBlockModel::Quote(text@),
            MarkdownPreviewBlock::Code(text) => PreviewBlockModel::Code(text@),
            MarkdownPreviewBlock::Paragraph(text) => PreviewBlockModel::Paragraph(text@),
        }
    }
}

// ---------------------------------------------------------------------------
// Specification
// ---------------------------------------------------------------------------

/// The number of `#` characters that `s` starts with.
pub open spec fn leading_hashes(s: Seq<char>) -> nat
    decreases s.len(),
{
    if s.len() > 0 && s[0] == '#' {
        1 + leading_hashes(s.drop_first())
    } else {
        0
    }
}

/// A heading line: one to three `#`, a space, and non-blank text. Gives the
/// level and the trimmed text.
pub open spec fn heading_spec(line: Seq<char>) -> Option<(u8, Seq<char>)> {
    let level = leading_hashes(line);
    if level < 1 || level > 3 {
        None
    } else {
        let rest = line.skip(level as int);
        if rest.len() == 0 || rest[0] != ' ' {
            None
        } else if trim(rest.drop_first()).len() == 0 {
            None
        } else {
            Some((level as u8, trim(rest.drop_first())))
        }
    }
}

/// The text of a list or quote item, trimmed and cut, unless it is blank.
pub open spec fn item_text(value: Seq<char>) -> Option<Seq<char>> {
    if trim(value).len() == 0 {
        None
    } else {
        Some(truncated(trim(value), TEXT_LIMIT as nat))
    }
}

/// `- ` or `* `, which open a bullet.
pub open spec fn is_bullet_line(line: Seq<char>) -> bool {
    starts_with(line, seq!['-', ' ']) || starts_with(line, seq!['*', ' '])
}

/// `> `, which opens a quote.
pub open spec fn is_quote_line(line: Seq<char>) -> bool {
    starts_with(line, seq!['>', ' '])
}

/// The block that one line of a note shows, if any.
pub open spec fn parse_line_spec(line: Seq<char>) -> Option<PreviewBlockModel> {
    if line.len() == 0 {
        None
    } else if heading_spec(line) is Some {
        let (level, text) = heading_spec(line)->0;
        Some(PreviewBlockModel::Heading { level, text: truncated(text, TEXT_LIMIT as nat) })
    } else if is_bullet_line(line) {
        match item_text(line.skip(2)) {
            Some(t) => Some(PreviewBlockModel::Bullet(t)),
            None => None,
        }
    } else if is_quote_line(line) {
        match item_text(line.skip(2)) {
            Some(t) => Some(PreviewBlockModel::Quote(t)),
            None => None,
        }
    } else {
        Some(PreviewBlockModel::Paragraph(truncated(line, TEXT_LIMIT as nat)))
    }
}

/// The reading state while a body is scanned line by line.
pub struct PreviewScan {
    pub blocks: Seq<PreviewBlockModel>,
    pub code_lines: Seq<Seq<char>>,
    pub in_code_block: bool,
    pub stopped: bool,
}

/// The scan before any line is read.
pub open spec fn initial_scan() -> PreviewScan {
    PreviewScan {
        blocks: Seq::empty(),
        code_lines: Seq::empty(),
        in_code_block: false,
        stopped: false,
    }
}

/// The collected code lines turned into one code block, if there are any.
pub open spec fn flush_code(st: PreviewScan) -> PreviewScan {
    if st.code_lines.len() == 0 {
        st
    } else {
        PreviewScan {
            blocks: st.blocks.push(PreviewBlockModel::Code(join(st.code_lines, seq![' ']))),
            code_lines: Seq::empty(),
            ..st
        }
    }
}

/// The three backticks that open and close a code block.
pub open spec fn fence() -> Seq<char> {
    seq!['`', '`', '`']
}

/// The scan after one more line of the body is read.
pub open spec fn scan_line(st: PreviewScan, raw: Seq<char>) -> PreviewScan {
    let line = trim(raw);
    if st.stopped {
        st
    } else if starts_with(line, fence()) {
        if st.in_code_block {
            let flushed = flush_code(st);
            if flushed.blocks.len() >= PREVIEW_BLOCK_LIMIT {
                PreviewScan { stopped: true, ..flushed }
            } else {
                PreviewScan { in_code_block: false, ..flushed }
            }
        } else {
            PreviewScan { in_code_block: true, ..st }
        }
    } else if st.in_code_block {
        if line.len() > 0 && st.code_lines.len() < CODE_LINE_LIMIT {
            PreviewScan { code_lines: st.code_lines.push(line), ..st }
        } else {
            st
        }
    } else {
        match parse_line_spec(line) {
            None => st,
            Some(block) => PreviewScan {
                blocks: st.blocks.push(block),
                stopped: st.blocks.len() + 1 >= PREVIEW_BLOCK_LIMIT,
                ..st
            },
        }
    }
}

/// The scan after all of `ls` is read.
pub open spec fn scan_lines(ls: Seq<Seq<char>>) -> PreviewScan
    decreases ls.len(),
{
    if ls.len() == 0 {
        initial_scan()
    } else {
        scan_line(scan_lines(ls.drop_last()), ls.last())
    }
}

/// The preview blocks of a note body: blocks of the lines read in order,
/// and a code block still open at the end closed when there is room.
pub open spec fn preview_blocks_spec(body: Seq<char>) -> Seq<PreviewBlockModel> {
    let st = scan_lines(lines(body));
    if st.in_code_block && st.blocks.len() < PREVIEW_BLOCK_LIMIT {
        flush_code(st).blocks
    } else {
        st.blocks
    }
}

// ---------------------------------------------------------------------------
// Lemmas
// ---------------------------------------------------------------------------

/// A scan that has stopped reads no further line.
proof fn lemma_stopped_scan_absorbs(ls: Seq<Seq<char>>, i: int)
    requires
        0 <= i <= ls.len(),
        scan_lines(ls.take(i)).stopped,
    ensures
        scan_lines(ls) == scan_lines(ls.take(i)),
    decreases ls.len() - i,
{
    if i < ls.len() {
        assert(ls.take(i + 1).drop_last() =~= ls.take(i));
        lemma_stopped_scan_absorbs(ls, i + 1);
    } else {
        assert(ls.take(i) =~= ls);
    }
}

/// Every scan ends with fewer code lines than the limit allows, and, unless
/// stopped, fewer blocks.
proof fn lemma_scan_bounds(ls: Seq<Seq<char>>)
    ensures
        scan_lines(ls).code_lines.len() <= CODE_LINE_LIMIT,
        !scan_lines(ls).stopped ==> scan_lines(ls).blocks.len() < PREVIEW_BLOCK_LIMIT,
        scan_lines(ls).blocks.len() <= PREVIEW_BLOCK_LIMIT,
    decreases ls.len(),
{
    if ls.len() > 0 {
        lemma_scan_bounds(ls.drop_last());
    }
}

proof fn lemma_leading_hashes_bound(s: Seq<char>)
    ensures
        leading_hashes(s) <= s.len(),
        forall|k: int| 0 <= k < leading_hashes(s) ==> s[k] == '#',
        leading_hashes(s) < s.len() ==> s[leading_hashes(s) as int] != '#',
    decreases s.len(),
{
    if s.len() > 0 && s[0] == '#' {
        lemma_leading_hashes_bound(s.drop_first());
        assert forall|k: int| 0 <= k < leading_hashes(s) implies s[k] == '#' by {
            if k > 0 {
                assert(s[k] == s.drop_first()[k - 1]);
            }
        }
    }
}

/// A note preview never shows more than four blocks.
pub proof fn lemma_preview_at_most_four_blocks(body: Seq<char>)
    ensures
        preview_blocks_spec(body).len() <= PREVIEW_BLOCK_LIMIT,
{
    lemma_scan_bounds(lines(body));
}

/// The text of a block other than code is at most `TEXT_LIMIT` characters,
/// followed by the three-dot marker when it was cut.
pub open spec fn text_within_limit(block: PreviewBlockModel) -> bool {
    match block {
        PreviewBlockModel::Heading { text, .. } => text.len() <= TEXT_LIMIT + 3,
        PreviewBlockModel::Bullet(text) => text.len() <= TEXT_LIMIT + 3,
        PreviewBlockModel::Quote(text) => text.len() <= TEXT_LIMIT + 3,
        PreviewBlockModel::Paragraph(text) => text.len() <= TEXT_LIMIT + 3,
        PreviewBlockModel::Code(_) => true,
    }
}

/// Cutting keeps at most the limit and the three-dot marker.
proof fn lemma_truncated_within(s: Seq<char>)
    ensures
        truncated(s, TEXT_LIMIT as nat).len() <= TEXT_LIMIT + 3,
{
}

/// The block of any line of a note shows at most `TEXT_LIMIT` characters of
/// text, and the `...` marker.
pub proof fn lemma_line_blocks_are_cut(line: Seq<char>)
    ensures
        parse_line_spec(line) matches Some(block) ==> text_within_limit(block),
{
    if heading_spec(line) is Some {
        let (level, text) = heading_spec(line)->0;
        lemma_truncated_within(text);
    }
    lemma_truncated_within(trim(line.skip(2)));
    lemma_truncated_within(line);
}

/// A line that opens no heading, bullet or quote (it starts with none of
/// `#`, `-`, `*` and `>`) shows as a paragraph: the whole line when it has
/// at most `TEXT_LIMIT` characters, else its first `TEXT_LIMIT` characters
/// and `...`.
pub proof fn lemma_paragraph_lines(line: Seq<char>)
    requires
        line.len() > 0,
        line[0] != '#',
        line[0] != '-',
        line[0] != '*',
        line[0] != '>',
    ensures
        parse_line_spec(line) == Some(
            PreviewBlockModel::Paragraph(
                if line.len() > TEXT_LIMIT {
                    line.take(TEXT_LIMIT as int) + seq!['.', '.', '.']
                } else {
                    line
                },
            ),
        ),
{
    assert(leading_hashes(line) == 0);
    assert(!starts_with(line, seq!['-', ' '])) by {
        if starts_with(line, seq!['-', ' ']) {
            assert(line.take(2)[0] == line[0]);
        }
    }
    assert(!starts_with(line, seq!['*', ' '])) by {
        if starts_with(line, seq!['*', ' ']) {
            assert(line.take(2)[0] == line[0]);
        }
    }
    assert(!starts_with(line, seq!['>', ' '])) by {
        if starts_with(line, seq!['>', ' ']) {
            assert(line.take(2)[0] == line[0]);
        }
    }
}

/// Every block that a scan gathered keeps its text within the limit.
proof fn lemma_scan_blocks_are_cut(ls: Seq<Seq<char>>)
    ensures
        forall|i: int| 0 <= i < scan_lines(ls).blocks.len() ==> text_within_limit(
            #[trigger] scan_lines(ls).blocks[i],
        ),
    decreases ls.len(),
{
    if ls.len() > 0 {
        lemma_scan_blocks_are_cut(ls.drop_last());
        lemma_line_blocks_are_cut(trim(ls.last()));
        let st = scan_lines(ls.drop_last());
        let next = scan_lines(ls);
        assert forall|i: int| 0 <= i < next.blocks.len() implies text_within_limit(
            #[trigger] next.blocks[i],
        ) by {
            if i < st.blocks.len() {
                assert(next.blocks[i] == st.blocks[i]);
            }
        }
    }
}

/// No block of a note preview shows more than `TEXT_LIMIT` characters of
/// text and the `...` marker.
pub proof fn lemma_preview_blocks_are_cut(body: Seq<char>)
    ensures
        forall|i: int| 0 <= i < preview_blocks_spec(body).len() ==> text_within_limit(
            #[trigger] preview_blocks_spec(body)[i],
        ),
{
    let st = scan_lines(lines(body));
    lemma_scan_blocks_are_cut(lines(body));
    assert forall|i: int| 0 <= i < preview_blocks_spec(body).len() implies text_within_limit(
        #[trigger] preview_blocks_spec(body)[i],
    ) by {
        if st.in_code_block && st.blocks.len() < PREVIEW_BLOCK_LIMIT && st.code_lines.len() > 0 {
            if i < st.blocks.len() {
                assert(preview_blocks_spec(body)[i] == st.blocks[i]);
            }
        }
    }
}

/// `text` cut to `TEXT_LIMIT` characters and `...` when it is longer.
pub open spec fn cut_text(text: Seq<char>) -> Seq<char> {
    if text.len() > TEXT_LIMIT {
        text.take(TEXT_LIMIT as int) + seq!['.', '.', '.']
    } else {
        text
    }
}

/// One to three `#`, a space and text that is not blank make a heading of
/// that level, with the text trimmed and cut; `- ` or `* ` and text that
/// is not blank make a bullet, and `> ` a quote, with the text trimmed and
/// cut.
pub proof fn lemma_headings_bullets_and_quotes(level: nat, marker: char, text: Seq<char>)
    requires
        trim(text).len() > 0,
    ensures
        1 <= level <= 3 ==> parse_line_spec(Seq::new(level, |i: int| '#') + seq![' '] + text)
            == Some(PreviewBlockModel::Heading { level: level as u8, text: cut_text(trim(text)) }),
        marker == '-' || marker == '*' ==> parse_line_spec(seq![marker, ' '] + text) == Some(
            PreviewBlockModel::Bullet(cut_text(trim(text))),
        ),
        parse_line_spec(seq!['>', ' '] + text) == Some(PreviewBlockModel::Quote(cut_text(trim(text)))),
{
    if 1 <= level <= 3 {
        let hashes = Seq::new(level, |i: int| '#');
        let line = hashes + seq![' '] + text;
        assert(leading_hashes(line) == level) by {
            lemma_hashes_count(hashes, seq![' '] + text);
            assert(line =~= hashes + (seq![' '] + text));
        }
        assert(line.skip(level as int) =~= seq![' '] + text);
        assert((seq![' '] + text).drop_first() =~= text);
        assert(line[0] == '#');
        assert(!starts_with(line, seq!['-', ' ']));
    }
    let b = seq![marker, ' '] + text;
    assert(b.skip(2) =~= text);
    assert(b.take(2) =~= seq![marker, ' ']);
    assert(b[0] == marker);
    let q = seq!['>', ' '] + text;
    assert(q.skip(2) =~= text);
    assert(q.take(2) =~= seq!['>', ' ']);
    assert(q[0] == '>');
    assert(leading_hashes(q) == 0);
    if marker == '-' || marker == '*' {
        assert(leading_hashes(b) == 0);
        assert(is_bullet_line(b));
    }
    assert(!is_bullet_line(q)) by {
        if starts_with(q, seq!['-', ' ']) {
            assert(q.take(2)[0] == seq!['-', ' '][0]);
        }
        if starts_with(q, seq!['*', ' ']) {
            assert(q.take(2)[0] == seq!['*', ' '][0]);
        }
    }
}

/// `#` repeated, then something that does not start with `#`.
proof fn lemma_hashes_count(hashes: Seq<char>, rest: Seq<char>)
    requires
        forall|i: int| 0 <= i < hashes.len() ==> hashes[i] == '#',
        rest.len() > 0,
        rest[0] != '#',
    ensures
        leading_hashes(hashes + rest) == hashes.len(),
    decreases hashes.len(),
{
    if hashes.len() == 0 {
        assert(hashes + rest =~= rest);
    } else {
        lemma_hashes_count(hashes.drop_first(), rest);
        assert((hashes + rest).drop_first() =~= hashes.drop_first() + rest);
    }
}

// ---------------------------------------------------------------------------
// Executable code
// ---------------------------------------------------------------------------

/// The number of `#` that `s` starts with.
fn count_leading_hashes(s: &Vec<char>) -> (n: usize)
    ensures
        n == leading_hashes(s@),
        n <= s.len(),
{
    let mut n: usize = 0;
    proof {
        lemma_leading_hashes_bound(s@);
    }
    while n < s.len() && s[n] == '#'
        invariant
            n <= s.len(),
            n <= leading_hashes(s@),
            forall|k: int| 0 <= k < leading_hashes(s@) ==> s@[k] == '#',
            leading_hashes(s@) < s.len() ==> s@[leading_hashes(s@) as int] != '#',
            leading_hashes(s@) <= s.len(),
        decreases s.len() - n,
    {
        n = n + 1;
    }
    n
}

/// `value` cut after `limit` characters, with `...` when characters were cut.
pub fn truncate_text(value: &str, limit: usize) -> (out: String)
    ensures
        out@ == truncated(value@, limit as nat),
{
    let chars = chars_of(value);
    let cut = truncate_char_vec(&chars, limit);
    string_from_chars(&cut)
}

/// The level and text of a heading line (`# text` up to `### text`).
pub fn heading(line: &str) -> (res: Option<(u8, &str)>)
    ensures
        res is Some <==> heading_spec(line@) is Some,
        res matches Some((level, text)) ==> heading_spec(line@) == Some((level, text@)),
{
    let chars = chars_of(line);
    let level = count_leading_hashes(&chars);
    assert(leading_hashes(line@) == level);
    if level < 1 || level > 3 {
        assert(heading_spec(line@) is None);
        return None;
    }
    let ghost rest = line@.skip(level as int);
    if level >= chars.len() || chars[level] != ' ' {
        assert(rest.len() == 0 || rest[0] != ' ');
        return None;
    }
    let after = sub_chars(&chars, level + 1, chars.len());
    assert(after@ =~= rest.drop_first());
    let (a, b) = trim_bounds(&after);
    if a == b {
        assert(trim(rest.drop_first()).len() == 0);
        return None;
    }
    let text = line.substring_char(level + 1 + a, level + 1 + b);
    assert(text@ =~= after@.subrange(a as int, b as int));
    Some((level as u8, text))
}

/// The text after a two-character marker, as a block built by `block`, unless it is blank.
pub fn non_empty_block<F>(value: &str, block: F) -> (res: Option<MarkdownPreviewBlock>)
    where
        F: FnOnce(String) -> MarkdownPreviewBlock,
    requires
        forall|t: String| block.requires((t,)),
    ensures
        item_text(value@) is None ==> res is None,
        item_text(value@) is Some ==> res is Some && exists|t: String|
            t@ == item_text(value@)->0 && block.ensures((t,), res->0),
{
    let chars = chars_of(value);
    let trimmed = trim_chars(&chars);
    if trimmed.len() == 0 {
        return None;
    }
    let cut = truncate_char_vec(&trimmed, TEXT_LIMIT);
    let text = string_from_chars(&cut);
    let ghost t = text;
    let b = block(text);
    Some(b)
}

/// Builds a bullet block.
fn bullet_block(text: String) -> (b: MarkdownPreviewBlock)
    ensures
        b.deep_view() == PreviewBlockModel::Bullet(text@),
{
    MarkdownPreviewBlock::Bullet(text)
}

/// Builds a quote block.
fn quote_block(text: String) -> (b: MarkdownPreviewBlock)
    ensures
        b.deep_view() == PreviewBlockModel::Quote(text@),
{
    MarkdownPreviewBlock::Quote(text)
}

/// The block that one (already trimmed) line of a note shows, if any.
pub fn parse_markdown_line(line: &str) -> (res: Option<MarkdownPreviewBlock>)
    ensures
        res.deep_view() == parse_line_spec(line@),
        res matches Some(block) ==> text_within_limit(block.deep_view()),
        line@.len() > 0 && line@[0] != '#' && line@[0] != '-' && line@[0] != '*' && line@[0] != '>'
            ==> res.deep_view() == Some(
            PreviewBlockModel::Paragraph(
                if line@.len() > TEXT_LIMIT {
                    line@.take(TEXT_LIMIT as int) + seq!['.', '.', '.']
                } else {
                    line@
                },
            ),
        ),
{
    proof {
        lemma_line_blocks_are_cut(line@);
        if line@.len() > 0 && line@[0] != '#' && line@[0] != '-' && line@[0] != '*' && line@[0]
            != '>' {
            lemma_paragraph_lines(line@);
        }
    }
    let chars = chars_of(line);
    if chars.len() == 0 {
        return None;
    }
    if let Some((level, text)) = heading(line) {
        return Some(MarkdownPreviewBlock::Heading { level, text: truncate_text(text, TEXT_LIMIT) });
    }
    let bullet_dash = vec!['-', ' '];
    let bullet_star = vec!['*', ' '];
    let quote = vec!['>', ' '];
    assert(bullet_dash@ =~= seq!['-', ' ']);
    assert(bullet_star@ =~= seq!['*', ' ']);
    assert(quote@ =~= seq!['>', ' ']);
    if chars_start_with(&chars, &bullet_dash) || chars_start_with(&chars, &bullet_star) {
        let rest = line.substring_char(2, chars.len());
        assert(rest@ =~= line@.skip(2));
        let res = non_empty_block(rest, |t: String| -> (b: MarkdownPreviewBlock)
            ensures
                b.deep_view() == PreviewBlockModel::Bullet(t@),
            { bullet_block(t) });
        return res;
    }
    if chars_start_with(&chars, &quote) {
        let rest = line.substring_char(2, chars.len());
        assert(rest@ =~= line@.skip(2));
        let res = non_empty_block(rest, |t: String| -> (b: MarkdownPreviewBlock)
            ensures
                b.deep_view() == PreviewBlockModel::Quote(t@),
            { quote_block(t) });
        return res;
    }
    Some(MarkdownPreviewBlock::Paragraph(truncate_text(line, TEXT_LIMIT)))
}

/// The strings of `parts` joined with `sep`.
fn join_strings(parts: &Vec<String>, sep: &Vec<char>) -> (out: Vec<char>)
    ensures
        out@ == join(parts.deep_view(), sep@),
{
    let mut out: Vec<char> = Vec::new();
    let mut i: usize = 0;
    while i < parts.len()
        invariant
            i <= parts.len(),
            out@ == join(parts.deep_view().take(i as int), sep@),
        decreases parts.len() - i,
    {
        let ghost prefix = parts.deep_view().take(i + 1);
        assert(prefix.drop_last() =~= parts.deep_view().take(i as int));
        if i > 0 {
            extend_chars(&mut out, sep);
        }
        let part = chars_of(parts[i].as_str());
        extend_chars(&mut out, &part);
        i = i + 1;
        proof {
            if i == 1 {
                assert(out@ =~= parts.deep_view()[0]);
            }
        }
    }
    assert(parts.deep_view().take(parts.len() as int) =~= parts.deep_view());
    out
}

/// Turns the collected code lines into one code block, if there are any.
pub fn push_code_block(blocks: &mut Vec<MarkdownPreviewBlock>, code_lines: &mut Vec<String>)
    ensures
        old(code_lines)@.len() == 0 ==> final(blocks)@ == old(blocks)@ && final(code_lines)@
            == old(code_lines)@,
        old(code_lines)@.len() > 0 ==> final(blocks).deep_view() == old(blocks).deep_view().push(
            PreviewBlockModel::Code(join(old(code_lines).deep_view(), seq![' '])),
        ) && final(code_lines)@.len() == 0,
{
    if code_lines.len() == 0 {
        return;
    }
    let sep = vec![' '];
    assert(sep@ =~= seq![' ']);
    let joined = join_strings(code_lines, &sep);
    let ghost before = blocks.deep_view();
    blocks.push(MarkdownPreviewBlock::Code(string_from_chars(&joined)));
    assert(blocks.deep_view() =~= before.push(
        PreviewBlockModel::Code(join(old(code_lines).deep_view(), seq![' '])),
    ));
    code_lines.clear();
}

/// The preview blocks of a note body: at most four blocks, each heading,
/// bullet, quote or paragraph line giving one, and each fenced code block
/// giving one block of up to three of its non-blank lines joined by spaces.
pub fn markdown_preview_blocks(body: &str) -> (blocks: Vec<MarkdownPreviewBlock>)
    ensures
        blocks.deep_view() == preview_blocks_spec(body@),
{
    let mut blocks: Vec<MarkdownPreviewBlock> = Vec::new();
    let mut code_lines: Vec<String> = Vec::new();
    let mut in_code_block = false;
    let body_chars = chars_of(body);
    let all_lines = split_lines(&body_chars);
    let ghost ls = lines(body@);
    let fence_chars = vec!['`', '`', '`'];
    assert(fence_chars@ =~= fence());
    assert(blocks.deep_view() =~= Seq::<PreviewBlockModel>::empty());
    assert(code_lines.deep_view() =~= Seq::<Seq<char>>::empty());
    assert(ls.take(0) =~= Seq::<Seq<char>>::empty());
    let mut i: usize = 0;
    let mut stopped = false;
    while i < all_lines.len() && !stopped
        invariant
            all_lines.deep_view() == ls,
            fence_chars@ == fence(),
            i <= all_lines.len(),
            scan_lines(ls.take(i as int)).blocks == blocks.deep_view(),
            scan_lines(ls.take(i as int)).code_lines == code_lines.deep_view(),
            scan_lines(ls.take(i as int)).in_code_block == in_code_block,
            scan_lines(ls.take(i as int)).stopped == stopped,
        decreases all_lines.len() - i,
    {
        let ghost prev = scan_lines(ls.take(i as int));
        assert(ls.take(i + 1).drop_last() =~= ls.take(i as int));
        proof {
            lemma_chars_deep_view(all_lines@[i as int]);
            lemma_scan_bounds(ls.take(i as int));
        }
        assert(ls.take(i + 1).last() == all_lines@[i as int]@);
        let trimmed = trim_chars(&all_lines[i]);
        if chars_start_with(&trimmed, &fence_chars) {
            if in_code_block {
                push_code_block(&mut blocks, &mut code_lines);
                assert(code_lines.deep_view() =~= flush_code(prev).code_lines);
                if blocks.len() >= PREVIEW_BLOCK_LIMIT {
                    stopped = true;
                } else {
                    in_code_block = false;
                }
            } else {
                in_code_block = true;
            }
        } else if in_code_block {
            if trimmed.len() > 0 && code_lines.len() < CODE_LINE_LIMIT {
                let ghost before = code_lines.deep_view();
                code_lines.push(string_from_chars(&trimmed));
                assert(code_lines.deep_view() =~= before.push(trimmed@));
            }
        } else {
            let line_text = string_from_chars(&trimmed);
            match parse_markdown_line(line_text.as_str()) {
                None => {},
                Some(block) => {
                    let ghost before = blocks.deep_view();
                    let ghost model = block.deep_view();
                    blocks.push(block);
                    assert(blocks.deep_view() =~= before.push(model));
                    if blocks.len() >= PREVIEW_BLOCK_LIMIT {
                        stopped = true;
                    }
                },
            }
        }
        i = i + 1;
    }
    proof {
        if stopped {
            lemma_stopped_scan_absorbs(ls, i as int);
        } else {
            assert(ls.take(i as int) =~= ls);
        }
        lemma_scan_bounds(ls);
    }
    if in_code_block && blocks.len() < PREVIEW_BLOCK_LIMIT {
        push_code_block(&mut blocks, &mut code_lines);
    }
    blocks
}

} // verus!
