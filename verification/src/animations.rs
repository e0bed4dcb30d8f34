//! Animation names and clip timing.

use crate::timer::NANOS_PER_MILLI;
use vstd::prelude::*;

verus! {

/// Milliseconds that one frame of a clip is shown.
pub const DEFAULT_FRAME_MS: u32 = 100;

/// Names a registered animation.
#[derive(Clone, Copy, Debug, PartialEq, Eq, Structural)]
pub struct AnimationId(pub u64);

// ───────── Characters ─────────
/// Whether `c` parts two segments of a path.
pub open spec fn is_separator(c: char) -> bool {
    c == '/' || c == '\\'
}

/// Whether `c` is an ASCII letter or digit.
pub open spec fn is_alnum(c: char) -> bool {
    ('a' <= c && c <= 'z') || ('A' <= c && c <= 'Z') || ('0' <= c && c <= '9')
}

/// `c` with an ASCII capital turned into its small letter.
pub open spec fn lower(c: char) -> char {
    if 'A' <= c && c <= 'Z' {
        ((c as u8) + 32) as char
    } else {
        c
    }
}

/// Whether `c` parts two segments of a path.
pub fn is_path_separator(c: char) -> (b: bool)
    ensures
        b == is_separator(c),
{
    c == '/' || c == '\\'
}

/// Whether `c` is an ASCII letter or digit.
pub fn is_ascii_alnum(c: char) -> (b: bool)
    ensures
        b == is_alnum(c),
{
    ('a' <= c && c <= 'z') || ('A' <= c && c <= 'Z') || ('0' <= c && c <= '9')
}

/// Turns an ASCII capital into its small letter.
pub fn to_lower(c: char) -> (l: char)
    ensures
        l == lower(c),
{
    if 'A' <= c && c <= 'Z' {
        ((c as u8) + 32) as char
    } else {
        c
    }
}

// ───────── Strings ─────────
/// The characters of a string.
pub fn chars_of(s: &str) -> (v: Vec<char>)
    ensures
        v@ == s@,
{
    let n = s.unicode_len();
    let mut v: Vec<char> = Vec::new();
    let mut i: usize = 0;
    while i < n
        invariant
            n == s@.len(),
            i <= n,
            v@ == s@.subrange(0, i as int),
        decreases n - i,
    {
        v.push(s.get_char(i));
        i += 1;
    }
    v
}

/// `String::push`: appends one character to the string.
#[verifier::external_body]
fn push_char(s: &mut String, c: char)
    ensures
        final(s)@ == old(s)@.push(c),
{
    s.push(c)
}

/// The string made of the given characters.
pub fn string_of(v: &Vec<char>) -> (s: String)
    ensures
        s@ == v@,
{
    let mut s = String::new();
    let mut i: usize = 0;
    while i < v.len()
        invariant
            i <= v.len(),
            s@ == v@.subrange(0, i as int),
        decreases v.len() - i,
    {
        push_char(&mut s, v[i]);
        i += 1;
    }
    s
}

/// Appends all of `tail` to `out`.
fn extend(out: &mut Vec<char>, tail: &Vec<char>)
    ensures
        final(out)@ == old(out)@ + tail@,
{
    let mut i: usize = 0;
    while i < tail.len()
        invariant
            i <= tail.len(),
            out@ == old(out)@ + tail@.subrange(0, i as int),
        decreases tail.len() - i,
    {
        out.push(tail[i]);
        i += 1;
    }
}

// ───────── Names ─────────
/// The slug of a segment: its ASCII letters and digits in small letters,
/// with one underscore wherever something else stood between two of them.
///
/// Read from the left: a character that is no letter or digit adds nothing;
/// a letter or digit is appended, after an underscore if the slug so far is
/// not empty and the character before was no letter or digit.
pub open spec fn slug_spec(s: Seq<char>) -> Seq<char>
    decreases s.len(),
{
    if s.len() == 0 {
        Seq::empty()
    } else {
        let head = s.drop_last();
        let c = s.last();
        let so_far = slug_spec(head);
        if !is_alnum(c) {
            so_far
        } else if so_far.len() == 0 || is_alnum(head.last()) {
            so_far.push(lower(c))
        } else {
            so_far.push('_').push(lower(c))
        }
    }
}

/// The segments of a path: what stands between its separators, empty
/// segments included. There is always at least one.
pub open spec fn segments_spec(s: Seq<char>) -> Seq<Seq<char>>
    decreases s.len(),
{
    if s.len() == 0 {
        seq![Seq::empty()]
    } else {
        let before = segments_spec(s.drop_last());
        if is_separator(s.last()) {
            before.push(Seq::empty())
        } else {
            before.drop_last().push(before.last().push(s.last()))
        }
    }
}

/// The slugs of the given segments, in order, without the empty ones.
pub open spec fn kept_slugs(segments: Seq<Seq<char>>) -> Seq<Seq<char>>
    decreases segments.len(),
{
    if segments.len() == 0 {
        Seq::empty()
    } else {
        let before = kept_slugs(segments.drop_last());
        let slug = slug_spec(segments.last());
        if slug.len() == 0 {
            before
        } else {
            before.push(slug)
        }
    }
}

/// The parts with an underscore between each two.
pub open spec fn joined(parts: Seq<Seq<char>>) -> Seq<char>
    decreases parts.len(),
{
    if parts.len() == 0 {
        Seq::empty()
    } else if parts.len() == 1 {
        parts[0]
    } else {
        joined(parts.drop_last()).push('_') + parts.last()
    }
}

/// The name given to a path that holds no letter or digit.
pub open spec fn unnamed() -> Seq<char> {
    seq!['u', 'n', 'n', 'a', 'm', 'e', 'd']
}

/// The name made of the given parts: the prefix, then the parts before the
/// last with an underscore before each, then a colon and the last part.
/// Without parts the name is the prefix, a colon and `unnamed`.
pub open spec fn name_of_parts(parts: Seq<Seq<char>>, prefix: Seq<char>) -> Seq<char> {
    if parts.len() == 0 {
        prefix.push(':') + unnamed()
    } else if parts.len() == 1 {
        prefix.push(':') + parts.last()
    } else {
        (prefix.push('_') + joined(parts.drop_last())).push(':') + parts.last()
    }
}

/// The animation name of a path: `combat/swordRunSlash` under the prefix
/// `player` is `player_combat:swordrunslash`.
pub open spec fn anim_name_spec(raw: Seq<char>, prefix: Seq<char>) -> Seq<char> {
    name_of_parts(kept_slugs(segments_spec(raw)), prefix)
}

/// The views of a sequence of vectors.
pub open spec fn views(v: Seq<Vec<char>>) -> Seq<Seq<char>> {
    v.map_values(|x: Vec<char>| x@)
}

/// A path always has at least one segment.
pub proof fn lemma_segments_nonempty(s: Seq<char>)
    ensures
        segments_spec(s).len() >= 1,
    decreases s.len(),
{
    if s.len() > 0 {
        lemma_segments_nonempty(s.drop_last());
    }
}

/// A slug holds only small ASCII letters, digits and underscores, and it
/// neither begins nor ends with an underscore.
pub proof fn lemma_slug_shape(s: Seq<char>)
    ensures
        forall|i: int|
            0 <= i < slug_spec(s).len() ==> #[trigger] slug_spec(s)[i] == '_' || (is_alnum(
                slug_spec(s)[i],
            ) && lower(slug_spec(s)[i]) == slug_spec(s)[i]),
        slug_spec(s).len() > 0 ==> slug_spec(s).first() != '_' && slug_spec(s).last() != '_',
        slug_spec(s).len() > 0 && s.len() > 0 && is_alnum(s.last()) ==> slug_spec(s).last()
            == lower(s.last()),
    decreases s.len(),
{
    if s.len() > 0 {
        lemma_slug_shape(s.drop_last());
    }
}

/// Computes [`slug_spec`].
pub fn slug(segment: &Vec<char>) -> (out: Vec<char>)
    ensures
        out@ == slug_spec(segment@),
{
    let mut out: Vec<char> = Vec::new();
    let mut prev_alnum = false;
    let mut i: usize = 0;
    while i < segment.len()
        invariant
            i <= segment.len(),
            out@ == slug_spec(segment@.subrange(0, i as int)),
            prev_alnum == (i > 0 && is_alnum(segment@[i - 1])),
        decreases segment.len() - i,
    {
        let c = segment[i];
        proof {
            let grown = segment@.subrange(0, i + 1);
            assert(grown.drop_last() == segment@.subrange(0, i as int));
        }
        if is_ascii_alnum(c) {
            if out.len() > 0 && !prev_alnum {
                out.push('_');
            }
            out.push(to_lower(c));
            prev_alnum = true;
        } else {
            prev_alnum = false;
        }
        i += 1;
    }
    assert(segment@.subrange(0, segment.len() as int) == segment@);
    out
}

/// The slugs of the segments of `raw` that are not empty.
pub fn slug_parts(raw: &Vec<char>) -> (parts: Vec<Vec<char>>)
    ensures
        views(parts@) == kept_slugs(segments_spec(raw@)),
{
    let mut parts: Vec<Vec<char>> = Vec::new();
    let mut current: Vec<char> = Vec::new();
    let mut i: usize = 0;
    while i < raw.len()
        invariant
            i <= raw.len(),
            segments_spec(raw@.subrange(0, i as int)).len() >= 1,
            views(parts@) == kept_slugs(segments_spec(raw@.subrange(0, i as int)).drop_last()),
            current@ == segments_spec(raw@.subrange(0, i as int)).last(),
        decreases raw.len() - i,
    {
        let c = raw[i];
        let ghost before = segments_spec(raw@.subrange(0, i as int));
        let ghost grown = raw@.subrange(0, i + 1);
        proof {
            assert(grown.drop_last() == raw@.subrange(0, i as int));
            lemma_segments_nonempty(grown);
        }
        if is_path_separator(c) {
            let piece = slug(&current);
            if piece.len() > 0 {
                parts.push(piece);
            }
            current = Vec::new();
            proof {
                assert(segments_spec(grown).drop_last() == before);
            }
        } else {
            current.push(c);
            proof {
                assert(segments_spec(grown).drop_last() == before.drop_last());
            }
        }
        i += 1;
    }
    proof {
        assert(raw@.subrange(0, raw.len() as int) == raw@);
    }
    let piece = slug(&current);
    if piece.len() > 0 {
        parts.push(piece);
    }
    parts
}

/// Appends the first `count` parts to `out`, with an underscore between
/// each two.
fn append_joined(out: &mut Vec<char>, parts: &Vec<Vec<char>>, count: usize)
    requires
        count <= parts.len(),
    ensures
        final(out)@ == old(out)@ + joined(views(parts@).subrange(0, count as int)),
{
    let mut i: usize = 0;
    while i < count
        invariant
            i <= count <= parts.len(),
            out@ == old(out)@ + joined(views(parts@).subrange(0, i as int)),
        decreases count - i,
    {
        let ghost head = views(parts@).subrange(0, i as int);
        let ghost grown = views(parts@).subrange(0, i + 1);
        proof {
            assert(grown.drop_last() == head);
        }
        if i > 0 {
            out.push('_');
        }
        extend(out, &parts[i]);
        i += 1;
    }
}

/// The animation name of `raw` under the prefix `prefix_root`: the slugs of
/// the path's segments, the last one after a colon and the others joined to
/// the prefix with underscores.
pub fn to_anim_name_with_prefix(raw: &str, prefix_root: &str) -> (name: String)
    ensures
        name@ == anim_name_spec(raw@, prefix_root@),
{
    let raw_chars = chars_of(raw);
    let parts = slug_parts(&raw_chars);
    let mut out = chars_of(prefix_root);
    let n = parts.len();
    if n == 0 {
        out.push(':');
        out.push('u');
        out.push('n');
        out.push('n');
        out.push('a');
        out.push('m');
        out.push('e');
        out.push('d');
    } else {
        if n > 1 {
            out.push('_');
            append_joined(&mut out, &parts, n - 1);
        }
        out.push(':');
        extend(&mut out, &parts[n - 1]);
    }
    string_of(&out)
}

/// The animation name of `raw` among the player's animations.
pub fn to_anim_name(raw: &str) -> (name: String)
    ensures
        name@ == anim_name_spec(raw@, "player"@),
{
    to_anim_name_with_prefix(raw, "player")
}

/// The animation name of `raw` among the enemies' animations.
pub fn to_enemy_anim_name(raw: &str) -> (name: String)
    ensures
        name@ == anim_name_spec(raw@, "enemy"@),
{
    to_anim_name_with_prefix(raw, "enemy")
}

// ───────── Sheets ─────────
/// One animation of a sprite sheet: its path-like name, its row on the sheet
/// and the column of its last frame.
#[derive(Clone, Debug)]
pub struct AnimationEntry {
    pub name: String,
    pub row: usize,
    pub frame_count: usize,
    pub last_col: usize,
}

/// The frames of one row that an animation plays.
#[derive(Clone, Copy, Debug, PartialEq, Eq)]
pub enum RowFrames {
    /// Every column of the row.
    Whole,
    /// The columns from the first up to and including this one.
    UpTo(usize),
}

/// The frames that an animation ending in column `last_col` plays on a
/// sheet of `columns` columns.
pub fn frames_of_row(last_col: usize, columns: usize) -> (frames: RowFrames)
    ensures
        frames == (if last_col + 1 == columns {
            RowFrames::Whole
        } else {
            RowFrames::UpTo(last_col)
        }),
{
    if last_col < usize::MAX && last_col + 1 == columns {
        RowFrames::Whole
    } else {
        RowFrames::UpTo(last_col)
    }
}

/// How long a named clip plays, in nanoseconds.
#[derive(Clone, Debug)]
pub struct ClipLength {
    pub name: String,
    pub nanos: u64,
}

/// The playing time of a clip whose last frame stands in column `last_col`:
/// that many frames of [`DEFAULT_FRAME_MS`] each, the column counted in 32
/// bits.
pub open spec fn clip_nanos(last_col: usize) -> u64 {
    ((last_col as int % 0x1_0000_0000) * DEFAULT_FRAME_MS * NANOS_PER_MILLI) as u64
}

/// The length recorded for `name`; where a name occurs more than once the
/// last entry counts.
pub open spec fn length_of(table: Seq<ClipLength>, name: Seq<char>) -> Option<u64>
    decreases table.len(),
{
    if table.len() == 0 {
        None
    } else if table.last().name@ == name {
        Some(table.last().nanos)
    } else {
        length_of(table.drop_last(), name)
    }
}

/// Computes [`clip_nanos`].
pub fn clip_length_nanos(last_col: usize) -> (nanos: u64)
    ensures
        nanos == clip_nanos(last_col),
{
    let frames: u64 = last_col as u64 % 0x1_0000_0000;
    frames * DEFAULT_FRAME_MS as u64 * NANOS_PER_MILLI
}

/// The playing time of every animation of a sheet, under its player
/// animation name.
pub fn clip_lengths(animations: &Vec<AnimationEntry>) -> (table: Vec<ClipLength>)
    ensures
        table@.len() == animations@.len(),
        forall|i: int|
            0 <= i < table@.len() ==> (#[trigger] table@[i]).name@ == anim_name_spec(
                animations@[i].name@,
                "player"@,
            ) && table@[i].nanos == clip_nanos(animations@[i].last_col),
{
    let mut table: Vec<ClipLength> = Vec::new();
    let mut i: usize = 0;
    while i < animations.len()
        invariant
            i <= animations.len(),
            table@.len() == i,
            forall|k: int|
                0 <= k < i ==> (#[trigger] table@[k]).name@ == anim_name_spec(
                    animations@[k].name@,
                    "player"@,
                ) && table@[k].nanos == clip_nanos(animations@[k].last_col),
        decreases animations.len() - i,
    {
        let entry = &animations[i];
        let name = to_anim_name(entry.name.as_str());
        table.push(ClipLength { name, nanos: clip_length_nanos(entry.last_col) });
        i += 1;
    }
    table
}

/// Computes [`length_of`].
pub fn clip_length(table: &Vec<ClipLength>, name: &str) -> (nanos: Option<u64>)
    ensures
        nanos == length_of(table@, name@),
{
    let wanted = String::from_str(name);
    let mut i: usize = table.len();
    proof {
        assert(table@.subrange(0, i as int) == table@);
    }
    while i > 0
        invariant
            i <= table.len(),
            wanted@ == name@,
            length_of(table@, name@) == length_of(table@.subrange(0, i as int), name@),
        decreases i,
    {
        proof {
            let upto = table@.subrange(0, i as int);
            assert(upto.drop_last() == table@.subrange(0, i - 1));
        }
        i -= 1;
        if table[i].name == wanted {
            return Some(table[i].nanos);
        }
    }
    None
}

} // verus!
