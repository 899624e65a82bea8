//! Text helpers shared by the renderers: line decoding, display columns,
//! decimal numbers, repeated characters and joined lists.
use vstd::prelude::*;
use vstd::utf8::{decode_utf8, encode_utf8, is_char_boundary};
use unicode_segmentation::UnicodeSegmentation;

verus! {

broadcast use vstd::utf8::encode_utf8_decode_utf8;

/// The characters that `String::from_utf8_lossy` decodes from some bytes.
pub uninterp spec fn lossy_utf8(bytes: Seq<u8>) -> Seq<char>;

/// The number of extended grapheme clusters in some text.
pub uninterp spec fn grapheme_count(text: Seq<char>) -> nat;

/// The text with its trailing white space removed, as `str::trim_end` gives it.
pub uninterp spec fn trimmed_end(text: Seq<char>) -> Seq<char>;

/// The JSON string literal (quotes and escapes included) that serde_json
/// writes for some text.
pub uninterp spec fn json_quoted(text: Seq<char>) -> Seq<char>;

/// Every horizontal tab replaced by one space; no other character changes.
pub open spec fn tabs_to_spaces(text: Seq<char>) -> Seq<char> {
    text.map_values(|c: char| if c == '\t' { ' ' } else { c })
}

/// The characters whose UTF-8 encoding is the first `n` bytes of the text's.
pub open spec fn byte_prefix(text: Seq<char>, n: int) -> Seq<char> {
    decode_utf8(encode_utf8(text).subrange(0, n))
}

/// The line a typo sits in, as the renderers show it: the raw bytes decoded
/// leniently, with each tab shown as one space.
pub open spec fn display_line(buffer: Seq<u8>) -> Seq<char> {
    tabs_to_spaces(lossy_utf8(buffer))
}

/// Whether a byte offset is a character boundary of the displayed line
/// (the offset lies within the line and does not split a character).
pub open spec fn offset_ok(buffer: Seq<u8>, byte_offset: int) -> bool {
    is_char_boundary(encode_utf8(display_line(buffer)), byte_offset)
}

/// The display column of a byte offset: the number of grapheme clusters
/// before it in the displayed line.
pub open spec fn column_of(buffer: Seq<u8>, byte_offset: int) -> nat {
    grapheme_count(byte_prefix(display_line(buffer), byte_offset))
}

/// The ASCII digit for a value below ten.
pub open spec fn digit_char(d: nat) -> char {
    if d == 0 { '0' } else if d == 1 { '1' } else if d == 2 { '2' } else if d == 3 { '3' }
    else if d == 4 { '4' } else if d == 5 { '5' } else if d == 6 { '6' } else if d == 7 { '7' }
    else if d == 8 { '8' } else { '9' }
}

/// The decimal digits of a number, without sign or leading zeros.
pub open spec fn decimal(n: nat) -> Seq<char>
    decreases n,
{
    if n < 10 {
        seq![digit_char(n)]
    } else {
        decimal(n / 10).push(digit_char(n % 10))
    }
}

/// A character repeated `n` times.
pub open spec fn repeated(c: char, n: nat) -> Seq<char> {
    Seq::new(n, |i: int| c)
}

/// The pieces written one after another, with `sep` between two neighbours.
pub open spec fn joined(pieces: Seq<Seq<char>>, sep: Seq<char>) -> Seq<char>
    decreases pieces.len(),
{
    if pieces.len() == 0 {
        seq![]
    } else if pieces.len() == 1 {
        pieces[0]
    } else {
        joined(pieces.drop_last(), sep) + sep + pieces.last()
    }
}

/// A piece between backticks.
pub open spec fn ticked(s: Seq<char>) -> Seq<char> {
    "`"@ + s + "`"@
}

/// Suggested words, each between backticks, separated by a comma and a space.
pub open spec fn ticked_list(words: Seq<Seq<char>>) -> Seq<char> {
    joined(words.map_values(|w: Seq<char>| ticked(w)), ", "@)
}

/// The views of some strings.
pub open spec fn views(v: Seq<String>) -> Seq<Seq<char>> {
    v.map_values(|s: String| s@)
}

/// Relies on `String::from_utf8_lossy`: its result depends on the bytes alone.
#[verifier::external_body]
fn decode_lossy(bytes: &[u8]) -> (r: String)
    ensures
        r@ == lossy_utf8(bytes@),
{
    String::from_utf8_lossy(bytes).into_owned()
}

/// Relies on `str::replace` with the pattern `'\t'` and the replacement `" "`.
#[verifier::external_body]
fn replace_tabs(s: &str) -> (r: String)
    ensures
        r@ == tabs_to_spaces(s@),
{
    s.replace('\t', " ")
}

/// Relies on `str::trim_end`: its result depends on the text alone.
#[verifier::external_body]
pub(crate) fn trim_end(s: &str) -> (r: &str)
    ensures
        r@ == trimmed_end(s@),
{
    s.trim_end()
}

/// Relies on unicode-segmentation's `graphemes(true)`, counted.
#[verifier::external_body]
fn count_graphemes(s: &str) -> (r: usize)
    ensures
        r as nat == grapheme_count(s@),
{
    UnicodeSegmentation::graphemes(s, true).count()
}

/// Relies on `serde_json::to_string` on a `str`, which writes into memory
/// and so cannot fail.
#[verifier::external_body]
pub(crate) fn json_quote(s: &str) -> (r: String)
    ensures
        r@ == json_quoted(s@),
{
    match serde_json::to_string(s) {
        Ok(q) => q,
        Err(_) => String::new(),
    }
}

/// Relies on `itertools::join`: each item written as it is, with `sep`
/// between two neighbours.
#[verifier::external_body]
pub(crate) fn join_all(items: &Vec<String>, sep: &str) -> (r: String)
    ensures
        r@ == joined(views(items@), sep@),
{
    itertools::join(items.iter(), sep)
}

/// The display line of a raw buffer: decoded leniently, tabs shown as spaces.
pub fn line_text(buffer: &Vec<u8>) -> (r: String)
    ensures
        r@ == display_line(buffer@),
{
    let line = decode_lossy(buffer.as_slice());
    replace_tabs(line.as_str())
}

/// The display column of `byte_offset` in `buffer`, or `None` where the
/// offset is not a character boundary of the displayed line.
pub fn typo_column(buffer: &Vec<u8>, byte_offset: usize) -> (r: Option<usize>)
    ensures
        r.is_some() == offset_ok(buffer@, byte_offset as int),
        r.is_some() ==> r.unwrap() as nat == column_of(buffer@, byte_offset as int),
{
    let line = line_text(buffer);
    let s = line.as_str();
    if !s.is_char_boundary(byte_offset) {
        return None;
    }
    let (head, _) = s.split_at(byte_offset);
    proof {
        assert(head@ == decode_utf8(encode_utf8(head@)));
    }
    Some(count_graphemes(head))
}

/// The single-digit string for a value below ten.
fn digit_text(d: usize) -> (r: &'static str)
    requires
        d < 10,
    ensures
        r@ == seq![digit_char(d as nat)],
{
    proof {
        reveal_strlit("0");
        reveal_strlit("1");
        reveal_strlit("2");
        reveal_strlit("3");
        reveal_strlit("4");
        reveal_strlit("5");
        reveal_strlit("6");
        reveal_strlit("7");
        reveal_strlit("8");
        reveal_strlit("9");
    }
    if d == 0 { "0" } else if d == 1 { "1" } else if d == 2 { "2" } else if d == 3 { "3" }
    else if d == 4 { "4" } else if d == 5 { "5" } else if d == 6 { "6" } else if d == 7 { "7" }
    else if d == 8 { "8" } else { "9" }
}

/// The decimal digits of `n`.
pub fn decimal_text(n: usize) -> (r: String)
    ensures
        r@ == decimal(n as nat),
{
    let mut rest: usize = n / 10;
    let mut acc = String::from_str(digit_text(n % 10));
    assert(decimal(n as nat) == if rest == 0 { acc@ } else { decimal(rest as nat) + acc@ });
    while rest > 0
        invariant
            decimal(n as nat) == if rest == 0 { acc@ } else { decimal(rest as nat) + acc@ },
        decreases rest,
    {
        let d = digit_text(rest % 10);
        let ghost before = acc@;
        acc = String::from_str(d).concat(acc.as_str());
        let next: usize = rest / 10;
        proof {
            assert(decimal(rest as nat) == if next == 0 { d@ } else { decimal(next as nat) + d@ });
            if next != 0 {
                assert(decimal(next as nat) + d@ + before =~= decimal(next as nat) + (d@ + before));
            }
        }
        rest = next;
    }
    acc
}

/// The one-character string `piece` repeated `n` times.
pub fn repeat_text(piece: &str, n: usize) -> (r: String)
    requires
        piece@.len() == 1,
    ensures
        r@ == repeated(piece@[0], n as nat),
{
    let mut acc = String::new();
    let mut i: usize = 0;
    while i < n
        invariant
            i <= n,
            piece@.len() == 1,
            acc@ == repeated(piece@[0], i as nat),
        decreases n - i,
    {
        acc.append(piece);
        i = i + 1;
        assert(acc@ =~= repeated(piece@[0], i as nat));
    }
    acc
}

/// Suggested words, each between backticks, separated by `", "`.
pub fn ticked_text(words: &Vec<String>) -> (r: String)
    ensures
        r@ == ticked_list(views(words@)),
{
    let mut items: Vec<String> = Vec::new();
    let mut i: usize = 0;
    while i < words.len()
        invariant
            i <= words.len(),
            items@.len() == i,
            forall|k: int| 0 <= k < i ==> #[trigger] items@[k]@ == ticked(words@[k]@),
        decreases words.len() - i,
    {
        let mut item = String::from_str("`");
        item.append(words[i].as_str());
        item.append("`");
        items.push(item);
        i = i + 1;
    }
    assert(views(items@) =~= views(words@).map_values(|w: Seq<char>| ticked(w)));
    join_all(&items, ", ")
}

} // verus!
