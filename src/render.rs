use vstd::prelude::*;
use vstd::string::*;

use crate::words::strings_view;

verus! {

/// How one character of the target text is shown.
#[derive(Clone, Copy, Debug, PartialEq, Eq, Structural)]
pub enum Tag {
    /// The input has this character at its position.
    Matched,
    /// The input has another character at its position.
    Mismatched,
    /// The input does not reach this position yet.
    Pending,
    /// The space that joins two words; it is not compared.
    Separator,
}

/// One character of the target text with its tag.
#[derive(Clone, Copy, Debug, PartialEq, Eq, Structural)]
pub struct Glyph {
    pub ch: char,
    pub tag: Tag,
}

/// The tag of target character `c` compared with input position `p`.
pub open spec fn tag_at(input: Seq<char>, p: int, c: char) -> Tag {
    if p < input.len() {
        if input[p] == c {
            Tag::Matched
        } else {
            Tag::Mismatched
        }
    } else {
        Tag::Pending
    }
}

/// The input position compared with character `j` of word `i` whose length
/// is `len`: every word is taken to be followed by one separator.
pub open spec fn input_position(i: int, len: int, j: int) -> int {
    i * (len + 1) + j
}

/// The glyphs of the first `n` characters of word `w` at word index `i`.
pub open spec fn word_glyphs_upto(w: Seq<char>, i: int, input: Seq<char>, n: nat) -> Seq<Glyph>
    decreases n,
{
    if n == 0 {
        Seq::empty()
    } else {
        let j = n - 1;
        word_glyphs_upto(w, i, input, j as nat).push(
            Glyph { ch: w[j], tag: tag_at(input, input_position(i, w.len() as int, j), w[j]) },
        )
    }
}

/// The glyphs of word `w` at word index `i`.
pub open spec fn word_glyphs(w: Seq<char>, i: int, input: Seq<char>) -> Seq<Glyph> {
    word_glyphs_upto(w, i, input, w.len())
}

/// The separator glyph that stands before word `i`, if any.
pub open spec fn separator_before(i: int) -> Seq<Glyph> {
    if i > 0 {
        seq![Glyph { ch: ' ', tag: Tag::Separator }]
    } else {
        Seq::empty()
    }
}

/// The glyphs of the first `n` words, joined by single separators.
pub open spec fn glyphs_upto(words: Seq<Seq<char>>, n: nat, input: Seq<char>) -> Seq<Glyph>
    decreases n,
{
    if n == 0 {
        Seq::empty()
    } else {
        glyphs_upto(words, (n - 1) as nat, input) + separator_before(n - 1) + word_glyphs(
            words[n - 1],
            n - 1,
            input,
        )
    }
}

/// The whole target text, tagged against the input.
pub open spec fn glyphs(words: Seq<Seq<char>>, input: Seq<char>) -> Seq<Glyph> {
    glyphs_upto(words, words.len(), input)
}

/// The tag of target character `c`, character `j` of word `i` of length `len`.
fn tag_for(input: &Vec<char>, i: usize, len: usize, j: usize, c: char) -> (t: Tag)
    ensures
        t == tag_at(input@, input_position(i as int, len as int, j as int), c),
{
    proof {
        assert(i * (len + 1) == i * len + i) by (nonlinear_arith);
        assert(i * len >= 0) by (nonlinear_arith);
    }
    let n: usize = input.len();
    match i.checked_mul(len) {
        Some(a) => match a.checked_add(i) {
            Some(b) => match b.checked_add(j) {
                Some(p) => {
                    if p < n {
                        if input[p] == c {
                            Tag::Matched
                        } else {
                            Tag::Mismatched
                        }
                    } else {
                        Tag::Pending
                    }
                },
                None => Tag::Pending,
            },
            None => Tag::Pending,
        },
        None => Tag::Pending,
    }
}

/// Tags each character of the words, joined by single spaces, against the
/// input typed so far.
pub fn render_text(words: &Vec<String>, input: &Vec<char>) -> (r: Vec<Glyph>)
    ensures
        r@ == glyphs(strings_view(words@), input@),
{
    let ghost ws = strings_view(words@);
    let mut out: Vec<Glyph> = Vec::new();
    let mut i: usize = 0;
    while i < words.len()
        invariant
            i <= words@.len(),
            ws == strings_view(words@),
            out@ == glyphs_upto(ws, i as nat, input@),
        decreases words@.len() - i,
    {
        let w: &str = words[i].as_str();
        let len: usize = w.unicode_len();
        let ghost before = out@;
        if i > 0 {
            out.push(Glyph { ch: ' ', tag: Tag::Separator });
        }
        let ghost start = out@;
        assert(start == before + separator_before(i as int));
        let mut j: usize = 0;
        while j < len
            invariant
                i < words@.len(),
                ws == strings_view(words@),
                w@ == ws[i as int],
                len == w@.len(),
                j <= len,
                out@ == start + word_glyphs_upto(w@, i as int, input@, j as nat),
            decreases len - j,
        {
            let c: char = w.get_char(j);
            let tag = tag_for(input, i, len, j, c);
            out.push(Glyph { ch: c, tag });
            assert(start + word_glyphs_upto(w@, i as int, input@, (j + 1) as nat) =~= (start
                + word_glyphs_upto(w@, i as int, input@, j as nat)).push(Glyph { ch: c, tag }));
            j = j + 1;
        }
        assert(glyphs_upto(ws, (i + 1) as nat, input@) == glyphs_upto(ws, i as nat, input@)
            + separator_before(i as int) + word_glyphs(w@, i as int, input@));
        i = i + 1;
    }
    out
}

} // verus!
