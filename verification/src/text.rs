//! The recognition dictionary: one character class per line of a UTF-8 text.
use vstd::prelude::*;
use vstd::utf8::{valid_utf8, decode_utf8};
use crate::error::PaddleOcrError;

verus! {

/// The position of the first line feed in `s`, or its length where it has none.
pub open spec fn line_end(s: Seq<char>) -> nat
    decreases s.len(),
{
    if s.len() == 0 {
        0
    } else if s[0] == '\n' {
        0
    } else {
        1 + line_end(s.drop_first())
    }
}

/// A line without the carriage return that ended it, if any.
pub open spec fn strip_carriage_return(line: Seq<char>) -> Seq<char> {
    if line.len() > 0 && line.last() == '\r' {
        line.drop_last()
    } else {
        line
    }
}

/// The lines of a text: it is split at each `\n` or `\r\n`, the terminators are left
/// out, and a final line ending adds no empty line.
pub open spec fn text_lines(s: Seq<char>) -> Seq<Seq<char>>
    decreases s.len(),
{
    if s.len() == 0 {
        Seq::empty()
    } else if line_end(s) < s.len() {
        seq![strip_carriage_return(s.take(line_end(s) as int))] + text_lines(
            s.skip(line_end(s) + 1 as int),
        )
    } else {
        seq![s]
    }
}

proof fn lemma_line_end_append(s: Seq<char>, u: Seq<char>)
    ensures
        line_end(s) <= s.len(),
        line_end(s) < s.len() ==> s[line_end(s) as int] == '\n',
        line_end(s + u) == (if line_end(s) < s.len() {
            line_end(s)
        } else {
            s.len() + line_end(u)
        }),
    decreases s.len(),
{
    if s.len() > 0 {
        assert((s + u).drop_first() =~= s.drop_first() + u);
        assert((s + u)[0] == s[0]);
        lemma_line_end_append(s.drop_first(), u);
    } else {
        assert(s + u =~= u);
    }
}

/// A final line ending is optional: a text that does not end in a line break has the
/// same lines with a final `\n` or `\r\n` as without one.
pub proof fn lemma_final_line_ending_optional(s: Seq<char>, ending: Seq<char>)
    requires
        s.len() > 0,
        s.last() != '\n',
        s.last() != '\r',
        ending == seq!['\n'] || ending == seq!['\r', '\n'],
    ensures
        text_lines(s + ending) == text_lines(s),
    decreases s.len(),
{
    let t = s + ending;
    lemma_line_end_append(s, ending);
    lemma_line_end_append(ending, Seq::empty());
    let e = line_end(s);
    if e < s.len() {
        let rest = s.skip(e + 1 as int);
        assert(t.take(e as int) =~= s.take(e as int));
        assert(t.skip(e + 1 as int) =~= rest + ending);
        assert(rest.last() == s.last());
        lemma_final_line_ending_optional(rest, ending);
    } else {
        let k = line_end(t);
        if ending == seq!['\n'] {
            assert(k == s.len());
            assert(t.take(k as int) =~= s);
            assert(t.skip(k + 1 as int) =~= Seq::<char>::empty());
        } else {
            assert(ending[0] == '\r');
            assert(ending.drop_first() =~= seq!['\n']);
            assert(line_end(seq!['\n']) == 0);
            assert(line_end(ending) == 1 + line_end(ending.drop_first()));
            assert(line_end(ending) == 1);
            assert(k == s.len() + 1);
            assert(t.take(k as int) =~= s.push('\r'));
            assert(s.push('\r').drop_last() =~= s);
            assert(t.skip(k + 1 as int) =~= Seq::<char>::empty());
        }
        assert(text_lines(Seq::<char>::empty()) =~= Seq::<Seq<char>>::empty());
        assert(text_lines(t) =~= seq![s]);
    }
}

/// The characters of each string of a sequence.
pub open spec fn string_views(v: Seq<String>) -> Seq<Seq<char>> {
    v.map_values(|k: String| k@)
}

/// Calls `core::str::from_utf8`. Claimed, as its documentation states: it succeeds
/// exactly on valid UTF-8, and then the string holds the characters that the bytes
/// encode.
#[verifier::external_body]
fn utf8_str(bytes: &[u8]) -> (r: Result<&str, core::str::Utf8Error>)
    ensures
        r is Ok <==> valid_utf8(bytes@),
        r matches Ok(s) ==> s@ == decode_utf8(bytes@),
{
    core::str::from_utf8(bytes)
}

/// Calls `str::lines` and collects the lines. Claimed, as its documentation states:
/// lines end at `\n` or `\r\n`, which are not part of them, and a final line ending is
/// optional.
#[verifier::external_body]
fn str_lines(s: &str) -> (r: Vec<&str>)
    ensures
        r@.len() == text_lines(s@).len(),
        forall|i: int| 0 <= i < r@.len() ==> #[trigger] r@[i]@ == text_lines(s@)[i],
{
    s.lines().collect()
}

/// Reads the recognition dictionary: the lines of `keys_data` as UTF-8 text. Bytes
/// that are not valid UTF-8 are refused with a `Utf8` error.
pub fn load_keys(keys_data: &[u8]) -> (r: Result<Vec<String>, PaddleOcrError>)
    ensures
        r is Ok <==> valid_utf8(keys_data@),
        r matches Ok(keys) ==> string_views(keys@) == text_lines(decode_utf8(keys_data@)),
        r matches Err(e) ==> e is Utf8,
{
    let text = match utf8_str(keys_data) {
        Ok(text) => text,
        Err(e) => {
            return Err(PaddleOcrError::Utf8(e));
        },
    };
    let lines = str_lines(text);
    let mut keys: Vec<String> = Vec::new();
    let mut i: usize = 0;
    while i < lines.len()
        invariant
            0 <= i <= lines@.len(),
            keys@.len() == i,
            forall|j: int| 0 <= j < i ==> #[trigger] keys@[j]@ == lines@[j]@,
        decreases lines@.len() - i,
    {
        keys.push(lines[i].to_owned());
        i = i + 1;
    }
    assert(string_views(keys@) =~= text_lines(decode_utf8(keys_data@)));
    Ok(keys)
}

} // verus!
