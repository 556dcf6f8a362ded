//! Turning captured subprocess output into lines of text: a lossy decode
//! of each byte stream, then a split on line boundaries, stdout first and
//! stderr after it.

use vstd::prelude::*;

verus! {

/// What lossy UTF-8 decoding makes of a byte sequence; a function of the
/// bytes alone (invalid sequences become replacement characters, so the
/// decode never fails).
pub uninterp spec fn lossy_decode(bytes: Seq<u8>) -> Seq<char>;

/// The position of the first newline at or after `i`, or the length of
/// the text when there is none.
pub open spec fn find_newline(s: Seq<char>, i: int) -> int
    decreases s.len() - i,
{
    if i < 0 || i >= s.len() {
        s.len() as int
    } else if s[i] == '\n' {
        i
    } else {
        find_newline(s, i + 1)
    }
}

/// A line that ends in a carriage return came from a `\r\n` ending; the
/// carriage return is not part of the line.
pub open spec fn drop_trailing_cr(line: Seq<char>) -> Seq<char> {
    if line.len() > 0 && line.last() == '\r' {
        line.drop_last()
    } else {
        line
    }
}

/// The split of a text on line boundaries: each newline ends a line, a
/// carriage return just before the newline belongs to the ending, and a
/// final fragment without a newline is a line of its own (so the final
/// line ending is optional, and an empty text has no lines).
pub open spec fn split_lines(s: Seq<char>) -> Seq<Seq<char>>
    decreases s.len(),
{
    if s.len() == 0 {
        Seq::empty()
    } else {
        let i = find_newline(s, 0);
        if 0 <= i < s.len() {
            seq![drop_trailing_cr(s.take(i))] + split_lines(s.skip(i + 1))
        } else {
            seq![s]
        }
    }
}

/// All the lines of one captured run, stdout's lines first and stderr's
/// after them.
pub open spec fn output_lines_spec(stdout: Seq<u8>, stderr: Seq<u8>) -> Seq<Seq<char>> {
    split_lines(lossy_decode(stdout)) + split_lines(lossy_decode(stderr))
}

/// Relies on `String::from_utf8_lossy`: the decode depends on the bytes
/// alone, and no bytes decode to no text.
#[verifier::external_body]
fn decode_lossy(bytes: &Vec<u8>) -> (r: String)
    ensures
        r@ == lossy_decode(bytes@),
        bytes@.len() == 0 ==> r@.len() == 0,
{
    String::from_utf8_lossy(bytes.as_slice()).into_owned()
}

/// Relies on `str::lines`: lines end at each newline, a carriage return
/// directly before a newline is dropped, and the final line ending is
/// optional, exactly as `split_lines` states.
#[verifier::external_body]
fn split_into_lines(s: &str) -> (r: Vec<String>)
    ensures
        r.deep_view() == split_lines(s@),
{
    s.lines().map(|line| line.to_owned()).collect()
}

/// Convert one run's captured stdout and stderr into the batch of lines
/// the pattern matcher inspects: stdout's lines, then stderr's.
pub fn collect_output_lines(stdout: &Vec<u8>, stderr: &Vec<u8>) -> (r: Vec<String>)
    ensures
        r.deep_view() == output_lines_spec(stdout@, stderr@),
{
    let out_text = decode_lossy(stdout);
    let err_text = decode_lossy(stderr);
    let mut lines = split_into_lines(out_text.as_str());
    let mut err_lines = split_into_lines(err_text.as_str());
    let ghost out_part = lines.deep_view();
    let ghost err_part = err_lines.deep_view();
    lines.append(&mut err_lines);
    proof {
        assert forall|k: int| 0 <= k < lines@.len() implies lines.deep_view()[k] == (out_part
            + err_part)[k] by {
            assert(lines.deep_view()[k] == lines@[k]@);
        }
        assert(lines.deep_view() =~= out_part + err_part);
    }
    lines
}

} // verus!
