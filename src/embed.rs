use vstd::prelude::*;
use vstd::string::*;

use crate::error::IngestError;

verus! {

/// Dimensionality of the vector the backend returns for one text.
pub const EMBEDDING_DIM: usize = 128;

#[verifier::external_type_specification]
#[verifier::external_body]
pub struct ExJsonError(serde_json::Error);

pub open spec fn hex_digit(d: int) -> char {
    seq!['0', '1', '2', '3', '4', '5', '6', '7', '8', '9', 'a', 'b', 'c', 'd', 'e', 'f'][d]
}

/// How one character is written inside a JSON string: `"` and `\` and the
/// control characters are escaped, with the short forms where JSON has them.
pub open spec fn json_escape(c: char) -> Seq<char> {
    if c == '"' {
        seq!['\\', '"']
    } else if c == '\\' {
        seq!['\\', '\\']
    } else if c == '\x08' {
        seq!['\\', 'b']
    } else if c == '\t' {
        seq!['\\', 't']
    } else if c == '\n' {
        seq!['\\', 'n']
    } else if c == '\x0c' {
        seq!['\\', 'f']
    } else if c == '\r' {
        seq!['\\', 'r']
    } else if (c as u32) < 0x20 {
        seq!['\\', 'u', '0', '0', hex_digit((c as u32) as int / 16), hex_digit((c as u32) as int % 16)]
    } else {
        seq![c]
    }
}

/// A JSON string literal holding `s`.
pub open spec fn json_string(s: Seq<char>) -> Seq<char> {
    seq!['"'] + s.map_values(|c: char| json_escape(c)).flatten() + seq!['"']
}

/// The JSON string literals of `texts`, separated by commas.
pub open spec fn json_items(texts: Seq<Seq<char>>) -> Seq<char>
    decreases texts.len(),
{
    if texts.len() == 0 {
        Seq::empty()
    } else if texts.len() == 1 {
        json_string(texts[0])
    } else {
        json_items(texts.drop_last()) + seq![','] + json_string(texts.last())
    }
}

/// The compact JSON text of an array of strings.
pub open spec fn json_string_array(texts: Seq<Seq<char>>) -> Seq<char> {
    seq!['['] + json_items(texts) + seq![']']
}

pub open spec fn texts_view(v: Seq<String>) -> Seq<Seq<char>> {
    v.map_values(|s: String| s@)
}

/// Relies on `serde_json::to_string`: the compact JSON array of the texts. It
/// fails only where a `Serialize` impl fails or a map has non-string keys,
/// neither of which a list of strings has.
#[verifier::external_body]
fn to_json(texts: &Vec<String>) -> (r: Result<String, serde_json::Error>)
    ensures
        r is Ok,
        r matches Ok(s) ==> s@ == json_string_array(texts_view(texts@)),
{
    serde_json::to_string(texts)
}

/// The request handed to the embedding backend: the texts as a JSON array.
pub fn encode_request(texts: &Vec<String>) -> (r: Result<String, IngestError>)
    ensures
        r is Ok,
        r matches Ok(s) ==> s@ == json_string_array(texts_view(texts@)),
{
    match to_json(texts) {
        Ok(s) => Ok(s),
        Err(_) => Err(
            IngestError::BackendExecution { message: String::from_str("the texts could not be encoded") },
        ),
    }
}

/// Index of the first line break in `s` at or after `i`, or the length of `s`.
pub open spec fn line_end(s: Seq<char>, i: nat) -> nat
    decreases s.len() - i,
{
    if i >= s.len() {
        s.len()
    } else if s[i as int] == '\n' {
        i
    } else {
        line_end(s, i + 1)
    }
}

/// The message of an explicit backend failure: when the output starts with
/// `ERROR:`, the rest of that first line.
pub open spec fn reported_error(out: Seq<char>) -> Option<Seq<char>> {
    if out.len() >= 6 && out.subrange(0, 6) == "ERROR:"@ {
        Some(out.subrange(6, line_end(out, 6) as int))
    } else {
        None
    }
}

/// What the embedding process answered: its standard output when it succeeded
/// and reported no error; else `BackendExecution`, with the captured error
/// output of a failed process or the message after `ERROR:`.
pub fn read_output(success: bool, stdout: String, stderr: String) -> (r: Result<String, IngestError>)
    ensures
        !success ==> r == Err::<String, IngestError>(
            IngestError::BackendExecution { message: stderr },
        ),
        success && reported_error(stdout@) is None ==> r == Ok::<String, IngestError>(stdout),
        success && reported_error(stdout@) is Some ==> (r matches Err(
            IngestError::BackendExecution { message },
        ) && message@ == reported_error(stdout@)->Some_0),
{
    if !success {
        return Err(IngestError::BackendExecution { message: stderr });
    }
    let out = stdout.as_str();
    let len = out.unicode_len();
    let marker = "ERROR:";
    proof {
        reveal_strlit("ERROR:");
        assert(marker@.len() == 6);
    }
    if len < 6 {
        return Ok(stdout);
    }
    let mut k: usize = 0;
    while k < 6
        invariant
            len == out@.len(),
            success,
            len >= 6,
            k <= 6,
            out@ == stdout@,
            marker@ == "ERROR:"@,
            marker@.len() == 6,
            forall|j: int| 0 <= j < k ==> out@[j] == marker@[j],
        decreases 6 - k,
    {
        if out.get_char(k) != marker.get_char(k) {
            assert(out@.subrange(0, 6)[k as int] != "ERROR:"@[k as int]);
            return Ok(stdout);
        }
        k += 1;
    }
    assert(out@.subrange(0, 6) =~= "ERROR:"@);
    let mut end: usize = 6;
    while end < len && out.get_char(end) != '\n'
        invariant
            6 <= end <= len,
            len == out@.len(),
            line_end(out@, 6) == line_end(out@, end as nat),
        decreases len - end,
    {
        end += 1;
    }
    let message = String::from_str(out.substring_char(6, end));
    Err(IngestError::BackendExecution { message })
}

/// The shape of a decoded embedding response, given the length of each vector:
/// exactly one vector per text, else `BackendCountMismatch`; each of
/// `EMBEDDING_DIM` values, else `BackendDimension` for the first that is not.
pub fn check_embeddings(text_count: usize, lengths: &Vec<usize>) -> (r: Result<(), IngestError>)
    ensures
        lengths@.len() != text_count ==> r == Err::<(), IngestError>(
            IngestError::BackendCountMismatch { expected: text_count, actual: lengths.len() },
        ),
        r is Ok <==> lengths@.len() == text_count && forall|i: int|
            0 <= i < lengths@.len() ==> lengths@[i] == EMBEDDING_DIM,
        lengths@.len() == text_count && r is Err ==> (r matches Err(
            IngestError::BackendDimension { row, expected, actual },
        ) && expected == EMBEDDING_DIM && row < lengths@.len() && actual == lengths@[row as int]
            && actual != EMBEDDING_DIM && forall|j: int| 0 <= j < row ==> lengths@[j] == EMBEDDING_DIM),
{
    if lengths.len() != text_count {
        return Err(IngestError::BackendCountMismatch { expected: text_count, actual: lengths.len() });
    }
    let mut i: usize = 0;
    while i < lengths.len()
        invariant
            i <= lengths@.len(),
            lengths@.len() == text_count,
            forall|j: int| 0 <= j < i ==> lengths@[j] == EMBEDDING_DIM,
        decreases lengths@.len() - i,
    {
        if lengths[i] != EMBEDDING_DIM {
            return Err(
                IngestError::BackendDimension { row: i, expected: EMBEDDING_DIM, actual: lengths[i] },
            );
        }
        i += 1;
    }
    Ok(())
}

} // verus!
