//! Small string utilities shared by the services.

use vstd::prelude::*;
use vstd::string::*;

use crate::text::{
    ascii_lowercase, char_is_ascii_alphabetic, char_to_ascii_lowercase, chars_of, contains,
    contains_run, ends_with, is_ascii_alphabetic,
};

verus! {

/// `s` without `suffix` at its end; `s` itself where it does not end with `suffix`.
pub open spec fn strip_suffix(s: Seq<char>, suffix: Seq<char>) -> Seq<char> {
    if suffix.is_suffix_of(s) {
        s.take(s.len() - suffix.len())
    } else {
        s
    }
}

/// Removes `suffix` from the end of `s` if it is there.
pub fn maybe_strip_suffix<'a>(s: &'a str, suffix: &str) -> (r: &'a str)
    ensures
        r@ == strip_suffix(s@, suffix@),
{
    let chars = chars_of(s);
    let tail = chars_of(suffix);
    if ends_with(&chars, &tail) {
        s.substring_char(0, chars.len() - tail.len())
    } else {
        s
    }
}

/// Whether `c` may not stand in a file name.
pub open spec fn is_reserved(c: char) -> bool {
    c == ':' || c == '?' || c == '*' || c == '"' || c == '<' || c == '>' || c == '|' || c == '\\'
        || c == '/' || c == ' '
}

/// `c`, or `_` in place of a character that may not stand in a file name.
pub open spec fn sanitized(c: char) -> char {
    if is_reserved(c) {
        '_'
    } else {
        c
    }
}

/// The file name that stands for `url`: every reserved character replaced by
/// `_`, followed by `extend`.
pub open spec fn name_from_url(url: Seq<char>, extend: Seq<char>) -> Seq<char> {
    url.map_values(|c: char| sanitized(c)) + extend
}

/// Derives a file name from `url` that is unique to it, and appends `extend`.
pub fn gen_name_from_url(url: &str, extend: &str) -> (name: String)
    ensures
        name@ == name_from_url(url@, extend@),
{
    let chars = chars_of(url);
    let mut name = String::new();
    let mut i: usize = 0;
    while i < chars.len()
        invariant
            i <= chars.len(),
            chars@ == url@,
            name@ == url@.take(i as int).map_values(|c: char| sanitized(c)),
        decreases chars.len() - i,
    {
        let c = chars[i];
        let mapped = if c == ':' || c == '?' || c == '*' || c == '"' || c == '<' || c == '>'
            || c == '|' || c == '\\' || c == '/' || c == ' ' {
            '_'
        } else {
            c
        };
        name.push(mapped);
        i += 1;
        assert(name@ == url@.take(i as int).map_values(|c: char| sanitized(c)));
    }
    assert(url@.take(url@.len() as int) == url@);
    name.append(extend);
    name
}

/// Whether position `i` of `s` holds the first ASCII letter of `s`.
pub open spec fn is_first_alphabetic(s: Seq<char>, i: int) -> bool {
    &&& 0 <= i < s.len()
    &&& is_ascii_alphabetic(s[i])
    &&& forall|j: int| 0 <= j < i ==> !is_ascii_alphabetic(#[trigger] s[j])
}

/// `s` with its first ASCII letter in lower case; every other character is kept.
pub open spec fn lowered_first_alphabetic(s: Seq<char>) -> Seq<char> {
    Seq::new(
        s.len(),
        |i: int|
            if is_first_alphabetic(s, i) {
                ascii_lowercase(s[i])
            } else {
                s[i]
            },
    )
}

/// Turns the first ASCII letter of `s` into lower case.
pub fn lower_first_alphabetic(s: &str) -> (r: String)
    ensures
        r@ == lowered_first_alphabetic(s@),
{
    let chars = chars_of(s);
    let mut r = String::new();
    let mut find = false;
    let mut i: usize = 0;
    while i < chars.len()
        invariant
            i <= chars.len(),
            chars@ == s@,
            find <==> exists|j: int| 0 <= j < i && is_ascii_alphabetic(#[trigger] s@[j]),
            r@ == lowered_first_alphabetic(s@).take(i as int),
        decreases chars.len() - i,
    {
        let mut c = chars[i];
        if !find && char_is_ascii_alphabetic(c) {
            find = true;
            c = char_to_ascii_lowercase(c);
        }
        r.push(c);
        i += 1;
        assert(r@ == lowered_first_alphabetic(s@).take(i as int));
    }
    assert(lowered_first_alphabetic(s@).take(s@.len() as int) == lowered_first_alphabetic(s@));
    r
}

/// What `str::to_lowercase` makes of a string: its lower-case form by the
/// Unicode tables of the standard library.
pub uninterp spec fn lowercase(s: Seq<char>) -> Seq<char>;

/// `str::to_lowercase` returns the lower-case form of the string. The form is
/// named, not spelled out.
pub assume_specification[ str::to_lowercase ](s: &str) -> (r: String)
    ensures
        r@ == lowercase(s@),
;

/// What a zstd decoder makes of `bytes`: the decoded content, or nothing where
/// `bytes` is no well-formed stream of zstd frames.
pub uninterp spec fn zstd_decoded(bytes: Seq<u8>) -> Option<Seq<u8>>;

/// What a brotli decoder makes of `bytes`: the decoded content, or nothing
/// where `bytes` is no well-formed brotli stream.
pub uninterp spec fn brotli_decoded(bytes: Seq<u8>) -> Option<Seq<u8>>;

/// Decodes `bytes` with `zstd::stream::decode_all`, which reads zstd frames
/// from the input until its end. It succeeds exactly where the decoder does,
/// and then returns what the decoder produced.
#[verifier::external_body]
fn zstd_decode(bytes: &[u8]) -> (r: Result<Vec<u8>, std::io::Error>)
    ensures
        r is Ok == zstd_decoded(bytes@) is Some,
        r matches Ok(out) ==> out@ == zstd_decoded(bytes@).unwrap(),
{
    zstd::stream::decode_all(bytes)
}

/// Decodes `bytes` by reading a `brotli2::read::BrotliDecoder` over them to
/// its end. It succeeds exactly where the decoder does, and then returns what
/// the decoder produced.
#[verifier::external_body]
fn brotli_decode(bytes: &[u8]) -> (r: Result<Vec<u8>, std::io::Error>)
    ensures
        r is Ok == brotli_decoded(bytes@) is Some,
        r matches Ok(out) ==> out@ == brotli_decoded(bytes@).unwrap(),
{
    let mut out = Vec::new();
    let mut decoder = brotli2::read::BrotliDecoder::new(bytes);
    std::io::Read::read_to_end(&mut decoder, &mut out)?;
    Ok(out)
}

/// How a body is encoded.
#[derive(Debug, Clone, Copy, PartialEq, Eq, Structural)]
pub enum Encoding {
    Zstd,
    Brotli,
    Identity,
}

/// The encoding that a lower-case `Content-Encoding` value declares: zstd
/// where it mentions `zstd`, else brotli where it mentions `br`, else none.
pub open spec fn declared_encoding(encoding: Seq<char>) -> Encoding {
    if contains_run(encoding, "zstd"@) {
        Encoding::Zstd
    } else if contains_run(encoding, "br"@) || contains_run(encoding, "brotli"@) {
        Encoding::Brotli
    } else {
        Encoding::Identity
    }
}

/// The content of a body `bytes` under an encoding, or nothing where the
/// bytes are malformed.
pub open spec fn decoded(bytes: Seq<u8>, encoding: Encoding) -> Option<Seq<u8>> {
    match encoding {
        Encoding::Zstd => zstd_decoded(bytes),
        Encoding::Brotli => brotli_decoded(bytes),
        Encoding::Identity => Some(bytes),
    }
}

/// Reads the encoding that a lower-case `Content-Encoding` value declares.
pub fn encoding_of(encoding: &str) -> (e: Encoding)
    ensures
        e == declared_encoding(encoding@),
{
    let enc = chars_of(encoding);
    if contains(&enc, &chars_of("zstd")) {
        Encoding::Zstd
    } else if contains(&enc, &chars_of("br")) || contains(&enc, &chars_of("brotli")) {
        Encoding::Brotli
    } else {
        Encoding::Identity
    }
}

/// Decodes a body under a known encoding.
pub fn decompress_bytes(bytes: &[u8], encoding: Encoding) -> (r: Result<Vec<u8>, std::io::Error>)
    ensures
        r is Ok == decoded(bytes@, encoding) is Some,
        r matches Ok(out) ==> out@ == decoded(bytes@, encoding).unwrap(),
{
    match encoding {
        Encoding::Zstd => zstd_decode(bytes),
        Encoding::Brotli => brotli_decode(bytes),
        Encoding::Identity => Ok(vstd::slice::slice_to_vec(bytes)),
    }
}

/// Decodes a body by its `Content-Encoding` value, for the encodings that the
/// network client does not undo by itself. A body of any other encoding is
/// returned as it is.
pub fn maybe_decompress_bytes(bytes: &[u8], encoding: &str) -> (r: Result<Vec<u8>, std::io::Error>)
    ensures
        r is Ok == decoded(bytes@, declared_encoding(lowercase(encoding@))) is Some,
        r matches Ok(out) ==> out@ == decoded(
            bytes@,
            declared_encoding(lowercase(encoding@)),
        ).unwrap(),
{
    let enc = encoding.to_lowercase();
    decompress_bytes(bytes, encoding_of(enc.as_str()))
}

/// Whether `name` is a pseudo header, which is no header of a request: one
/// that starts with `:`.
pub open spec fn is_pseudo_header(name: Seq<char>) -> bool {
    name.len() > 0 && name[0] == ':'
}

/// The mathematical value of a list of header fields: name and value.
pub open spec fn fields_view(fields: Seq<(String, String)>) -> Seq<(Seq<char>, Seq<char>)> {
    fields.map_values(|f: (String, String)| (f.0@, f.1@))
}

/// The header fields that a recorded set of headers gives: every member but
/// the pseudo headers, in the order of the record.
pub open spec fn header_fields(members: Seq<(Seq<char>, Seq<char>)>) -> Seq<
    (Seq<char>, Seq<char>),
>
    decreases members.len(),
{
    if members.len() == 0 {
        Seq::empty()
    } else if is_pseudo_header(members.last().0) {
        header_fields(members.drop_last())
    } else {
        header_fields(members.drop_last()).push(members.last())
    }
}

/// Picks the header fields out of the members of a JSON object of recorded
/// headers. A member is its name and its value as text: the string itself
/// where the value is a string, else the JSON text of the value.
pub fn new_header_from_json(members: &Vec<(String, String)>) -> (fields: Vec<(String, String)>)
    ensures
        fields_view(fields@) == header_fields(fields_view(members@)),
{
    let mut fields: Vec<(String, String)> = Vec::new();
    let mut i: usize = 0;
    let ghost all = fields_view(members@);
    proof {
        assert(all.take(0) =~= Seq::empty());
        assert(fields_view(fields@) =~= Seq::empty());
    }
    while i < members.len()
        invariant
            i <= members@.len(),
            all == fields_view(members@),
            fields_view(fields@) == header_fields(all.take(i as int)),
        decreases members@.len() - i,
    {
        let name = chars_of(members[i].0.as_str());
        let pseudo = name.len() > 0 && name[0] == ':';
        proof {
            assert(all.take(i + 1).drop_last() =~= all.take(i as int));
        }
        if !pseudo {
            let ghost before = fields@;
            fields.push((members[i].0.clone(), members[i].1.clone()));
            proof {
                assert(fields_view(fields@) =~= fields_view(before).push(all[i as int]));
            }
        }
        i += 1;
    }
    proof {
        assert(all.take(all.len() as int) =~= all);
    }
    fields
}

} // verus!
