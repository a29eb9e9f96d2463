use bd2wg::text::{chars_of, contains, ends_with, string_of};
use bd2wg::utils::{
    decompress_bytes, encoding_of, gen_name_from_url, lower_first_alphabetic,
    maybe_decompress_bytes, maybe_strip_suffix, new_header_from_json, Encoding,
};
use std::io::Write;

#[test]
fn strip_suffix_removes_only_a_suffix() {
    assert_eq!(maybe_strip_suffix("idle01.mtn.bytes", ".mtn.bytes"), "idle01");
    assert_eq!(maybe_strip_suffix("idle01.mtn", ".mtn.bytes"), "idle01.mtn");
    assert_eq!(maybe_strip_suffix(".mtn.bytes", ".mtn.bytes"), "");
    assert_eq!(maybe_strip_suffix("a.mtn.bytes.x", ".mtn.bytes"), "a.mtn.bytes.x");
    assert_eq!(maybe_strip_suffix("abc", ""), "abc");
    assert_eq!(maybe_strip_suffix("", "abc"), "");
    assert_eq!(maybe_strip_suffix("雨だれ.png", ".png"), "雨だれ");
    assert_eq!(maybe_strip_suffix("雨だれ", "だれ"), "雨");
}

#[test]
fn name_from_url_replaces_reserved_characters() {
    assert_eq!(
        gen_name_from_url("https://example.com/a b?c=1", ".png"),
        "https___example.com_a_b_c=1.png"
    );
    assert_eq!(gen_name_from_url(r#":?*"<>|\/ "#, ""), "__________");
    assert_eq!(gen_name_from_url("plain", ".mp3"), "plain.mp3");
    assert_eq!(gen_name_from_url("", ".mp3"), ".mp3");
    assert_eq!(gen_name_from_url("雨/だれ", ".x"), "雨_だれ.x");
}

#[test]
fn only_the_first_letter_is_lowered() {
    assert_eq!(lower_first_alphabetic("BGM_01"), "bGM_01");
    assert_eq!(lower_first_alphabetic("01_Nobiri"), "01_nobiri");
    assert_eq!(lower_first_alphabetic("already"), "already");
    assert_eq!(lower_first_alphabetic("aBC"), "aBC");
    assert_eq!(lower_first_alphabetic("123"), "123");
    assert_eq!(lower_first_alphabetic(""), "");
    assert_eq!(lower_first_alphabetic("雨Z"), "雨z");
    assert_eq!(lower_first_alphabetic("ÉA"), "Éa");
}

#[test]
fn text_helpers_agree_with_std() {
    let s = chars_of("abcabc");
    assert_eq!(s, vec!['a', 'b', 'c', 'a', 'b', 'c']);
    assert_eq!(string_of(&s), "abcabc");
    assert!(ends_with(&s, &chars_of("bc")));
    assert!(!ends_with(&s, &chars_of("ab")));
    assert!(ends_with(&s, &chars_of("")));
    assert!(contains(&s, &chars_of("ca")));
    assert!(contains(&s, &chars_of("")));
    assert!(contains(&s, &chars_of("abcabc")));
    assert!(!contains(&s, &chars_of("cb")));
    assert!(!contains(&s, &chars_of("abcabca")));
}

#[test]
fn encoding_is_read_from_the_header_value() {
    assert_eq!(encoding_of("zstd"), Encoding::Zstd);
    assert_eq!(encoding_of("gzip, zstd"), Encoding::Zstd);
    assert_eq!(encoding_of("br"), Encoding::Brotli);
    assert_eq!(encoding_of("brotli"), Encoding::Brotli);
    assert_eq!(encoding_of("br, zstd"), Encoding::Zstd);
    assert_eq!(encoding_of("gzip"), Encoding::Identity);
    assert_eq!(encoding_of(""), Encoding::Identity);
    assert_eq!(encoding_of("ZSTD"), Encoding::Identity);
}

#[test]
fn unknown_encoding_leaves_the_bytes() {
    let bytes = vec![0u8, 1, 2, 254, 255];
    assert_eq!(maybe_decompress_bytes(&bytes, "").unwrap(), bytes);
    assert_eq!(maybe_decompress_bytes(&bytes, "gzip").unwrap(), bytes);
    assert_eq!(decompress_bytes(&bytes, Encoding::Identity).unwrap(), bytes);
    assert_eq!(maybe_decompress_bytes(&[], "identity").unwrap(), Vec::<u8>::new());
}

#[test]
fn zstd_body_is_decoded() {
    let content = b"the quick brown fox jumps over the lazy dog, twice: the quick brown fox".to_vec();
    let packed = zstd::stream::encode_all(&content[..], 3).unwrap();
    assert_ne!(packed, content);
    assert_eq!(maybe_decompress_bytes(&packed, "zstd").unwrap(), content);
    assert_eq!(maybe_decompress_bytes(&packed, "ZSTD").unwrap(), content);
    assert_eq!(decompress_bytes(&packed, Encoding::Zstd).unwrap(), content);
    assert!(maybe_decompress_bytes(&content, "zstd").is_err());
}

#[test]
fn brotli_body_is_decoded() {
    let content = b"sakura sakura sakura sakura sakura sakura sakura sakura".to_vec();
    let mut encoder = brotli2::write::BrotliEncoder::new(Vec::new(), 5);
    encoder.write_all(&content).unwrap();
    let packed = encoder.finish().unwrap();
    assert_ne!(packed, content);
    assert_eq!(maybe_decompress_bytes(&packed, "br").unwrap(), content);
    assert_eq!(maybe_decompress_bytes(&packed, "Brotli").unwrap(), content);
    assert_eq!(decompress_bytes(&packed, Encoding::Brotli).unwrap(), content);
    assert!(decompress_bytes(&[0xff, 0xff, 0xff, 0xff, 0xff, 0xff], Encoding::Brotli).is_err());
}

#[test]
fn pseudo_headers_are_left_out() {
    let members = vec![
        (":authority".to_string(), "bestdori.com".to_string()),
        ("accept".to_string(), "*/*".to_string()),
        (":method".to_string(), "GET".to_string()),
        ("x-count".to_string(), "3".to_string()),
        ("".to_string(), "empty name".to_string()),
        ("a:b".to_string(), "colon inside".to_string()),
    ];
    assert_eq!(
        new_header_from_json(&members),
        vec![
            ("accept".to_string(), "*/*".to_string()),
            ("x-count".to_string(), "3".to_string()),
            ("".to_string(), "empty name".to_string()),
            ("a:b".to_string(), "colon inside".to_string()),
        ]
    );
    assert!(new_header_from_json(&Vec::new()).is_empty());
}
