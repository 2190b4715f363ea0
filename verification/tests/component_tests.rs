use sitepass::encode::u32_as_string;
use sitepass::pipeline::{derive_site_seed, render, select_template};
use sitepass::{usage_from_char, DerivationError, UsagePurpose};

const TEMPLATES_L: [&str; 21] = [
    "CvcvnoCvcvCvcv",
    "CvcvCvcvnoCvcv",
    "CvcvCvcvCvcvno",
    "CvccnoCvcvCvcv",
    "CvccCvcvnoCvcv",
    "CvccCvcvCvcvno",
    "CvcvnoCvccCvcv",
    "CvcvCvccnoCvcv",
    "CvcvCvccCvcvno",
    "CvcvnoCvcvCvcc",
    "CvcvCvcvnoCvcc",
    "CvcvCvcvCvccno",
    "CvccnoCvccCvcv",
    "CvccCvccnoCvcv",
    "CvccCvccCvcvno",
    "CvcvnoCvccCvcc",
    "CvcvCvccnoCvcc",
    "CvcvCvccCvccno",
    "CvccnoCvcvCvcc",
    "CvccCvcvnoCvcc",
    "CvccCvcvCvccno",
];

fn fixed_key() -> Vec<u8> {
    (1u8..=64).collect()
}

fn counting_seed() -> Vec<u8> {
    (0u8..32).collect()
}

#[test]
fn usage_chars_map_to_purposes() {
    assert_eq!(usage_from_char('a'), Ok(UsagePurpose::Authentication));
    assert_eq!(usage_from_char('i'), Ok(UsagePurpose::Login));
    assert_eq!(usage_from_char('r'), Ok(UsagePurpose::Recovery));
    assert_eq!(usage_from_char('l'), Err(DerivationError::UnknownUsagePurpose));
    assert_eq!(usage_from_char('q'), Err(DerivationError::UnknownUsagePurpose));
}

#[test]
fn u32_as_string_ascii_bytes() {
    assert_eq!(u32_as_string(0x41424344), "ABCD");
    assert_eq!(u32_as_string(11).as_bytes(), &[0, 0, 0, 11]);
}

#[test]
fn select_template_picks_by_first_seed_byte() {
    let mut seed = vec![5u8; 32];
    assert_eq!(select_template(&seed, 'x'), Ok("axxxxxxxxxxxxxxxxxno"));
    seed[0] = 4;
    assert_eq!(select_template(&seed, 'x'), Ok("anoxxxxxxxxxxxxxxxxx"));
}

#[test]
fn select_template_unknown_class() {
    let seed = vec![0u8; 32];
    assert_eq!(select_template(&seed, 'z'), Err(DerivationError::UnknownTemplateClass));
}

#[test]
fn template_index_in_range_for_all_byte_values() {
    for b in 0u8..=255 {
        let mut seed = vec![0u8; 32];
        seed[0] = b;
        assert_eq!(select_template(&seed, 'l'), Ok(TEMPLATES_L[(b as usize) % 21]));
        assert_eq!(select_template(&seed, 'p'), Ok("nnnn"));
    }
}

#[test]
fn render_counting_seed_long_pattern() {
    let seed = counting_seed();
    let pw = render("anoxxxxxxxxxxxxxxxxx", &seed).unwrap();
    assert_eq!(pw, "E2?UaeiouBCDFGHJKLMN");
}

#[test]
fn render_counting_seed_short_pattern() {
    let seed = counting_seed();
    assert_eq!(render("Cvcn", &seed).unwrap(), "Cif4");
}

#[test]
fn render_output_length_equals_pattern_length() {
    let seed = counting_seed();
    for pattern in ["", "n", "Cvcn", "anoxxxxxxxxxxxxxxxxx", "cvcc cvc cvccvcv cvc"] {
        assert_eq!(render(pattern, &seed).unwrap().len(), pattern.len());
    }
}

#[test]
fn render_offset_uses_seed_byte_after_position() {
    // Changing seed byte i + 1 changes (only) output position i; changing a
    // byte past the pattern's reach changes nothing.
    let seed = counting_seed();
    let base = render("Cvcn", &seed).unwrap();
    let mut seed2 = counting_seed();
    seed2[2] = 78;
    let changed = render("Cvcn", &seed2).unwrap();
    assert_eq!(&base[..1], &changed[..1]);
    assert_ne!(&base[1..2], &changed[1..2]);
    assert_eq!(&base[2..], &changed[2..]);
    let mut seed3 = counting_seed();
    seed3[31] = 99;
    assert_eq!(render("Cvcn", &seed3).unwrap(), base);
}

#[test]
fn render_unknown_pattern_char() {
    let seed = counting_seed();
    assert_eq!(render("CvZn", &seed), Err(DerivationError::UnknownPatternChar));
}

#[test]
fn render_pattern_too_long() {
    let seed = counting_seed();
    let long = "n".repeat(32);
    assert_eq!(render(&long, &seed), Err(DerivationError::PatternTooLong));
    let edge = "n".repeat(31);
    assert_eq!(render(&edge, &seed).unwrap().len(), 31);
}

#[test]
fn site_seed_matches_reference_vector() {
    let key = fixed_key();
    let seed = derive_site_seed(&key, b"example.com", 1, b"", UsagePurpose::Authentication);
    assert_eq!(
        seed,
        vec![
            248, 3, 187, 23, 233, 203, 119, 158, 60, 108, 23, 193, 18, 177, 177, 39, 70, 144,
            220, 53, 58, 45, 107, 202, 174, 56, 215, 67, 246, 11, 205, 141,
        ]
    );
}

#[test]
fn site_seed_with_context_matches_reference_vector() {
    let key = fixed_key();
    let seed = derive_site_seed(&key, b"example.com", 1, b"ctx", UsagePurpose::Authentication);
    assert_eq!(
        seed,
        vec![
            236, 61, 207, 88, 195, 18, 255, 12, 136, 5, 41, 218, 249, 193, 135, 195, 157, 17,
            223, 15, 75, 189, 89, 14, 20, 251, 125, 57, 140, 130, 94, 250,
        ]
    );
}

#[test]
fn empty_context_equals_omitted_context() {
    // The reference value above was computed over a message with no context
    // bytes at all; an empty context must produce the identical seed.
    let key = fixed_key();
    let with_empty = derive_site_seed(&key, b"example.com", 1, b"", UsagePurpose::Authentication);
    assert_eq!(with_empty[0], 248);
    assert_eq!(with_empty.len(), 32);
    let twice = derive_site_seed(&key, b"example.com", 1, b"", UsagePurpose::Authentication);
    assert_eq!(with_empty, twice);
}

#[test]
fn seed_determinism_and_sensitivity() {
    let key = fixed_key();
    let a = derive_site_seed(&key, b"example.com", 1, b"", UsagePurpose::Authentication);
    let b = derive_site_seed(&key, b"example.com", 1, b"", UsagePurpose::Authentication);
    assert_eq!(a, b);
    let c = derive_site_seed(&key, b"example.com", 2, b"", UsagePurpose::Authentication);
    assert_ne!(a, c);
    let d = derive_site_seed(&key, b"example.com", 1, b"", UsagePurpose::Login);
    assert_ne!(a, d);
}

#[test]
fn derivation_pipeline_is_deterministic_after_stretching() {
    let key = fixed_key();
    let mut passwords = Vec::new();
    for _ in 0..2 {
        let seed = derive_site_seed(&key, b"example.com", 1, b"", UsagePurpose::Authentication);
        let pattern = select_template(&seed, 'x').unwrap();
        passwords.push(render(pattern, &seed).unwrap());
    }
    assert_eq!(passwords[0], passwords[1]);
    assert_eq!(passwords[0].len(), 20);
}
