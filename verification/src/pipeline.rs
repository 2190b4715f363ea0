//! The derivation pipeline, composed strictly in sequence: key stretching,
//! site-seed derivation, template selection and character rendering.

use vstd::prelude::*;
use vstd::string::{StrSliceExecFns, StringExecFns, StringSliceAdditionalSpecFns};
use crate::{DerivationError, UsagePurpose};
use crate::encode::{build_salt, build_site_message, spec_salt, spec_site_message};
use crate::hashes::{hmac_sha256, hmac_sha256_of, scrypt_of, scrypt_stretch};
use crate::tables::{
    char_class, char_class_str, lemma_char_class_nonempty, lemma_template_class_nonempty,
    namespace_bytes, template_at, template_class, template_count,
};

verus! {

/// The master key of a derivation: the scrypt stretch of the passphrase under
/// the identity-bound salt, with the fixed cost parameters `(2^15, 8, 2)`.
pub open spec fn spec_master_key(passphrase: Seq<u8>, identity: Seq<u8>, u: UsagePurpose) -> Seq<
    u8,
> {
    scrypt_of(passphrase, spec_salt(namespace_bytes(u), identity), 15, 8, 2)
}

/// The site seed of a derivation: the keyed hash of the site-bound message
/// under the master key.
pub open spec fn spec_site_seed(
    master_key: Seq<u8>,
    site: Seq<u8>,
    counter: u32,
    ctx: Seq<u8>,
    u: UsagePurpose,
) -> Seq<u8> {
    hmac_sha256_of(master_key, spec_site_message(namespace_bytes(u), site, counter, ctx))
}

/// The site seed computed from the raw inputs: stretching composed with the
/// keyed hash.
pub open spec fn spec_seed_of(
    identity: Seq<u8>,
    passphrase: Seq<u8>,
    site: Seq<u8>,
    counter: u32,
    ctx: Seq<u8>,
    u: UsagePurpose,
) -> Seq<u8> {
    spec_site_seed(spec_master_key(passphrase, identity, u), site, counter, ctx, u)
}

/// The pattern that a seed selects from a template class: the pattern at
/// position `seed[0]` modulo the number of patterns the class offers.
pub open spec fn spec_selected_pattern(seed: Seq<u8>, tc: char) -> Seq<char>
    recommends
        template_class(tc) is Some,
        seed.len() >= 1,
{
    let ts = template_class(tc).unwrap();
    ts[seed[0] as int % ts.len() as int]
}

/// The output character that a seed byte picks from the class that `sel`
/// names: the candidate at position `b` modulo the class length.
pub open spec fn render_char(sel: char, b: u8) -> char
    recommends
        char_class(sel) is Some,
{
    let cs = char_class(sel).unwrap();
    cs[b as int % cs.len() as int]
}

/// Whether every character of a pattern names a character class.
pub open spec fn pattern_ok(pattern: Seq<char>) -> bool {
    forall|i: int| 0 <= i < pattern.len() ==> char_class(pattern[i]) is Some
}

/// The rendering of a pattern under a seed: position `i` of the output is
/// picked by seed byte `i + 1` — byte 0 was already consumed by template
/// selection — from the class that pattern character `i` names.
pub open spec fn rendered(pattern: Seq<char>, seed: Seq<u8>) -> Seq<char> {
    Seq::new(pattern.len(), |i: int| render_char(pattern[i], seed[i + 1]))
}

/// The whole derivation as one mathematical function of its inputs, defined
/// when `tc` names a template class.
pub open spec fn spec_derived_password(
    identity: Seq<u8>,
    passphrase: Seq<u8>,
    site: Seq<u8>,
    counter: u32,
    ctx: Seq<u8>,
    u: UsagePurpose,
    tc: char,
) -> Seq<char>
    recommends
        template_class(tc) is Some,
{
    let seed = spec_seed_of(identity, passphrase, site, counter, ctx, u);
    rendered(spec_selected_pattern(seed, tc), seed)
}

/// Stretches `passphrase` into the 64-byte master key, salted by `identity`
/// under the namespace of `usage`.
pub fn stretch(passphrase: &[u8], identity: &[u8], usage: UsagePurpose) -> (key: Vec<u8>)
    requires
        identity@.len() <= u32::MAX,
    ensures
        key@ == spec_master_key(passphrase@, identity@, usage),
        key@.len() == 64,
{
    let salt = build_salt(identity, usage);
    scrypt_stretch(passphrase, salt.as_slice(), 15, 8, 2)
}

/// Derives the 32-byte site seed from the master key and the site-bound
/// message.
pub fn derive_site_seed(
    master_key: &[u8],
    site_name: &[u8],
    counter: u32,
    context: &[u8],
    usage: UsagePurpose,
) -> (seed: Vec<u8>)
    requires
        master_key@.len() == 64,
        site_name@.len() <= u32::MAX,
        context@.len() <= u32::MAX,
    ensures
        seed@ == spec_site_seed(master_key@, site_name@, counter, context@, usage),
        seed@.len() == 32,
{
    let msg = build_site_message(site_name, counter, context, usage);
    hmac_sha256(master_key, msg.as_slice())
}

/// Selects the pattern that the seed picks from template class `tc`, or
/// reports that `tc` names no class.
pub fn select_template(site_seed: &[u8], tc: char) -> (r: Result<&'static str, DerivationError>)
    requires
        site_seed@.len() >= 1,
    ensures
        template_class(tc) is None ==> r == Err::<&'static str, DerivationError>(
            DerivationError::UnknownTemplateClass,
        ),
        template_class(tc) is Some ==> (r matches Ok(p) && p@ == spec_selected_pattern(
            site_seed@,
            tc,
        )),
{
    let n = template_count(tc);
    if n == 0 {
        return Err(DerivationError::UnknownTemplateClass);
    }
    let idx: usize = (site_seed[0] as usize) % n;
    Ok(template_at(tc, idx))
}

/// Renders `pattern` under `site_seed`: one output character per pattern
/// position, picked by the seed byte one past the position. Rejects a
/// pattern longer than the 31 seed bytes left after template selection, and
/// a pattern character that names no class.
pub fn render(pattern: &str, site_seed: &[u8]) -> (r: Result<String, DerivationError>)
    requires
        site_seed@.len() == 32,
    ensures
        r is Ok <==> pattern@.len() <= 31 && pattern_ok(pattern@),
        r matches Ok(pw) ==> pw@ == rendered(pattern@, site_seed@) && pw@.len() == pattern@.len(),
        pattern@.len() > 31 ==> r == Err::<String, DerivationError>(
            DerivationError::PatternTooLong,
        ),
        pattern@.len() <= 31 && !pattern_ok(pattern@) ==> r == Err::<String, DerivationError>(
            DerivationError::UnknownPatternChar,
        ),
{
    let n = pattern.unicode_len();
    if n > 31 {
        return Err(DerivationError::PatternTooLong);
    }
    let mut out = String::new();
    let mut i: usize = 0;
    while i < n
        invariant
            n == pattern@.len(),
            n <= 31,
            i <= n,
            site_seed@.len() == 32,
            forall|j: int| 0 <= j < i ==> char_class(pattern@[j]) is Some,
            out@ == rendered(pattern@, site_seed@).subrange(0, i as int),
        decreases n - i,
    {
        let sel = pattern.get_char(i);
        let cls: &'static str = match char_class_str(sel) {
            Some(c) => c,
            None => {
                return Err(DerivationError::UnknownPatternChar);
            },
        };
        let m = cls.unicode_len();
        proof {
            lemma_char_class_nonempty(sel);
        }
        let k: usize = (site_seed[i + 1] as usize) % m;
        let piece = cls.substring_char(k, k + 1);
        out.append(piece);
        proof {
            assert(piece@ =~= seq![cls@[k as int]]);
            assert(out@ =~= rendered(pattern@, site_seed@).subrange(0, i + 1 as int));
        }
        i = i + 1;
    }
    proof {
        assert(rendered(pattern@, site_seed@).subrange(0, n as int) =~= rendered(
            pattern@,
            site_seed@,
        ));
    }
    Ok(out)
}

/// Derives the password for one site: stretch, derive the seed, select the
/// pattern, render. The one operation the pipeline exposes.
pub fn derive_password(
    identity: &str,
    passphrase: &[u8],
    site_name: &str,
    counter: u32,
    context: &str,
    usage: UsagePurpose,
    template_class_sel: char,
) -> (r: Result<String, DerivationError>)
    requires
        identity.spec_bytes().len() <= u32::MAX,
        site_name.spec_bytes().len() <= u32::MAX,
        context.spec_bytes().len() <= u32::MAX,
    ensures
        template_class(template_class_sel) is None ==> r == Err::<String, DerivationError>(
            DerivationError::UnknownTemplateClass,
        ),
        ({
            let seed = spec_seed_of(
                identity.spec_bytes(),
                passphrase@,
                site_name.spec_bytes(),
                counter,
                context.spec_bytes(),
                usage,
            );
            let pat = spec_selected_pattern(seed, template_class_sel);
            template_class(template_class_sel) is Some ==> {
                &&& (r is Ok <==> pat.len() <= 31 && pattern_ok(pat))
                &&& (r matches Ok(pw) ==> pw@ == rendered(pat, seed) && pw@.len() == pat.len())
                &&& (pat.len() > 31 ==> r == Err::<String, DerivationError>(
                    DerivationError::PatternTooLong,
                ))
                &&& (pat.len() <= 31 && !pattern_ok(pat) ==> r == Err::<String, DerivationError>(
                    DerivationError::UnknownPatternChar,
                ))
            }
        }),
{
    let key = stretch(passphrase, identity.as_bytes(), usage);
    let seed = derive_site_seed(
        key.as_slice(),
        site_name.as_bytes(),
        counter,
        context.as_bytes(),
        usage,
    );
    let pattern = match select_template(seed.as_slice(), template_class_sel) {
        Ok(p) => p,
        Err(e) => {
            return Err(e);
        },
    };
    render(pattern, seed.as_slice())
}

/// Two derivations from the same inputs produce the same password: the
/// derived password is one mathematical function of the inputs.
pub proof fn lemma_determinism(
    p1: Seq<char>,
    p2: Seq<char>,
    identity: Seq<u8>,
    passphrase: Seq<u8>,
    site: Seq<u8>,
    counter: u32,
    ctx: Seq<u8>,
    u: UsagePurpose,
    tc: char,
)
    requires
        p1 == spec_derived_password(identity, passphrase, site, counter, ctx, u, tc),
        p2 == spec_derived_password(identity, passphrase, site, counter, ctx, u, tc),
    ensures
        p1 == p2,
{
}

/// The rendered password is exactly as long as the pattern it renders.
pub proof fn lemma_rendered_length(pattern: Seq<char>, seed: Seq<u8>)
    ensures
        rendered(pattern, seed).len() == pattern.len(),
{
}

/// Indexing a template class by any byte value modulo its pattern count
/// yields an index inside the class, whatever of the 256 byte values the
/// seed holds.
pub proof fn lemma_template_index_in_range(b: u8, tc: char)
    requires
        template_class(tc) is Some,
    ensures
        0 <= b as int % template_class(tc).unwrap().len() as int,
        (b as int % template_class(tc).unwrap().len() as int) < template_class(tc).unwrap().len(),
{
    lemma_template_class_nonempty(tc);
}

/// Whatever the seed, the pattern it selects from a known template class
/// renders without error: every selectable pattern uses only known character
/// classes and fits the 31 seed bytes. Together with the contract of
/// [`derive_password`], a derivation with a known class selector always
/// returns a password.
pub proof fn lemma_known_class_always_renders(seed: Seq<u8>, tc: char)
    requires
        template_class(tc) is Some,
    ensures
        pattern_ok(spec_selected_pattern(seed, tc)),
        spec_selected_pattern(seed, tc).len() <= 31,
{
    crate::tables::lemma_shipped_patterns_ok(tc);
    lemma_template_class_nonempty(tc);
}

/// The output character at pattern position `i` depends on the pattern
/// character at `i` and the seed byte at `i + 1`, and on nothing else: two
/// renderings that agree there agree at position `i`.
pub proof fn lemma_render_offset(
    pat1: Seq<char>,
    seed1: Seq<u8>,
    pat2: Seq<char>,
    seed2: Seq<u8>,
    i: int,
)
    requires
        0 <= i < pat1.len(),
        0 <= i < pat2.len(),
        pat1[i] == pat2[i],
        i + 1 < seed1.len(),
        i + 1 < seed2.len(),
        seed1[i + 1] == seed2[i + 1],
    ensures
        rendered(pat1, seed1)[i] == rendered(pat2, seed2)[i],
{
}

} // verus!
