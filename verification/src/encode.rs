//! Byte-level framing of the derivation inputs: 4-byte big-endian length
//! prefixes, the identity-bound salt and the site-bound message.

use vstd::prelude::*;
use crate::UsagePurpose;
use crate::tables::namespace_bytes;

verus! {

/// The four bytes of `x` in big-endian order.
pub open spec fn be32(x: u32) -> Seq<u8> {
    seq![
        ((x / 0x1000000) % 0x100) as u8,
        ((x / 0x10000) % 0x100) as u8,
        ((x / 0x100) % 0x100) as u8,
        (x % 0x100) as u8,
    ]
}

/// The executable side of [`be32`].
pub fn u32_be_bytes(x: u32) -> (r: Vec<u8>)
    ensures
        r@ == be32(x),
        r@.len() == 4,
{
    let mut r: Vec<u8> = Vec::new();
    r.push(((x / 0x1000000) % 0x100) as u8);
    r.push(((x / 0x10000) % 0x100) as u8);
    r.push(((x / 0x100) % 0x100) as u8);
    r.push((x % 0x100) as u8);
    proof {
        assert(r@ =~= be32(x));
    }
    r
}

/// Appends all of `src` to `dst`, in order.
pub fn push_bytes(dst: &mut Vec<u8>, src: &[u8])
    ensures
        final(dst)@ == old(dst)@ + src@,
{
    let ghost dst0 = dst@;
    let mut i: usize = 0;
    while i < src.len()
        invariant
            i <= src@.len(),
            dst@ == dst0 + src@.subrange(0, i as int),
        decreases src@.len() - i,
    {
        dst.push(src[i]);
        proof {
            assert(dst@ =~= dst0 + src@.subrange(0, i + 1 as int));
        }
        i = i + 1;
    }
    proof {
        assert(src@.subrange(0, src@.len() as int) =~= src@);
    }
}

/// Relies on String::from_utf8: a sequence of ASCII bytes decodes to the
/// string that holds exactly those bytes as characters.
#[verifier::external_body]
fn ascii_string(bytes: Vec<u8>) -> (r: String)
    requires
        forall|i: int| 0 <= i < bytes@.len() ==> bytes@[i] < 0x80,
    ensures
        r@.len() == bytes@.len(),
        forall|i: int| 0 <= i < bytes@.len() ==> r@[i] == bytes@[i] as char,
{
    String::from_utf8(bytes).unwrap()
}

/// Renders the four big-endian bytes of `x` as a four-character string, one
/// character per byte. Defined for values whose four bytes are all ASCII.
pub fn u32_as_string(x: u32) -> (r: String)
    requires
        forall|i: int| 0 <= i < 4 ==> be32(x)[i] < 0x80,
    ensures
        r@.len() == 4,
        forall|i: int| 0 <= i < 4 ==> r@[i] == be32(x)[i] as char,
{
    let bytes = u32_be_bytes(x);
    ascii_string(bytes)
}

/// The salt of the key-stretching step: the purpose namespace, a 4-byte
/// big-endian prefix holding the byte length of the identity, then the
/// identity bytes themselves.
pub open spec fn spec_salt(ns: Seq<u8>, identity: Seq<u8>) -> Seq<u8> {
    ns + be32(identity.len() as u32) + identity
}

/// Builds the key-stretching salt for `identity` under the namespace of `u`.
pub fn build_salt(identity: &[u8], u: UsagePurpose) -> (salt: Vec<u8>)
    requires
        identity@.len() <= u32::MAX,
    ensures
        salt@ == spec_salt(namespace_bytes(u), identity@),
{
    let ns = crate::tables::purpose_namespace(u);
    let mut salt: Vec<u8> = Vec::new();
    push_bytes(&mut salt, ns.as_bytes());
    let prefix = u32_be_bytes(identity.len() as u32);
    push_bytes(&mut salt, prefix.as_slice());
    push_bytes(&mut salt, identity);
    salt
}

/// The message of the site-seed derivation: the purpose namespace, the
/// length-prefixed site name, the 4-byte big-endian counter, and — only when
/// the context is non-empty — the length-prefixed context. An empty context
/// contributes nothing, not even a zero-length prefix.
pub open spec fn spec_site_message(
    ns: Seq<u8>,
    site: Seq<u8>,
    counter: u32,
    ctx: Seq<u8>,
) -> Seq<u8> {
    if ctx.len() == 0 {
        spec_site_message_no_context(ns, site, counter)
    } else {
        spec_site_message_no_context(ns, site, counter) + be32(ctx.len() as u32) + ctx
    }
}

/// The site message of a derivation in which a context does not figure at
/// all: the purpose namespace, the length-prefixed site name and the 4-byte
/// big-endian counter.
pub open spec fn spec_site_message_no_context(ns: Seq<u8>, site: Seq<u8>, counter: u32) -> Seq<u8> {
    ns + be32(site.len() as u32) + site + be32(counter)
}

/// Deriving with an empty context produces a byte-identical site message to
/// deriving with the context left out of the message altogether.
pub proof fn lemma_empty_context_equivalence(ns: Seq<u8>, site: Seq<u8>, counter: u32)
    ensures
        spec_site_message(ns, site, counter, Seq::<u8>::empty()) == spec_site_message_no_context(
            ns,
            site,
            counter,
        ),
{
}

/// Builds the site message for `site_name`, `counter` and `context` under the
/// namespace of `u`.
pub fn build_site_message(site_name: &[u8], counter: u32, context: &[u8], u: UsagePurpose) -> (msg:
    Vec<u8>)
    requires
        site_name@.len() <= u32::MAX,
        context@.len() <= u32::MAX,
    ensures
        msg@ == spec_site_message(namespace_bytes(u), site_name@, counter, context@),
{
    let ns = crate::tables::purpose_namespace(u);
    let mut msg: Vec<u8> = Vec::new();
    push_bytes(&mut msg, ns.as_bytes());
    let site_prefix = u32_be_bytes(site_name.len() as u32);
    push_bytes(&mut msg, site_prefix.as_slice());
    push_bytes(&mut msg, site_name);
    let counter_bytes = u32_be_bytes(counter);
    push_bytes(&mut msg, counter_bytes.as_slice());
    if context.len() > 0 {
        let ctx_prefix = u32_be_bytes(context.len() as u32);
        push_bytes(&mut msg, ctx_prefix.as_slice());
        push_bytes(&mut msg, context);
    }
    msg
}

} // verus!
