//! The read-only tables of the derivation algorithm: the character classes a
//! pattern may select from, the pattern strings of each template class, and
//! the namespace string bound to each usage purpose.

use vstd::prelude::*;
use vstd::pervasive::unreached;
use vstd::string::StringSliceAdditionalSpecFns;
use crate::UsagePurpose;

verus! {

/// The ordered candidate characters of each character class, keyed by the
/// selector character that names the class inside a pattern. `None` for a
/// character that names no class.
pub open spec fn char_class(sel: char) -> Option<Seq<char>> {
    match sel {
        ' ' => Some(" "@),
        'V' => Some("AEIOU"@),
        'C' => Some("BCDFGHJKLMNPQRSTVWXYZ"@),
        'v' => Some("aeiou"@),
        'c' => Some("bcdfghjklmnpqrstvwxyz"@),
        'A' => Some("AEIOUBCDFGHJKLMNPQRSTVWXYZ"@),
        'a' => Some("AEIOUaeiouBCDFGHJKLMNPQRSTVWXYZbcdfghjklmnpqrstvwxyz"@),
        'n' => Some("0123456789"@),
        'o' => Some("@&%?,=[]_:-+*$#!'^~;()/."@),
        'x' => Some(
            "AEIOUaeiouBCDFGHJKLMNPQRSTVWXYZbcdfghjklmnpqrstvwxyz0123456789!@#$%^&*()"@,
        ),
        _ => None,
    }
}

/// The executable side of [`char_class`]: the candidate characters of the
/// class that `sel` names.
pub fn char_class_str(sel: char) -> (r: Option<&'static str>)
    ensures
        match r {
            Some(s) => char_class(sel) == Some(s@),
            None => char_class(sel) is None,
        },
{
    match sel {
        ' ' => Some(" "),
        'V' => Some("AEIOU"),
        'C' => Some("BCDFGHJKLMNPQRSTVWXYZ"),
        'v' => Some("aeiou"),
        'c' => Some("bcdfghjklmnpqrstvwxyz"),
        'A' => Some("AEIOUBCDFGHJKLMNPQRSTVWXYZ"),
        'a' => Some("AEIOUaeiouBCDFGHJKLMNPQRSTVWXYZbcdfghjklmnpqrstvwxyz"),
        'n' => Some("0123456789"),
        'o' => Some("@&%?,=[]_:-+*$#!'^~;()/."),
        'x' => Some("AEIOUaeiouBCDFGHJKLMNPQRSTVWXYZbcdfghjklmnpqrstvwxyz0123456789!@#$%^&*()"),
        _ => None,
    }
}

/// No character class is empty, so indexing a class by a byte value modulo
/// the class length never divides by zero.
pub proof fn lemma_char_class_nonempty(sel: char)
    ensures
        char_class(sel) matches Some(cs) ==> cs.len() > 0,
{
    reveal_strlit(" ");
    reveal_strlit("AEIOU");
    reveal_strlit("BCDFGHJKLMNPQRSTVWXYZ");
    reveal_strlit("aeiou");
    reveal_strlit("bcdfghjklmnpqrstvwxyz");
    reveal_strlit("AEIOUBCDFGHJKLMNPQRSTVWXYZ");
    reveal_strlit("AEIOUaeiouBCDFGHJKLMNPQRSTVWXYZbcdfghjklmnpqrstvwxyz");
    reveal_strlit("0123456789");
    reveal_strlit("@&%?,=[]_:-+*$#!'^~;()/.");
    reveal_strlit("AEIOUaeiouBCDFGHJKLMNPQRSTVWXYZbcdfghjklmnpqrstvwxyz0123456789!@#$%^&*()");
}

/// The ordered pattern strings of each template class, keyed by the
/// one-character class selector. `None` for a character that names no class.
pub open spec fn template_class(tc: char) -> Option<Seq<Seq<char>>> {
    match tc {
        'x' => Some(seq!["anoxxxxxxxxxxxxxxxxx"@, "axxxxxxxxxxxxxxxxxno"@]),
        'p' => Some(seq!["nnnn"@]),
        'l' => Some(
            seq![
                "CvcvnoCvcvCvcv"@,
                "CvcvCvcvnoCvcv"@,
                "CvcvCvcvCvcvno"@,
                "CvccnoCvcvCvcv"@,
                "CvccCvcvnoCvcv"@,
                "CvccCvcvCvcvno"@,
                "CvcvnoCvccCvcv"@,
                "CvcvCvccnoCvcv"@,
                "CvcvCvccCvcvno"@,
                "CvcvnoCvcvCvcc"@,
                "CvcvCvcvnoCvcc"@,
                "CvcvCvcvCvccno"@,
                "CvccnoCvccCvcv"@,
                "CvccCvccnoCvcv"@,
                "CvccCvccCvcvno"@,
                "CvcvnoCvccCvcc"@,
                "CvcvCvccnoCvcc"@,
                "CvcvCvccCvccno"@,
                "CvccnoCvcvCvcc"@,
                "CvccCvcvnoCvcc"@,
                "CvccCvcvCvccno"@,
            ],
        ),
        'm' => Some(seq!["CvcnoCvc"@, "CvcCvcno"@]),
        's' => Some(seq!["Cvcn"@]),
        'n' => Some(seq!["cvccvcvcv"@]),
        'b' => Some(seq!["aaanaaan"@, "aannaaan"@, "aaannaaa"@]),
        'P' => Some(seq!["cvcc cvc cvccvcv cvc"@, "cvc cvccvcvcv cvcv"@, "cv cvccv cvc cvcvccv"@]),
        _ => None,
    }
}

/// Every template class offers at least one pattern, so indexing a class by
/// a seed byte modulo the pattern count never divides by zero.
pub proof fn lemma_template_class_nonempty(tc: char)
    ensures
        template_class(tc) matches Some(ts) ==> ts.len() > 0,
{
}

/// The number of patterns that the class `tc` offers; zero when `tc` names no
/// template class.
pub fn template_count(tc: char) -> (n: usize)
    ensures
        match template_class(tc) {
            Some(ts) => n == ts.len() && n > 0,
            None => n == 0,
        },
{
    match tc {
        'x' => 2,
        'p' => 1,
        'l' => 21,
        'm' => 2,
        's' => 1,
        'n' => 1,
        'b' => 3,
        'P' => 3,
        _ => 0,
    }
}

/// The pattern at position `idx` of template class `tc`.
pub fn template_at(tc: char, idx: usize) -> (p: &'static str)
    requires
        template_class(tc) is Some,
        idx < template_class(tc).unwrap().len(),
    ensures
        p@ == template_class(tc).unwrap()[idx as int],
{
    match tc {
        'x' => if idx == 0 {
            "anoxxxxxxxxxxxxxxxxx"
        } else {
            "axxxxxxxxxxxxxxxxxno"
        },
        'p' => "nnnn",
        'l' => match idx {
            0 => "CvcvnoCvcvCvcv",
            1 => "CvcvCvcvnoCvcv",
            2 => "CvcvCvcvCvcvno",
            3 => "CvccnoCvcvCvcv",
            4 => "CvccCvcvnoCvcv",
            5 => "CvccCvcvCvcvno",
            6 => "CvcvnoCvccCvcv",
            7 => "CvcvCvccnoCvcv",
            8 => "CvcvCvccCvcvno",
            9 => "CvcvnoCvcvCvcc",
            10 => "CvcvCvcvnoCvcc",
            11 => "CvcvCvcvCvccno",
            12 => "CvccnoCvccCvcv",
            13 => "CvccCvccnoCvcv",
            14 => "CvccCvccCvcvno",
            15 => "CvcvnoCvccCvcc",
            16 => "CvcvCvccnoCvcc",
            17 => "CvcvCvccCvccno",
            18 => "CvccnoCvcvCvcc",
            19 => "CvccCvcvnoCvcc",
            _ => "CvccCvcvCvccno",
        },
        'm' => if idx == 0 {
            "CvcnoCvc"
        } else {
            "CvcCvcno"
        },
        's' => "Cvcn",
        'n' => "cvccvcvcv",
        'b' => match idx {
            0 => "aaanaaan",
            1 => "aannaaan",
            _ => "aaannaaa",
        },
        'P' => match idx {
            0 => "cvcc cvc cvccvcv cvc",
            1 => "cvc cvccvcvcv cvcv",
            _ => "cv cvccv cvc cvcvccv",
        },
        _ => unreached(),
    }
}

/// Every pattern the tables ship is built from characters that name a
/// character class, and none is longer than the 31 seed bytes available for
/// rendering: rendering a shipped pattern can fail on neither count.
pub proof fn lemma_shipped_patterns_ok(tc: char)
    ensures
        template_class(tc) matches Some(ts) ==> forall|i: int|
            0 <= i < ts.len() ==> crate::pipeline::pattern_ok(#[trigger] ts[i]) && ts[i].len()
                <= 31,
{
    reveal_strlit("anoxxxxxxxxxxxxxxxxx");
    reveal_strlit("axxxxxxxxxxxxxxxxxno");
    reveal_strlit("nnnn");
    reveal_strlit("CvcvnoCvcvCvcv");
    reveal_strlit("CvcvCvcvnoCvcv");
    reveal_strlit("CvcvCvcvCvcvno");
    reveal_strlit("CvccnoCvcvCvcv");
    reveal_strlit("CvccCvcvnoCvcv");
    reveal_strlit("CvccCvcvCvcvno");
    reveal_strlit("CvcvnoCvccCvcv");
    reveal_strlit("CvcvCvccnoCvcv");
    reveal_strlit("CvcvCvccCvcvno");
    reveal_strlit("CvcvnoCvcvCvcc");
    reveal_strlit("CvcvCvcvnoCvcc");
    reveal_strlit("CvcvCvcvCvccno");
    reveal_strlit("CvccnoCvccCvcv");
    reveal_strlit("CvccCvccnoCvcv");
    reveal_strlit("CvccCvccCvcvno");
    reveal_strlit("CvcvnoCvccCvcc");
    reveal_strlit("CvcvCvccnoCvcc");
    reveal_strlit("CvcvCvccCvccno");
    reveal_strlit("CvccnoCvcvCvcc");
    reveal_strlit("CvccCvcvnoCvcc");
    reveal_strlit("CvccCvcvCvccno");
    reveal_strlit("CvcnoCvc");
    reveal_strlit("CvcCvcno");
    reveal_strlit("Cvcn");
    reveal_strlit("cvccvcvcv");
    reveal_strlit("aaanaaan");
    reveal_strlit("aannaaan");
    reveal_strlit("aaannaaa");
    reveal_strlit("cvcc cvc cvccvcv cvc");
    reveal_strlit("cvc cvccvcvcv cvcv");
    reveal_strlit("cv cvccv cvc cvcvccv");
}

/// The namespace string bound to each usage purpose. Derivations for
/// different purposes hash over different namespaces and so never collide.
pub open spec fn spec_purpose_namespace(u: UsagePurpose) -> Seq<char> {
    match u {
        UsagePurpose::Authentication => "com.lyndir.masterpassword"@,
        UsagePurpose::Login => "com.lyndir.masterpassword.login"@,
        UsagePurpose::Recovery => "com.lyndir.masterpassword.answer"@,
    }
}

/// The byte form of the namespace string bound to a usage purpose.
pub open spec fn namespace_bytes(u: UsagePurpose) -> Seq<u8> {
    match u {
        UsagePurpose::Authentication => "com.lyndir.masterpassword".spec_bytes(),
        UsagePurpose::Login => "com.lyndir.masterpassword.login".spec_bytes(),
        UsagePurpose::Recovery => "com.lyndir.masterpassword.answer".spec_bytes(),
    }
}

/// The executable side of [`spec_purpose_namespace`].
pub fn purpose_namespace(u: UsagePurpose) -> (ns: &'static str)
    ensures
        ns@ == spec_purpose_namespace(u),
        ns.spec_bytes() == namespace_bytes(u),
{
    match u {
        UsagePurpose::Authentication => "com.lyndir.masterpassword",
        UsagePurpose::Login => "com.lyndir.masterpassword.login",
        UsagePurpose::Recovery => "com.lyndir.masterpassword.answer",
    }
}

} // verus!
