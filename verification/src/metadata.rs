//! The signing metadata record and its serialised form.
//!
//! The downstream signing tool reads a flat JSON object with exactly three
//! fields, `Endpoint`, `CodeSigningAccountName` and `CertificateProfileName`.
//! The library emits that object itself, character for character, so the
//! whole serialisation is verified: `metadata_json` is the specification of
//! the output and `Metadata::to_json` produces exactly it.

use vstd::prelude::*;

verus! {

use vstd::string::StrSliceExecFns;
use vstd::string::StringExecFns;

/// Account, profile and endpoint configuration handed to the signing tool.
pub struct Metadata {
    /// Service URL of the signing endpoint (external field `Endpoint`).
    pub endpoint: String,
    /// Signing account name (external field `CodeSigningAccountName`).
    pub code_signing_account_name: String,
    /// Certificate profile name (external field `CertificateProfileName`).
    pub certificate_profile: String,
}

/// The lowercase hexadecimal digit for `n`, for `0 <= n < 16`.
pub open spec fn hex_digit(n: int) -> char {
    if n == 0 {
        '0'
    } else if n == 1 {
        '1'
    } else if n == 2 {
        '2'
    } else if n == 3 {
        '3'
    } else if n == 4 {
        '4'
    } else if n == 5 {
        '5'
    } else if n == 6 {
        '6'
    } else if n == 7 {
        '7'
    } else if n == 8 {
        '8'
    } else if n == 9 {
        '9'
    } else if n == 10 {
        'a'
    } else if n == 11 {
        'b'
    } else if n == 12 {
        'c'
    } else if n == 13 {
        'd'
    } else if n == 14 {
        'e'
    } else {
        'f'
    }
}

/// How one character appears inside a JSON string literal: quote and
/// backslash are escaped, the named control characters take their two-letter
/// escapes, any other control character takes a `\u00..` escape, and every
/// other character stands as itself.
pub open spec fn escape_char(c: char) -> Seq<char> {
    if c == '"' {
        "\\\""@
    } else if c == '\\' {
        "\\\\"@
    } else if c == '\u{8}' {
        "\\b"@
    } else if c == '\t' {
        "\\t"@
    } else if c == '\n' {
        "\\n"@
    } else if c == '\u{c}' {
        "\\f"@
    } else if c == '\r' {
        "\\r"@
    } else if (c as u32) < 32 {
        "\\u00"@ + seq![hex_digit(c as u32 as int / 16), hex_digit(c as u32 as int % 16)]
    } else {
        seq![c]
    }
}

/// The body of a JSON string literal holding the characters `s`.
pub open spec fn escape(s: Seq<char>) -> Seq<char>
    decreases s.len(),
{
    if s.len() == 0 {
        Seq::empty()
    } else {
        escape_char(s[0]) + escape(s.drop_first())
    }
}

pub proof fn lemma_escape_push(s: Seq<char>, c: char)
    ensures
        escape(s.push(c)) == escape(s) + escape_char(c),
    decreases s.len(),
{
    if s.len() == 0 {
        assert(s.push(c)[0] == c);
        assert(s.push(c).drop_first() =~= Seq::<char>::empty());
        assert(escape(s.push(c).drop_first()) == Seq::<char>::empty());
        assert(escape(s.push(c)) == escape_char(c) + Seq::<char>::empty());
        assert(escape(s) == Seq::<char>::empty());
        assert(escape_char(c) + Seq::<char>::empty() =~= Seq::<char>::empty() + escape_char(c));
    } else {
        assert(s.push(c).drop_first() =~= s.drop_first().push(c));
        lemma_escape_push(s.drop_first(), c);
        assert(s.push(c)[0] == s[0]);
        assert(escape(s.push(c)) == escape_char(s[0]) + (escape(s.drop_first()) + escape_char(c)));
        assert(escape_char(s[0]) + (escape(s.drop_first()) + escape_char(c)) =~= (escape_char(s[0])
            + escape(s.drop_first())) + escape_char(c));
    }
}

/// A JSON string literal holding the characters `s`, quotes included.
pub open spec fn json_string(s: Seq<char>) -> Seq<char> {
    "\""@ + escape(s) + "\""@
}

/// The serialised metadata object, exactly as it is written to disk.
pub open spec fn metadata_json(endpoint: Seq<char>, account: Seq<char>, profile: Seq<char>) -> Seq<
    char,
> {
    "{\"Endpoint\":"@ + json_string(endpoint) + ",\"CodeSigningAccountName\":"@ + json_string(
        account,
    ) + ",\"CertificateProfileName\":"@ + json_string(profile) + "}"@
}

/// The lowercase hexadecimal digit for `n`.
fn hex_digit_exec(n: u8) -> (c: char)
    requires
        n < 16,
    ensures
        c == hex_digit(n as int),
{
    if n == 0 {
        '0'
    } else if n == 1 {
        '1'
    } else if n == 2 {
        '2'
    } else if n == 3 {
        '3'
    } else if n == 4 {
        '4'
    } else if n == 5 {
        '5'
    } else if n == 6 {
        '6'
    } else if n == 7 {
        '7'
    } else if n == 8 {
        '8'
    } else if n == 9 {
        '9'
    } else if n == 10 {
        'a'
    } else if n == 11 {
        'b'
    } else if n == 12 {
        'c'
    } else if n == 13 {
        'd'
    } else if n == 14 {
        'e'
    } else {
        'f'
    }
}

/// Appends the escaped body of a JSON string literal for `s` to `out`.
fn push_escaped(out: &mut String, s: &str)
    ensures
        final(out)@ == old(out)@ + escape(s@),
{
    let n: usize = s.unicode_len();
    let mut i: usize = 0;
    while i < n
        invariant
            i <= n,
            n == s@.len(),
            out@ == old(out)@ + escape(s@.subrange(0, i as int)),
        decreases n - i,
    {
        let ghost done = s@.subrange(0, i as int);
        let c = s.get_char(i);
        proof {
            assert(s@.subrange(0, i + 1) =~= done.push(s@[i as int]));
            lemma_escape_push(done, s@[i as int]);
        }
        if c == '"' {
            out.append("\\\"");
        } else if c == '\\' {
            out.append("\\\\");
        } else if c == '\u{8}' {
            out.append("\\b");
        } else if c == '\t' {
            out.append("\\t");
        } else if c == '\n' {
            out.append("\\n");
        } else if c == '\u{c}' {
            out.append("\\f");
        } else if c == '\r' {
            out.append("\\r");
        } else if (c as u32) < 32 {
            let v: u32 = c as u32;
            out.append("\\u00");
            out.push(hex_digit_exec((v / 16) as u8));
            out.push(hex_digit_exec((v % 16) as u8));
        } else {
            out.push(c);
            proof {
                assert(escape_char(c) =~= seq![c]);
            }
        }
        proof {
            assert(out@ =~= old(out)@ + escape(s@.subrange(0, i + 1)));
        }
        i += 1;
    }
    proof {
        assert(s@.subrange(0, n as int) =~= s@);
    }
}

/// Appends the JSON string literal for `s`, quotes included, to `out`.
fn push_json_string(out: &mut String, s: &str)
    ensures
        final(out)@ == old(out)@ + json_string(s@),
{
    out.append("\"");
    push_escaped(out, s);
    out.append("\"");
    proof {
        assert(out@ =~= old(out)@ + json_string(s@));
    }
}

impl Metadata {
    /// Serialises the record into the flat JSON object the signing tool
    /// expects; the output is total and pinned down to the character.
    pub fn to_json(&self) -> (r: String)
        ensures
            r@ == metadata_json(
                self.endpoint@,
                self.code_signing_account_name@,
                self.certificate_profile@,
            ),
    {
        let mut out = String::new();
        out.append("{\"Endpoint\":");
        push_json_string(&mut out, self.endpoint.as_str());
        out.append(",\"CodeSigningAccountName\":");
        push_json_string(&mut out, self.code_signing_account_name.as_str());
        out.append(",\"CertificateProfileName\":");
        push_json_string(&mut out, self.certificate_profile.as_str());
        out.append("}");
        proof {
            assert(out@ =~= metadata_json(
                self.endpoint@,
                self.code_signing_account_name@,
                self.certificate_profile@,
            ));
        }
        out
    }
}

} // verus!
